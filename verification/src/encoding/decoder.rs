//! The decode engine: it parses the header, slides an eight-byte window
//! over the pixel stream, and applies one opcode after the other until the
//! window holds the end marker.

use crate::color::color::RGBA;
use crate::encoding::cache::{cache_insert, PixelCache};
use crate::encoding::error::DecodeError;
use crate::encoding::opcode::{luma_delta, run_length, small_delta};
use crate::encoding::source::ByteSource;
use crate::encoding::stream::{
    decode_ops, lemma_decode_outcome, previous_pixel, spec_decode, spec_decode_len, DecodeState,
};
use crate::encoding::window::{slide, Window, WINDOW_LEN};
use crate::structure::qoi_header::{QOIHeader, HEADER_LEN};
use crate::structure::qoi_image::QOIImage;
use crate::structure::tag::{Tag, TAG_RGB, TAG_RGBA};
use vstd::prelude::*;

verus! {

/// Where a decode stands. A decode starts in `AwaitingHeader`, moves to
/// `Streaming` once the header is parsed, and ends in `Done` at the end
/// marker; the first error, wherever it occurs, ends it in `Error`.
#[derive(Debug, Eq, PartialEq, Structural, Clone, Copy)]
pub enum DecodePhase {
    /// Nothing has been read yet.
    AwaitingHeader,
    /// The header is parsed and the window is primed; opcodes are being
    /// applied.
    Streaming,
    /// The end marker was found: the image is whole.
    Done,
    /// The decode failed and has been abandoned.
    Error,
}

/// A decoder. It owns the image under construction, the cache of seen
/// pixels and the lookahead window; all three start afresh with every
/// decode.
pub struct Decoder {
    seen: PixelCache,
    image: QOIImage,
    dequeue: Window,
    phase: DecodePhase,
}

impl Decoder {
    /// The image that the decoder holds.
    pub closed spec fn spec_image(&self) -> QOIImage {
        self.image
    }

    /// Where the decoder's last decode stands.
    pub closed spec fn spec_phase(&self) -> DecodePhase {
        self.phase
    }

    /// The pixels decoded so far, which are those of the image, and the
    /// slots of the cache.
    pub closed spec fn state(&self) -> DecodeState {
        DecodeState { pixels: self.image.pixels@, cache: self.seen@ }
    }

    /// The bytes in the lookahead window, oldest first.
    pub closed spec fn window(&self) -> Seq<u8> {
        self.dequeue@
    }

    /// A decoder that has decoded nothing yet: it awaits a header, its
    /// image is the empty image, no slot of its cache holds a pixel, and its
    /// window holds no byte.
    pub fn new() -> (decoder: Decoder)
        ensures
            decoder.spec_image().header == QOIHeader::spec_new(),
            decoder.spec_image().pixels@ == Seq::<RGBA>::empty(),
            decoder.spec_phase() == DecodePhase::AwaitingHeader,
            decoder.state() == DecodeState::initial(),
            decoder.window() == Seq::<u8>::empty(),
    {
        Decoder {
            seen: PixelCache::new(),
            image: QOIImage::new(),
            dequeue: Window::new(),
            phase: DecodePhase::AwaitingHeader,
        }
    }

    /// Where the last decode stands: `AwaitingHeader` before the first,
    /// `Done` after a success, `Error` after a failure.
    pub fn phase(&self) -> (phase: DecodePhase)
        ensures
            phase == self.spec_phase(),
    {
        self.phase
    }

    /// The image that the last decode left: its header and its pixels
    /// after a success, an empty image after a failure.
    pub fn image(&self) -> (image: &QOIImage)
        ensures
            *image == self.spec_image(),
    {
        &self.image
    }

    /// Stores `rgba` in the cache.
    #[inline]
    fn insert_seen(&mut self, rgba: &RGBA)
        ensures
            final(self).seen@ == cache_insert(old(self).seen@, *rgba),
            final(self).image == old(self).image,
            final(self).phase == old(self).phase,
            final(self).window() == old(self).window(),
    {
        self.seen.insert(*rgba);
    }

    /// The pixel decoded last, or opaque black before the first.
    #[inline]
    fn last_pixel(&self) -> (pixel: RGBA)
        ensures
            pixel == previous_pixel(self.state().pixels),
    {
        let count = self.image.pixels.len();
        if count == 0 {
            RGBA::new()
        } else {
            self.image.pixels[count - 1]
        }
    }

    /// Appends `pixel` to the output and stores it in the cache.
    fn emit(&mut self, pixel: RGBA)
        ensures
            final(self).state() == old(self).state().emit(pixel),
            final(self).image.header == old(self).image.header,
            final(self).phase == old(self).phase,
            final(self).window() == old(self).window(),
    {
        self.insert_seen(&pixel);
        self.image.pixels.push(pixel);
    }

    /// The staged byte at `index` of the window.
    fn staged(&self, index: usize) -> (result: Result<u8, DecodeError>)
        ensures
            match result {
                Ok(byte) => index < self.window().len() && byte == self.window()[index as int],
                Err(e) => e == DecodeError::TruncatedStream && index >= self.window().len(),
            },
    {
        match self.dequeue.get(index) {
            Some(byte) => Ok(byte),
            None => Err(DecodeError::TruncatedStream),
        }
    }

    /// Reads `count` bytes from `reader` and pushes them onto the window.
    fn advance(&mut self, reader: &mut ByteSource, count: usize) -> (result: Result<
        (),
        DecodeError,
    >)
        ensures
            final(self).image == old(self).image,
            final(self).phase == old(self).phase,
            final(self).seen == old(self).seen,
            match result {
                Ok(_) => {
                    &&& count <= old(reader)@.len()
                    &&& final(self).window() == slide(
                        old(self).window(),
                        old(reader)@.take(count as int),
                    )
                    &&& final(reader)@ == old(reader)@.skip(count as int)
                },
                Err(e) => {
                    &&& e == DecodeError::TruncatedStream
                    &&& count > old(reader)@.len()
                    &&& final(self).window() == old(self).window()
                    &&& final(reader)@ == old(reader)@
                },
            },
    {
        let bytes = reader.read_exact(count)?;
        self.dequeue.extend_back(&bytes);
        Ok(())
    }

    /// Parses the header of the image from `reader`.
    fn read_header(&mut self, reader: &mut ByteSource) -> (result: Result<(), DecodeError>)
        ensures
            final(self).image.pixels == old(self).image.pixels,
            final(self).phase == old(self).phase,
            final(self).seen == old(self).seen,
            final(self).dequeue == old(self).dequeue,
            match result {
                Ok(_) => QOIHeader::spec_parse(old(reader)@) == Ok::<QOIHeader, DecodeError>(
                    final(self).image.header,
                ),
                Err(e) => QOIHeader::spec_parse(old(reader)@) == Err::<QOIHeader, DecodeError>(e),
            },
            final(reader)@ == old(reader)@.skip(QOIHeader::spec_parse_len(old(reader)@) as int),
    {
        self.image.header.read_buffer(reader)
    }

    /// Literal RGB: the three staged bytes are red, green and blue; alpha
    /// is that of the pixel before. Three bytes are then read into the
    /// window.
    fn process_op_rgb(&mut self, reader: &mut ByteSource) -> (result: Result<(), DecodeError>)
        requires
            old(self).window().len() == WINDOW_LEN,
        ensures
            final(self).image.header == old(self).image.header,
            final(self).phase == old(self).phase,
            match result {
                Ok(_) => {
                    &&& 3 <= old(reader)@.len()
                    &&& old(self).state().apply(TAG_RGB, old(self).window()) == Ok::<
                        DecodeState,
                        DecodeError,
                    >(final(self).state())
                    &&& final(self).window() == old(self).window().skip(3) + old(reader)@.take(3)
                    &&& final(reader)@ == old(reader)@.skip(3)
                },
                Err(e) => {
                    &&& e == DecodeError::TruncatedStream
                    &&& 3 > old(reader)@.len()
                    &&& final(reader)@ == old(reader)@
                },
            },
    {
        let color_value: [u8; 3] = [self.staged(0)?, self.staged(1)?, self.staged(2)?];
        let mut pixel: RGBA = RGBA::from_rgb_bytes(&color_value);
        // Back reference previous pixel alpha value
        pixel.a = self.last_pixel().a;
        self.emit(pixel);
        // Move past color bytes
        self.advance(reader, 3)?;
        assert(self.window() =~= old(self).window().skip(3) + old(reader)@.take(3));
        Ok(())
    }

    /// Literal RGBA: the four staged bytes are the pixel. Four bytes are
    /// then read into the window.
    fn process_op_rgba(&mut self, reader: &mut ByteSource) -> (result: Result<(), DecodeError>)
        requires
            old(self).window().len() == WINDOW_LEN,
        ensures
            final(self).image.header == old(self).image.header,
            final(self).phase == old(self).phase,
            match result {
                Ok(_) => {
                    &&& 4 <= old(reader)@.len()
                    &&& old(self).state().apply(TAG_RGBA, old(self).window()) == Ok::<
                        DecodeState,
                        DecodeError,
                    >(final(self).state())
                    &&& final(self).window() == old(self).window().skip(4) + old(reader)@.take(4)
                    &&& final(reader)@ == old(reader)@.skip(4)
                },
                Err(e) => {
                    &&& e == DecodeError::TruncatedStream
                    &&& 4 > old(reader)@.len()
                    &&& final(reader)@ == old(reader)@
                },
            },
    {
        let color_value: [u8; 4] = [
            self.staged(0)?,
            self.staged(1)?,
            self.staged(2)?,
            self.staged(3)?,
        ];
        let pixel: RGBA = RGBA::from_rgba_bytes(&color_value);
        self.emit(pixel);
        // Move past color bytes
        self.advance(reader, 4)?;
        assert(self.window() =~= old(self).window().skip(4) + old(reader)@.take(4));
        Ok(())
    }

    /// Cached index: the pixel in the slot that the tag's low six bits
    /// name, where the slot holds one.
    fn process_op_index(&mut self, tag: u8) -> (result: Result<(), DecodeError>)
        requires
            Tag::spec_classify(tag) == Tag::CachedIndex,
        ensures
            final(self).image.header == old(self).image.header,
            final(self).phase == old(self).phase,
            final(self).window() == old(self).window(),
            match result {
                Ok(_) => old(self).state().apply(tag, old(self).window()) == Ok::<
                    DecodeState,
                    DecodeError,
                >(final(self).state()),
                Err(e) => old(self).state().apply(tag, old(self).window()) == Err::<
                    DecodeState,
                    DecodeError,
                >(e),
            },
    {
        let index = Tag::payload(tag);
        let indexed_pixel = self.seen.lookup(index)?;
        self.emit(indexed_pixel);
        Ok(())
    }

    /// Small delta: the pixel before, each colour channel moved by its
    /// two-bit difference.
    fn process_op_diff(&mut self, tag: u8) -> (result: Result<(), DecodeError>)
        requires
            Tag::spec_classify(tag) == Tag::SmallDelta,
        ensures
            final(self).image.header == old(self).image.header,
            final(self).phase == old(self).phase,
            final(self).window() == old(self).window(),
            result is Ok,
            old(self).state().apply(tag, old(self).window()) == Ok::<DecodeState, DecodeError>(
                final(self).state(),
            ),
    {
        let last_pixel: RGBA = self.last_pixel();
        self.emit(small_delta(last_pixel, tag));
        Ok(())
    }

    /// Luma delta: the pixel before, moved by the green difference of the
    /// tag and the red and blue offsets of the staged byte. One byte is
    /// then read into the window.
    fn process_op_luma(&mut self, reader: &mut ByteSource, tag: u8) -> (result: Result<
        (),
        DecodeError,
    >)
        requires
            old(self).window().len() == WINDOW_LEN,
            Tag::spec_classify(tag) == Tag::LumaDelta,
        ensures
            final(self).image.header == old(self).image.header,
            final(self).phase == old(self).phase,
            match result {
                Ok(_) => {
                    &&& 1 <= old(reader)@.len()
                    &&& old(self).state().apply(tag, old(self).window()) == Ok::<
                        DecodeState,
                        DecodeError,
                    >(final(self).state())
                    &&& final(self).window() == old(self).window().skip(1) + old(reader)@.take(1)
                    &&& final(reader)@ == old(reader)@.skip(1)
                },
                Err(e) => {
                    &&& e == DecodeError::TruncatedStream
                    &&& 1 > old(reader)@.len()
                    &&& final(reader)@ == old(reader)@
                },
            },
    {
        let last_pixel: RGBA = self.last_pixel();
        let difference_byte: u8 = self.staged(0)?;
        self.emit(luma_delta(last_pixel, tag, difference_byte));
        // Move past difference byte
        self.advance(reader, 1)?;
        assert(self.window() =~= old(self).window().skip(1) + old(reader)@.take(1));
        Ok(())
    }

    /// Run: the pixel before, as many times as the tag's low six bits say,
    /// plus one.
    fn process_op_run(&mut self, tag: u8) -> (result: Result<(), DecodeError>)
        requires
            Tag::spec_classify(tag) == Tag::Run,
        ensures
            final(self).image.header == old(self).image.header,
            final(self).phase == old(self).phase,
            final(self).window() == old(self).window(),
            result is Ok,
            old(self).state().apply(tag, old(self).window()) == Ok::<DecodeState, DecodeError>(
                final(self).state(),
            ),
    {
        let last_pixel: RGBA = self.last_pixel();
        let count = run_length(tag);
        let mut done: usize = 0;
        while done < count
            invariant
                done <= count,
                self.state() == old(self).state().emit_run(last_pixel, done as nat),
                self.image.header == old(self).image.header,
                self.phase == old(self).phase,
                self.window() == old(self).window(),
            decreases count - done,
        {
            self.emit(last_pixel);
            done = done + 1;
        }
        Ok(())
    }

    /// Empties the window and fills it with the first eight bytes of the
    /// pixel stream.
    fn init_dequeue(&mut self, reader: &mut ByteSource) -> (result: Result<(), DecodeError>)
        ensures
            final(self).image == old(self).image,
            final(self).phase == old(self).phase,
            final(self).seen == old(self).seen,
            match result {
                Ok(_) => {
                    &&& WINDOW_LEN <= old(reader)@.len()
                    &&& final(self).window() == old(reader)@.take(WINDOW_LEN as int)
                    &&& final(reader)@ == old(reader)@.skip(WINDOW_LEN as int)
                },
                Err(e) => {
                    &&& e == DecodeError::TruncatedStream
                    &&& WINDOW_LEN > old(reader)@.len()
                    &&& final(reader)@ == old(reader)@
                },
            },
    {
        self.dequeue.clear();
        self.advance(reader, WINDOW_LEN)?;
        assert(self.window() =~= old(reader)@.take(WINDOW_LEN as int));
        Ok(())
    }

    /// Applies the opcode whose tag byte is `tag`: the window holds the
    /// bytes staged behind it, and `reader` stands behind the window.
    fn process_op(&mut self, reader: &mut ByteSource, tag: u8) -> (result: Result<(), DecodeError>)
        requires
            old(self).window().len() == WINDOW_LEN,
        ensures
            final(self).image.header == old(self).image.header,
            final(self).phase == old(self).phase,
            match old(self).state().apply(tag, old(self).window()) {
                Ok(next) => {
                    let operands = Tag::spec_classify(tag).spec_operand_len() as int;
                    if operands <= old(reader)@.len() {
                        &&& result is Ok
                        &&& final(self).state() == next
                        &&& final(self).window() == old(self).window().skip(operands) + old(reader)@
                            .take(operands)
                        &&& final(reader)@ == old(reader)@.skip(operands)
                    } else {
                        &&& result == Err::<(), DecodeError>(DecodeError::TruncatedStream)
                        &&& final(reader)@ == old(reader)@
                    }
                },
                Err(e) => {
                    &&& result == Err::<(), DecodeError>(e)
                    &&& final(reader)@ == old(reader)@
                },
            },
    {
        match Tag::classify(tag) {
            Tag::LiteralRGB => self.process_op_rgb(reader),
            Tag::LiteralRGBA => self.process_op_rgba(reader),
            Tag::CachedIndex => self.process_op_index(tag),
            Tag::SmallDelta => self.process_op_diff(tag),
            Tag::LumaDelta => self.process_op_luma(reader, tag),
            Tag::Run => self.process_op_run(tag),
        }
    }

    /// Decodes a whole stream into the decoder's image.
    fn decode_image(&mut self, reader: &mut ByteSource) -> (result: Result<(), DecodeError>)
        ensures
            match result {
                Ok(_) => {
                    &&& spec_decode(old(reader)@) == Ok::<(QOIHeader, Seq<RGBA>), DecodeError>(
                        (final(self).image.header, final(self).image.pixels@),
                    )
                    &&& final(self).phase == DecodePhase::Done
                },
                Err(e) => spec_decode(old(reader)@) == Err::<(QOIHeader, Seq<RGBA>), DecodeError>(
                    e,
                ),
            },
            final(reader)@ == old(reader)@.skip(spec_decode_len(old(reader)@)),
    {
        let ghost bytes = reader@;
        self.phase = DecodePhase::AwaitingHeader;
        self.seen = PixelCache::new();
        self.image = QOIImage::new();
        self.read_header(reader)?;
        self.phase = DecodePhase::Streaming;
        let ghost header = self.image.header;
        assert(self.state() == DecodeState::initial());
        assert(reader@ == bytes.skip(HEADER_LEN as int));
        match self.init_dequeue(reader) {
            Ok(_) => {},
            Err(e) => {
                assert(bytes.skip(HEADER_LEN as int).len() < WINDOW_LEN);
                return Err(e);
            },
        }
        let ghost mut at: int = HEADER_LEN as int;
        assert(self.window() =~= bytes.subrange(at, at + WINDOW_LEN));
        assert(reader@ =~= bytes.skip(at + WINDOW_LEN));
        while !self.dequeue.is_end_marker()
            invariant
                HEADER_LEN <= at,
                at + WINDOW_LEN <= bytes.len(),
                self.window() == bytes.subrange(at, at + WINDOW_LEN),
                reader@ == bytes.skip(at + WINDOW_LEN),
                self.image.header == header,
                self.phase == DecodePhase::Streaming,
                decode_ops(bytes, HEADER_LEN as int, DecodeState::initial()) == decode_ops(
                    bytes,
                    at,
                    self.state(),
                ),
                QOIHeader::spec_parse(bytes) == Ok::<QOIHeader, DecodeError>(header),
                bytes == old(reader)@,
            decreases bytes.len() - at,
        {
            let front: u8 = match self.dequeue.front() {
                Some(v) => v,
                None => {
                    return Err(DecodeError::TruncatedStream);
                },
            };
            let next = reader.read_u8()?;
            self.dequeue.push_back(next);
            assert(self.window() =~= bytes.subrange(at + 1, at + WINDOW_LEN + 1));
            assert(reader@ =~= bytes.skip(at + WINDOW_LEN + 1));
            self.process_op(reader, front)?;
            proof {
                let operands = Tag::spec_classify(front).spec_operand_len() as int;
                assert(self.window() =~= bytes.subrange(
                    at + 1 + operands,
                    at + 1 + operands + WINDOW_LEN,
                ));
                assert(reader@ =~= bytes.skip(at + 1 + operands + WINDOW_LEN));
                at = at + 1 + operands;
            }
        }
        self.phase = DecodePhase::Done;
        Ok(())
    }

    /// Decodes the stream that `reader` holds.
    ///
    /// The stream is a header, opcodes, and the end marker. On success the
    /// result is the sequence of decoded pixels, the decoder's image holds
    /// the parsed header and the same pixels, and `reader` stands behind the
    /// end marker. On failure the result is the first error that decoding
    /// met, the decoder's image is empty again, and `reader` stands where
    /// the failing step left it. What the decoder held before the call has
    /// no influence on either.
    pub fn decode_buffer(&mut self, reader: &mut ByteSource) -> (result: Result<
        Vec<RGBA>,
        DecodeError,
    >)
        ensures
            match result {
                Ok(pixels) => {
                    &&& spec_decode(old(reader)@) == Ok::<(QOIHeader, Seq<RGBA>), DecodeError>(
                        (final(self).spec_image().header, pixels@),
                    )
                    &&& final(self).spec_image().pixels@ == pixels@
                    &&& final(self).spec_phase() == DecodePhase::Done
                },
                Err(e) => {
                    &&& spec_decode(old(reader)@) == Err::<(QOIHeader, Seq<RGBA>), DecodeError>(e)
                    &&& e != DecodeError::UnknownOpcode
                    &&& final(self).spec_image().header == QOIHeader::spec_new()
                    &&& final(self).spec_image().pixels@ == Seq::<RGBA>::empty()
                    &&& final(self).spec_phase() == DecodePhase::Error
                },
            },
            final(reader)@ == old(reader)@.skip(spec_decode_len(old(reader)@)),
    {
        proof {
            lemma_decode_outcome(reader@);
        }
        match self.decode_image(reader) {
            Ok(_) => {
                let pixels = self.image.pixels.clone();
                assert(pixels@ =~= self.image.pixels@);
                Ok(pixels)
            },
            Err(e) => {
                self.image = QOIImage::new();
                self.phase = DecodePhase::Error;
                Err(e)
            },
        }
    }
}

} // verus!
