//! What a byte stream decodes to: the meaning of the format, stated over
//! sequences of bytes and pixels. The decoder is proved against it.

use crate::color::color::RGBA;
use crate::encoding::cache::{cache_insert, empty_cache};
use crate::encoding::common::{spec_hash_rgba, CACHE_SLOTS};
use crate::encoding::error::DecodeError;
use crate::encoding::opcode::{spec_luma_delta, spec_run_length, spec_small_delta};
use crate::encoding::window::{end_marker, WINDOW_LEN};
use crate::structure::qoi_header::{QOIHeader, HEADER_LEN};
use crate::structure::tag::Tag;
use vstd::prelude::*;

verus! {

/// What the decoder knows between two opcodes: the pixels decoded so far
/// and the 64 slots of the cache.
pub struct DecodeState {
    pub pixels: Seq<RGBA>,
    pub cache: Seq<Option<RGBA>>,
}

/// The pixel that the next opcode builds on: the last one decoded, or
/// opaque black before the first.
pub open spec fn previous_pixel(pixels: Seq<RGBA>) -> RGBA {
    if pixels.len() == 0 {
        RGBA::spec_new()
    } else {
        pixels.last()
    }
}

impl DecodeState {
    /// The state in which decoding starts: no pixels, an empty cache.
    pub open spec fn initial() -> DecodeState {
        DecodeState { pixels: Seq::empty(), cache: empty_cache() }
    }

    /// The state after `pixel` was decoded: it is appended to the output
    /// and stored in the cache.
    pub open spec fn emit(self, pixel: RGBA) -> DecodeState {
        DecodeState { pixels: self.pixels.push(pixel), cache: cache_insert(self.cache, pixel) }
    }

    /// The state after `pixel` was decoded `count` times in a row.
    pub open spec fn emit_run(self, pixel: RGBA, count: nat) -> DecodeState
        decreases count,
    {
        if count == 0 {
            self
        } else {
            self.emit_run(pixel, (count - 1) as nat).emit(pixel)
        }
    }

    /// The state after the opcode with tag byte `tag` was applied, or the
    /// error that it fails with. `staged` holds the bytes that follow the
    /// tag in the stream; an opcode looks at as many of them as its class
    /// has operands.
    pub open spec fn apply(self, tag: u8, staged: Seq<u8>) -> Result<DecodeState, DecodeError> {
        let prev = previous_pixel(self.pixels);
        match Tag::spec_classify(tag) {
            Tag::LiteralRGB => Ok(
                self.emit(RGBA { r: staged[0], g: staged[1], b: staged[2], a: prev.a }),
            ),
            Tag::LiteralRGBA => Ok(
                self.emit(RGBA { r: staged[0], g: staged[1], b: staged[2], a: staged[3] }),
            ),
            Tag::CachedIndex => match self.cache[Tag::spec_payload(tag) as int] {
                Some(pixel) => Ok(self.emit(pixel)),
                None => Err(DecodeError::InvalidCacheReference),
            },
            Tag::SmallDelta => Ok(self.emit(spec_small_delta(prev, tag))),
            Tag::LumaDelta => Ok(self.emit(spec_luma_delta(prev, tag, staged[0]))),
            Tag::Run => Ok(self.emit_run(prev, spec_run_length(tag))),
        }
    }
}

/// How decoding ended, and how many bytes of the stream were read when it
/// did.
pub struct Outcome {
    pub result: Result<DecodeState, DecodeError>,
    pub read: int,
}

/// What the opcodes of `bytes` from position `at` on decode to, starting
/// in `state`.
///
/// The decoder looks eight bytes ahead. Where the eight bytes at `at` are
/// the end marker, decoding is done. Otherwise the byte at `at` is a tag;
/// the decoder reads one byte more, applies the opcode to the bytes staged
/// behind the tag, reads as many bytes more as the opcode has operands,
/// and goes on behind them. A read that the stream cannot serve fails with
/// `TruncatedStream` and reads nothing.
pub open spec fn decode_ops(bytes: Seq<u8>, at: int, state: DecodeState) -> Outcome
    decreases bytes.len() - at,
{
    if at + WINDOW_LEN > bytes.len() {
        Outcome { result: Err(DecodeError::TruncatedStream), read: at }
    } else if bytes.subrange(at, at + WINDOW_LEN) == end_marker() {
        Outcome { result: Ok(state), read: at + WINDOW_LEN }
    } else if at + WINDOW_LEN + 1 > bytes.len() {
        Outcome { result: Err(DecodeError::TruncatedStream), read: at + WINDOW_LEN }
    } else {
        let tag = bytes[at];
        let operands = Tag::spec_classify(tag).spec_operand_len();
        match state.apply(tag, bytes.subrange(at + 1, at + WINDOW_LEN + 1)) {
            Err(e) => Outcome { result: Err(e), read: at + WINDOW_LEN + 1 },
            Ok(next) => if at + WINDOW_LEN + 1 + operands > bytes.len() {
                Outcome { result: Err(DecodeError::TruncatedStream), read: at + WINDOW_LEN + 1 }
            } else {
                decode_ops(bytes, at + 1 + operands, next)
            },
        }
    }
}

/// What `bytes` decodes to: the header and the pixels, or the first error.
pub open spec fn spec_decode(bytes: Seq<u8>) -> Result<(QOIHeader, Seq<RGBA>), DecodeError> {
    match QOIHeader::spec_parse(bytes) {
        Err(e) => Err(e),
        Ok(header) => match decode_ops(bytes, HEADER_LEN as int, DecodeState::initial()).result {
            Err(e) => Err(e),
            Ok(state) => Ok((header, state.pixels)),
        },
    }
}

/// How many bytes of `bytes` decoding reads before it ends, in success or
/// in failure.
pub open spec fn spec_decode_len(bytes: Seq<u8>) -> int {
    match QOIHeader::spec_parse(bytes) {
        Err(_) => QOIHeader::spec_parse_len(bytes) as int,
        Ok(_) => decode_ops(bytes, HEADER_LEN as int, DecodeState::initial()).read,
    }
}

/// A run appends its pixel exactly `count` times and changes nothing else
/// of the output; of the cache it changes at most the pixel's own slot.
pub proof fn lemma_emit_run(state: DecodeState, pixel: RGBA, count: nat)
    requires
        state.cache.len() == CACHE_SLOTS,
    ensures
        state.emit_run(pixel, count).pixels == state.pixels + Seq::new(count, |i: int| pixel),
        count > 0 ==> state.emit_run(pixel, count).cache == cache_insert(state.cache, pixel),
        count == 0 ==> state.emit_run(pixel, count).cache == state.cache,
    decreases count,
{
    if count > 0 {
        let before = (count - 1) as nat;
        lemma_emit_run(state, pixel, before);
        assert(state.emit_run(pixel, count).pixels =~= state.pixels + Seq::new(
            count,
            |i: int| pixel,
        ));
        assert(cache_insert(cache_insert(state.cache, pixel), pixel) =~= cache_insert(
            state.cache,
            pixel,
        ));
    }
}

/// A run opcode with payload `n` appends the pixel before it exactly
/// `n + 1` times, whatever bytes are staged behind it.
pub proof fn lemma_run_appends(state: DecodeState, tag: u8, staged: Seq<u8>)
    requires
        state.cache.len() == CACHE_SLOTS,
        Tag::spec_classify(tag) == Tag::Run,
    ensures
        state.apply(tag, staged) is Ok,
        state.apply(tag, staged)->Ok_0.pixels == state.pixels + Seq::new(
            (Tag::spec_payload(tag) + 1) as nat,
            |i: int| previous_pixel(state.pixels),
        ),
{
    lemma_emit_run(state, previous_pixel(state.pixels), spec_run_length(tag));
}

/// A cached-index opcode fails exactly where the slot that it names is
/// empty, and then with `InvalidCacheReference`; where the slot holds a
/// pixel, that pixel is appended.
pub proof fn lemma_index_hits_or_misses(state: DecodeState, tag: u8, staged: Seq<u8>)
    requires
        Tag::spec_classify(tag) == Tag::CachedIndex,
    ensures
        match state.cache[Tag::spec_payload(tag) as int] {
            Some(pixel) => state.apply(tag, staged) == Ok::<DecodeState, DecodeError>(
                state.emit(pixel),
            ),
            None => state.apply(tag, staged) == Err::<DecodeState, DecodeError>(
                DecodeError::InvalidCacheReference,
            ),
        },
{
}

/// An opcode appends at least one pixel, keeps the pixels before it, and
/// leaves the cache with 64 slots, of which the slot of the last pixel
/// holds that pixel.
pub proof fn lemma_apply_extends(state: DecodeState, tag: u8, staged: Seq<u8>)
    requires
        state.cache.len() == CACHE_SLOTS,
        state.apply(tag, staged) is Ok,
    ensures
        ({
            let next = state.apply(tag, staged)->Ok_0;
            &&& next.pixels.len() > state.pixels.len()
            &&& next.pixels.take(state.pixels.len() as int) == state.pixels
            &&& next.cache.len() == CACHE_SLOTS
            &&& next.cache[spec_hash_rgba(next.pixels.last())] == Some(next.pixels.last())
        }),
{
    let next = state.apply(tag, staged)->Ok_0;
    if Tag::spec_classify(tag) == Tag::Run {
        lemma_emit_run(state, previous_pixel(state.pixels), spec_run_length(tag));
    }
    assert(next.pixels.take(state.pixels.len() as int) =~= state.pixels);
}

/// Decoding the opcodes reads forward only and never past the end of the
/// stream, keeps the pixels it started with, and fails with no other
/// error than `TruncatedStream` and `InvalidCacheReference`.
pub proof fn lemma_decode_ops_outcome(bytes: Seq<u8>, at: int, state: DecodeState)
    requires
        0 <= at,
        state.cache.len() == CACHE_SLOTS,
    ensures
        ({
            let outcome = decode_ops(bytes, at, state);
            &&& at <= outcome.read
            &&& at <= bytes.len() ==> outcome.read <= bytes.len()
            &&& match outcome.result {
                Ok(end) => {
                    &&& end.pixels.len() >= state.pixels.len()
                    &&& end.pixels.take(state.pixels.len() as int) == state.pixels
                    &&& bytes.subrange(outcome.read - WINDOW_LEN, outcome.read) == end_marker()
                },
                Err(e) => e == DecodeError::TruncatedStream || e
                    == DecodeError::InvalidCacheReference,
            }
        }),
    decreases bytes.len() - at,
{
    if at + WINDOW_LEN > bytes.len() {
    } else if bytes.subrange(at, at + WINDOW_LEN) == end_marker() {
        assert(state.pixels.take(state.pixels.len() as int) =~= state.pixels);
    } else if at + WINDOW_LEN + 1 > bytes.len() {
    } else {
        let tag = bytes[at];
        let operands = Tag::spec_classify(tag).spec_operand_len();
        let staged = bytes.subrange(at + 1, at + WINDOW_LEN + 1);
        match state.apply(tag, staged) {
            Err(e) => {},
            Ok(next) => {
                lemma_apply_extends(state, tag, staged);
                if at + WINDOW_LEN + 1 + operands <= bytes.len() {
                    lemma_decode_ops_outcome(bytes, at + 1 + operands, next);
                    let outcome = decode_ops(bytes, at, state);
                    if outcome.result is Ok {
                        let end = outcome.result->Ok_0;
                        assert(end.pixels.take(state.pixels.len() as int) =~= end.pixels.take(
                            next.pixels.len() as int,
                        ).take(state.pixels.len() as int));
                    }
                }
            },
        }
    }
}

/// Decoding succeeds only on a stream that holds a header with known
/// enumerations and, behind the opcodes, the end marker; it reads no
/// further than the marker. It fails with no other error than
/// `MalformedHeader`, `TruncatedStream` and `InvalidCacheReference`.
pub proof fn lemma_decode_outcome(bytes: Seq<u8>)
    ensures
        0 <= spec_decode_len(bytes) <= bytes.len(),
        match spec_decode(bytes) {
            Ok((header, pixels)) => {
                &&& header.is_valid()
                &&& HEADER_LEN + WINDOW_LEN <= spec_decode_len(bytes)
                &&& bytes.subrange(spec_decode_len(bytes) - WINDOW_LEN, spec_decode_len(bytes))
                    == end_marker()
            },
            Err(e) => e != DecodeError::UnknownOpcode,
        },
{
    lemma_decode_ops_outcome(bytes, HEADER_LEN as int, DecodeState::initial());
}

} // verus!
