//! The fixed-size header that opens every image: a magic tag, the
//! dimensions, the channel count and the colour space.

use crate::encoding::error::DecodeError;
use crate::encoding::source::ByteSource;
use crate::structure::informational::{QOIChannels, QOIColorSpace};
use vstd::prelude::*;

verus! {

/// The number of bytes that a header takes in the stream.
pub const HEADER_LEN: usize = 14;

/// The header of an image, as it stands in the stream.
#[derive(Debug, Eq, PartialEq, Clone)]
pub struct QOIHeader {
    /// The four bytes that identify the format. They are stored as read.
    pub magic: [u8; 4],
    /// The width in pixels; big-endian in the stream.
    pub width: u32,
    /// The height in pixels; big-endian in the stream.
    pub height: u32,
    /// 3 for RGB, 4 for RGBA.
    pub channels: u8,
    /// 0 for sRGB with linear alpha, 1 for all channels linear.
    pub color_space: u8,
}

/// The magic tag of the format, the letters `qoif`.
pub const QOI_MAGIC_STRING: [u8; 4] = [0x71u8, 0x6Fu8, 0x69u8, 0x66u8];

/// The number that four bytes stand for, most significant byte first.
pub open spec fn spec_be_u32(b0: u8, b1: u8, b2: u8, b3: u8) -> u32 {
    (b0 * 0x100_0000 + b1 * 0x1_0000 + b2 * 0x100 + b3) as u32
}

/// The four bytes that stand for a number, most significant byte first.
pub open spec fn spec_be_bytes(value: u32) -> Seq<u8> {
    seq![
        (value / 0x100_0000) as u8,
        ((value / 0x1_0000) % 0x100) as u8,
        ((value / 0x100) % 0x100) as u8,
        (value % 0x100) as u8,
    ]
}

/// Whether a header byte names a channel count.
pub open spec fn channels_known(byte: u8) -> bool {
    QOIChannels::spec_from_u8(byte) != QOIChannels::DEFAULT
}

/// Whether a header byte names a colour space.
pub open spec fn color_space_known(byte: u8) -> bool {
    QOIColorSpace::spec_from_u8(byte) != QOIColorSpace::DEFAULT
}

impl QOIHeader {
    /// The header of an empty RGB image in sRGB.
    pub open spec fn spec_new() -> QOIHeader {
        QOIHeader {
            magic: QOI_MAGIC_STRING,
            width: 0,
            height: 0,
            channels: 3,
            color_space: 0,
        }
    }

    /// Whether both enumerations of the header hold a known value.
    pub open spec fn is_valid(self) -> bool {
        channels_known(self.channels) && color_space_known(self.color_space)
    }

    /// The fourteen bytes that stand for this header in the stream.
    pub open spec fn spec_to_bytes(self) -> Seq<u8> {
        self.magic@ + spec_be_bytes(self.width) + spec_be_bytes(self.height) + seq![
            self.channels,
            self.color_space,
        ]
    }

    /// What parsing a header from the front of `bytes` gives. The fields
    /// are read in order, each read is all or nothing, and each of the two
    /// enumeration bytes is checked as soon as it is read: so the first
    /// thing that is wrong decides the error.
    pub open spec fn spec_parse(bytes: Seq<u8>) -> Result<QOIHeader, DecodeError> {
        if bytes.len() < 13 {
            Err(DecodeError::TruncatedStream)
        } else if !channels_known(bytes[12]) {
            Err(DecodeError::MalformedHeader)
        } else if bytes.len() < 14 {
            Err(DecodeError::TruncatedStream)
        } else if !color_space_known(bytes[13]) {
            Err(DecodeError::MalformedHeader)
        } else {
            Ok(
                QOIHeader {
                    magic: [bytes[0], bytes[1], bytes[2], bytes[3]],
                    width: spec_be_u32(bytes[4], bytes[5], bytes[6], bytes[7]),
                    height: spec_be_u32(bytes[8], bytes[9], bytes[10], bytes[11]),
                    channels: bytes[12],
                    color_space: bytes[13],
                },
            )
        }
    }

    /// How many bytes of `bytes` parsing a header reads: all fourteen where
    /// it succeeds, and else the fields that were read whole before the
    /// failure.
    pub open spec fn spec_parse_len(bytes: Seq<u8>) -> nat {
        if bytes.len() < 4 {
            0
        } else if bytes.len() < 8 {
            4
        } else if bytes.len() < 12 {
            8
        } else if bytes.len() < 13 {
            12
        } else if !channels_known(bytes[12]) || bytes.len() < 14 {
            13
        } else {
            14
        }
    }

    /// The header of an empty RGB image in sRGB.
    pub fn new() -> (header: QOIHeader)
        ensures
            header == QOIHeader::spec_new(),
            header.is_valid(),
    {
        QOIHeader {
            magic: QOI_MAGIC_STRING,
            width: 0,
            height: 0,
            channels: QOIChannels::RGB.into(),
            color_space: QOIColorSpace::SRGB_ALPHA_LINEAR.into(),
        }
    }

    /// Reads a header from `buf` into `self`.
    ///
    /// Succeeds exactly where `buf` holds fourteen bytes of which the
    /// thirteenth names a channel count and the fourteenth a colour space;
    /// `self` is then the header that they stand for, and `buf` has moved
    /// past them. Where it fails, `self` is as it was, and `buf` has moved
    /// past the fields that were read whole.
    pub fn read_buffer(&mut self, buf: &mut ByteSource) -> (result: Result<(), DecodeError>)
        ensures
            match result {
                Ok(_) => QOIHeader::spec_parse(old(buf)@) == Ok::<QOIHeader, DecodeError>(
                    *final(self),
                ),
                Err(e) => QOIHeader::spec_parse(old(buf)@) == Err::<QOIHeader, DecodeError>(e)
                    && *final(self) == *old(self),
            },
            final(buf)@ == old(buf)@.skip(QOIHeader::spec_parse_len(old(buf)@) as int),
    {
        let ghost bytes = buf@;
        let magic = buf.read_exact(4)?;
        let width = buf.read_exact(4)?;
        let height = buf.read_exact(4)?;
        let channels = buf.read_u8()?;
        if QOIChannels::from(channels) == QOIChannels::DEFAULT {
            return Err(DecodeError::MalformedHeader);
        }
        let color_space = buf.read_u8()?;
        if QOIColorSpace::from(color_space) == QOIColorSpace::DEFAULT {
            return Err(DecodeError::MalformedHeader);
        }
        self.magic = [magic[0], magic[1], magic[2], magic[3]];
        self.width = be_u32(width[0], width[1], width[2], width[3]);
        self.height = be_u32(height[0], height[1], height[2], height[3]);
        self.channels = channels;
        self.color_space = color_space;
        Ok(())
    }

    /// The fourteen bytes that stand for this header in the stream.
    pub fn to_bytes(&self) -> (bytes: Vec<u8>)
        ensures
            bytes@ == self.spec_to_bytes(),
    {
        let mut bytes: Vec<u8> = Vec::new();
        bytes.push(self.magic[0]);
        bytes.push(self.magic[1]);
        bytes.push(self.magic[2]);
        bytes.push(self.magic[3]);
        push_be_bytes(&mut bytes, self.width);
        push_be_bytes(&mut bytes, self.height);
        bytes.push(self.channels);
        bytes.push(self.color_space);
        assert(bytes@ =~= self.spec_to_bytes());
        bytes
    }
}

/// The number that four bytes stand for, most significant byte first.
pub fn be_u32(b0: u8, b1: u8, b2: u8, b3: u8) -> (value: u32)
    ensures
        value == spec_be_u32(b0, b1, b2, b3),
{
    (b0 as u32) * 0x100_0000 + (b1 as u32) * 0x1_0000 + (b2 as u32) * 0x100 + (b3 as u32)
}

/// Appends the four bytes that stand for `value`, most significant first.
fn push_be_bytes(bytes: &mut Vec<u8>, value: u32)
    ensures
        final(bytes)@ == old(bytes)@ + spec_be_bytes(value),
{
    bytes.push((value / 0x100_0000) as u8);
    bytes.push(((value / 0x1_0000) % 0x100) as u8);
    bytes.push(((value / 0x100) % 0x100) as u8);
    bytes.push((value % 0x100) as u8);
    assert(bytes@ =~= old(bytes)@ + spec_be_bytes(value));
}

impl Default for QOIHeader {
    /// The header of an empty RGB image in sRGB, as [`QOIHeader::new`].
    fn default() -> (header: QOIHeader)
        ensures
            header == QOIHeader::spec_new(),
    {
        QOIHeader::new()
    }
}

/// Four bytes stand for a number whose four bytes they are.
pub proof fn lemma_be_round_trip(value: u32)
    ensures
        spec_be_bytes(value).len() == 4,
        spec_be_u32(
            spec_be_bytes(value)[0],
            spec_be_bytes(value)[1],
            spec_be_bytes(value)[2],
            spec_be_bytes(value)[3],
        ) == value,
{
}

/// A valid header, written out and parsed again, is the header that was
/// written, and parsing reads all of its fourteen bytes and no more.
pub proof fn lemma_header_round_trip(header: QOIHeader, rest: Seq<u8>)
    requires
        header.is_valid(),
    ensures
        header.spec_to_bytes().len() == HEADER_LEN,
        QOIHeader::spec_parse(header.spec_to_bytes() + rest) == Ok::<QOIHeader, DecodeError>(
            header,
        ),
        QOIHeader::spec_parse_len(header.spec_to_bytes() + rest) == HEADER_LEN,
{
    lemma_be_round_trip(header.width);
    lemma_be_round_trip(header.height);
    let bytes = header.spec_to_bytes() + rest;
    let width = spec_be_bytes(header.width);
    let height = spec_be_bytes(header.height);
    assert(header.magic@.len() == 4);
    assert forall|i: int| 0 <= i < 4 implies bytes[i] == header.magic@[i] && bytes[4 + i]
        == width[i] && bytes[8 + i] == height[i] by {}
    assert(bytes[12] == header.channels && bytes[13] == header.color_space);
    let parsed = QOIHeader::spec_parse(bytes)->Ok_0;
    assert(parsed.magic =~= header.magic);
}

/// Whatever else a stream holds, a thirteenth byte that is neither 3 nor 4
/// makes the header malformed, and so does, after a good thirteenth byte, a
/// fourteenth that is neither 0 nor 1.
pub proof fn lemma_bad_enumeration_is_malformed(bytes: Seq<u8>)
    requires
        bytes.len() >= HEADER_LEN,
        !(bytes[12] == 3 || bytes[12] == 4) || !(bytes[13] == 0 || bytes[13] == 1),
    ensures
        QOIHeader::spec_parse(bytes) == Err::<QOIHeader, DecodeError>(
            DecodeError::MalformedHeader,
        ),
{
}

/// A header parses exactly where its two enumeration bytes are known.
pub proof fn lemma_parse_succeeds_iff(bytes: Seq<u8>)
    requires
        bytes.len() >= HEADER_LEN,
    ensures
        QOIHeader::spec_parse(bytes) is Ok <==> (bytes[12] == 3 || bytes[12] == 4) && (bytes[13]
            == 0 || bytes[13] == 1),
        QOIHeader::spec_parse(bytes) is Ok ==> QOIHeader::spec_parse(bytes)->Ok_0.is_valid(),
{
}

} // verus!
