//! The tag byte that opens every record of the pixel stream, and the six
//! opcode classes that it falls into.

use vstd::prelude::*;

verus! {

/// The class of an opcode.
#[derive(Debug, Eq, PartialEq, Structural, Clone, Copy)]
pub enum Tag {
    /// `11111110`: three bytes follow, red, green and blue.
    LiteralRGB,
    /// `11111111`: four bytes follow, red, green, blue and alpha.
    LiteralRGBA,
    /// `00xxxxxx`: the low six bits name a cache slot.
    CachedIndex,
    /// `01xxxxxx`: the low six bits hold three two-bit differences.
    SmallDelta,
    /// `10xxxxxx`: the low six bits hold the green difference; one byte
    /// follows with the red and blue differences relative to it.
    LumaDelta,
    /// `11xxxxxx`: the low six bits hold a repeat count, less one.
    Run,
}

/// The tag byte of a literal RGB record.
pub const TAG_RGB: u8 = 0xFE;

/// The tag byte of a literal RGBA record.
pub const TAG_RGBA: u8 = 0xFF;

/// The two bits of a tag byte that tell the four masked classes apart.
pub const TAG_2BIT_MASK: u8 = 0xC0;

/// The six bits of a tag byte that carry its payload.
pub const TAG_PAYLOAD_MASK: u8 = 0x3F;

impl Tag {
    /// The class of a tag byte. The two literal tags are exact byte values
    /// and are tested first; every other byte is classified by its top two
    /// bits, that is by its quotient by 64.
    pub open spec fn spec_classify(byte: u8) -> Tag {
        if byte == 254 {
            Tag::LiteralRGB
        } else if byte == 255 {
            Tag::LiteralRGBA
        } else if byte / 64 == 0 {
            Tag::CachedIndex
        } else if byte / 64 == 1 {
            Tag::SmallDelta
        } else if byte / 64 == 2 {
            Tag::LumaDelta
        } else {
            Tag::Run
        }
    }

    /// The low six bits of a tag byte.
    pub open spec fn spec_payload(byte: u8) -> u8 {
        byte % 64
    }

    /// The bit pattern of a class: for a literal tag the whole byte, for
    /// the others the top two bits with a payload of zero.
    pub open spec fn spec_signature(self) -> u8 {
        match self {
            Tag::LiteralRGB => 0xFE,
            Tag::LiteralRGBA => 0xFF,
            Tag::CachedIndex => 0x00,
            Tag::SmallDelta => 0x40,
            Tag::LumaDelta => 0x80,
            Tag::Run => 0xC0,
        }
    }

    /// The number of bytes that follow a tag of this class in the stream.
    pub open spec fn spec_operand_len(self) -> nat {
        match self {
            Tag::LiteralRGB => 3,
            Tag::LiteralRGBA => 4,
            Tag::LumaDelta => 1,
            Tag::CachedIndex | Tag::SmallDelta | Tag::Run => 0,
        }
    }

    /// The class of `byte`. Every byte has exactly one.
    pub fn classify(byte: u8) -> (tag: Tag)
        ensures
            tag == Tag::spec_classify(byte),
    {
        assert(byte & 0xC0 == 0x00 <==> byte / 64 == 0) by (bit_vector);
        assert(byte & 0xC0 == 0x40 <==> byte / 64 == 1) by (bit_vector);
        assert(byte & 0xC0 == 0x80 <==> byte / 64 == 2) by (bit_vector);
        if byte == TAG_RGB {
            Tag::LiteralRGB
        } else if byte == TAG_RGBA {
            Tag::LiteralRGBA
        } else {
            let class = byte & TAG_2BIT_MASK;
            if class == 0x00 {
                Tag::CachedIndex
            } else if class == 0x40 {
                Tag::SmallDelta
            } else if class == 0x80 {
                Tag::LumaDelta
            } else {
                Tag::Run
            }
        }
    }

    /// The low six bits of `byte`.
    pub fn payload(byte: u8) -> (bits: u8)
        ensures
            bits == Tag::spec_payload(byte),
            bits < 64,
    {
        assert(byte & 0x3F == byte % 64) by (bit_vector);
        byte & TAG_PAYLOAD_MASK
    }

    /// The bit pattern of this class.
    pub fn signature(self) -> (byte: u8)
        ensures
            byte == self.spec_signature(),
    {
        match self {
            Tag::LiteralRGB => TAG_RGB,
            Tag::LiteralRGBA => TAG_RGBA,
            Tag::CachedIndex => 0x00,
            Tag::SmallDelta => 0x40,
            Tag::LumaDelta => 0x80,
            Tag::Run => 0xC0,
        }
    }

}

/// The bit pattern of a class is a tag byte of that class.
pub proof fn lemma_signature_classifies(tag: Tag)
    ensures
        Tag::spec_classify(tag.spec_signature()) == tag,
{
}

/// A byte of a masked class is the class's bit pattern plus its payload,
/// and a byte of a literal class is the class's bit pattern itself.
pub proof fn lemma_classify_splits(byte: u8)
    ensures
        byte != 254 && byte != 255 ==> byte == Tag::spec_classify(byte).spec_signature()
            + Tag::spec_payload(byte),
        byte == 254 || byte == 255 ==> byte == Tag::spec_classify(byte).spec_signature(),
{
}

/// The payload of a run tag is at most 61: the two largest payloads
/// belong to the literal tags.
pub proof fn lemma_run_payload_bound(byte: u8)
    requires
        Tag::spec_classify(byte) == Tag::Run,
    ensures
        Tag::spec_payload(byte) <= 61,
{
}

} // verus!
