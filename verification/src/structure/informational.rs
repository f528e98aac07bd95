//! The two enumerations of the header: channel count and colour space.

use vstd::prelude::*;
use vstd::std_specs::convert::FromSpecImpl;

verus! {

/// How many channels the image was stored with.
#[derive(Debug, Eq, PartialEq, Structural, Clone, Copy)]
pub enum QOIChannels {
    /// Any byte that names no channel count.
    DEFAULT,
    /// Three channels: red, green, blue.
    RGB,
    /// Four channels: red, green, blue, alpha.
    RGBA,
}

/// The colour space that the image's channels are in.
#[derive(Debug, Eq, PartialEq, Structural, Clone, Copy)]
pub enum QOIColorSpace {
    /// Any byte that names no colour space.
    DEFAULT,
    /// sRGB colour with linear alpha.
    #[allow(non_camel_case_types)]
    SRGB_ALPHA_LINEAR,
    /// All channels linear.
    #[allow(non_camel_case_types)]
    ALL_LINEAR,
}

impl QOIChannels {
    /// The variant that a header byte names.
    pub open spec fn spec_from_u8(val: u8) -> QOIChannels {
        if val == 3 {
            QOIChannels::RGB
        } else if val == 4 {
            QOIChannels::RGBA
        } else {
            QOIChannels::DEFAULT
        }
    }

    /// The byte that stands for a variant; 0 stands for `DEFAULT`.
    pub open spec fn spec_to_u8(self) -> u8 {
        match self {
            QOIChannels::RGB => 3,
            QOIChannels::RGBA => 4,
            QOIChannels::DEFAULT => 0,
        }
    }
}

impl QOIColorSpace {
    /// The variant that a header byte names.
    pub open spec fn spec_from_u8(val: u8) -> QOIColorSpace {
        if val == 0 {
            QOIColorSpace::SRGB_ALPHA_LINEAR
        } else if val == 1 {
            QOIColorSpace::ALL_LINEAR
        } else {
            QOIColorSpace::DEFAULT
        }
    }

    /// The byte that stands for a variant; 2 stands for `DEFAULT`.
    pub open spec fn spec_to_u8(self) -> u8 {
        match self {
            QOIColorSpace::SRGB_ALPHA_LINEAR => 0,
            QOIColorSpace::ALL_LINEAR => 1,
            QOIColorSpace::DEFAULT => 2,
        }
    }
}

impl From<u8> for QOIChannels {
    #[inline]
    fn from(val: u8) -> (channels: QOIChannels) {
        match val {
            3u8 => QOIChannels::RGB,
            4u8 => QOIChannels::RGBA,
            _ => QOIChannels::DEFAULT,
        }
    }
}

impl FromSpecImpl<u8> for QOIChannels {
    open spec fn obeys_from_spec() -> bool {
        true
    }

    open spec fn from_spec(val: u8) -> QOIChannels {
        QOIChannels::spec_from_u8(val)
    }
}

impl From<QOIChannels> for u8 {
    #[inline]
    fn from(channels: QOIChannels) -> (val: u8) {
        match channels {
            QOIChannels::RGB => 3u8,
            QOIChannels::RGBA => 4u8,
            QOIChannels::DEFAULT => 0u8,
        }
    }
}

impl FromSpecImpl<QOIChannels> for u8 {
    open spec fn obeys_from_spec() -> bool {
        true
    }

    open spec fn from_spec(channels: QOIChannels) -> u8 {
        channels.spec_to_u8()
    }
}

impl From<u8> for QOIColorSpace {
    #[inline]
    fn from(val: u8) -> (space: QOIColorSpace) {
        match val {
            0u8 => QOIColorSpace::SRGB_ALPHA_LINEAR,
            1u8 => QOIColorSpace::ALL_LINEAR,
            _ => QOIColorSpace::DEFAULT,
        }
    }
}

impl FromSpecImpl<u8> for QOIColorSpace {
    open spec fn obeys_from_spec() -> bool {
        true
    }

    open spec fn from_spec(val: u8) -> QOIColorSpace {
        QOIColorSpace::spec_from_u8(val)
    }
}

impl From<QOIColorSpace> for u8 {
    #[inline]
    fn from(space: QOIColorSpace) -> (val: u8) {
        match space {
            QOIColorSpace::SRGB_ALPHA_LINEAR => 0u8,
            QOIColorSpace::ALL_LINEAR => 1u8,
            QOIColorSpace::DEFAULT => 2u8,
        }
    }
}

impl FromSpecImpl<QOIColorSpace> for u8 {
    open spec fn obeys_from_spec() -> bool {
        true
    }

    open spec fn from_spec(space: QOIColorSpace) -> u8 {
        space.spec_to_u8()
    }
}

/// A byte names a channel count exactly when it is 3 or 4, and a named
/// variant stands for the byte that named it.
pub proof fn lemma_channels_round_trip(val: u8)
    ensures
        QOIChannels::spec_from_u8(val) != QOIChannels::DEFAULT <==> (val == 3 || val == 4),
        QOIChannels::spec_from_u8(val) != QOIChannels::DEFAULT ==> QOIChannels::spec_from_u8(
            val,
        ).spec_to_u8() == val,
{
}

/// A byte names a colour space exactly when it is 0 or 1, and a named
/// variant stands for the byte that named it.
pub proof fn lemma_color_space_round_trip(val: u8)
    ensures
        QOIColorSpace::spec_from_u8(val) != QOIColorSpace::DEFAULT <==> (val == 0 || val == 1),
        QOIColorSpace::spec_from_u8(val) != QOIColorSpace::DEFAULT ==> QOIColorSpace::spec_from_u8(
            val,
        ).spec_to_u8() == val,
{
}

} // verus!
