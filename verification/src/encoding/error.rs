//! The ways in which decoding fails.

use vstd::prelude::*;

verus! {

/// Why a stream could not be decoded. Every error ends the decode; the
/// pixels produced before it are discarded.
#[derive(Debug, Eq, PartialEq, Structural, Clone, Copy)]
pub enum DecodeError {
    /// The channel-count byte or the colour-space byte of the header holds
    /// a value that names no variant.
    MalformedHeader,
    /// The source ran out before the bytes that a read asked for were there.
    TruncatedStream,
    /// A cached-index opcode names a slot that holds no pixel.
    InvalidCacheReference,
    /// A tag byte that belongs to no opcode class. The classifier is total,
    /// so no decode returns this.
    UnknownOpcode,
}

} // verus!
