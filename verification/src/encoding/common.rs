//! The hash that maps a pixel to its cache slot.

use crate::color::color::RGBA;
use vstd::prelude::*;

verus! {

/// The number of slots in the pixel cache.
pub const CACHE_SLOTS: usize = 64;

/// The slot of a pixel: a weighted sum of its channels, modulo the number
/// of slots.
pub open spec fn spec_hash(r: u8, g: u8, b: u8, a: u8) -> int {
    (r * 3 + g * 5 + b * 7 + a * 11) % 64
}

/// The slot of `rgba`.
pub open spec fn spec_hash_rgba(rgba: RGBA) -> int {
    spec_hash(rgba.r, rgba.g, rgba.b, rgba.a)
}

/// The cache slot of the pixel with the given channels. The sum is taken
/// without overflow, so the result depends on the four bytes alone and is
/// always the index of a slot.
#[inline]
pub fn hash(r: u8, g: u8, b: u8, a: u8) -> (slot: u8)
    ensures
        slot == spec_hash(r, g, b, a),
        slot < CACHE_SLOTS,
{
    let sum: u32 = (r as u32) * 3 + (g as u32) * 5 + (b as u32) * 7 + (a as u32) * 11;
    (sum % 64) as u8
}

/// The cache slot of `rgba`.
pub fn hash_rgba(rgba: RGBA) -> (slot: u8)
    ensures
        slot == spec_hash_rgba(rgba),
        slot < CACHE_SLOTS,
{
    hash(rgba.r, rgba.g, rgba.b, rgba.a)
}

/// Every pixel has a slot, and the slot lies in the cache.
pub proof fn lemma_hash_in_range(r: u8, g: u8, b: u8, a: u8)
    ensures
        0 <= spec_hash(r, g, b, a) < CACHE_SLOTS,
{
}

} // verus!
