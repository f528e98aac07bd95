//! The pixel cache: 64 slots, each empty or holding the pixel that was
//! last stored under the slot's hash.

use crate::color::color::RGBA;
use crate::encoding::common::{hash_rgba, spec_hash_rgba, CACHE_SLOTS};
use crate::encoding::error::DecodeError;
use vstd::prelude::*;

verus! {

/// A direct-mapped table of recently seen pixels. Its view is the
/// sequence of its 64 slots.
pub struct PixelCache {
    slots: [Option<RGBA>; 64],
}

/// The cache in which every slot is empty.
pub open spec fn empty_cache() -> Seq<Option<RGBA>> {
    Seq::new(CACHE_SLOTS as nat, |i: int| None::<RGBA>)
}

/// The cache after `pixel` was stored: the slot of its hash holds it,
/// whatever the slot held before; the other slots are as they were.
pub open spec fn cache_insert(cache: Seq<Option<RGBA>>, pixel: RGBA) -> Seq<Option<RGBA>> {
    cache.update(spec_hash_rgba(pixel), Some(pixel))
}

impl View for PixelCache {
    type V = Seq<Option<RGBA>>;

    closed spec fn view(&self) -> Seq<Option<RGBA>> {
        self.slots@
    }
}

impl PixelCache {
    /// A cache has 64 slots.
    pub proof fn lemma_len(&self)
        ensures
            self@.len() == CACHE_SLOTS,
    {
    }

    /// A cache with every slot empty.
    pub fn new() -> (cache: PixelCache)
        ensures
            cache@ == empty_cache(),
    {
        let cache = PixelCache { slots: [None;64] };
        assert(cache@ =~= empty_cache());
        cache
    }

    /// Stores `pixel` in the slot of its hash, over whatever is there.
    pub fn insert(&mut self, pixel: RGBA)
        ensures
            final(self)@ == cache_insert(old(self)@, pixel),
    {
        let slot = hash_rgba(pixel) as usize;
        self.slots[slot] = Some(pixel);
    }

    /// The pixel in slot `index`. Fails where the slot is empty, and where
    /// `index` is no slot at all.
    pub fn lookup(&self, index: u8) -> (result: Result<RGBA, DecodeError>)
        ensures
            match result {
                Ok(pixel) => index < CACHE_SLOTS && self@[index as int] == Some(pixel),
                Err(e) => e == DecodeError::InvalidCacheReference && (index >= CACHE_SLOTS
                    || self@[index as int] is None),
            },
    {
        if (index as usize) < CACHE_SLOTS {
            match self.slots[index as usize] {
                Some(pixel) => Ok(pixel),
                None => Err(DecodeError::InvalidCacheReference),
            }
        } else {
            Err(DecodeError::InvalidCacheReference)
        }
    }
}

/// A pixel that was stored is found in the slot of its hash, until
/// another pixel is stored there.
pub proof fn lemma_insert_then_lookup(cache: Seq<Option<RGBA>>, pixel: RGBA)
    requires
        cache.len() == CACHE_SLOTS,
    ensures
        cache_insert(cache, pixel).len() == CACHE_SLOTS,
        cache_insert(cache, pixel)[spec_hash_rgba(pixel)] == Some(pixel),
        forall|i: int|
            0 <= i < CACHE_SLOTS && i != spec_hash_rgba(pixel) ==> cache_insert(cache, pixel)[i]
                == cache[i],
{
}

/// No slot of a new cache holds a pixel.
pub proof fn lemma_empty_cache_misses(index: int)
    requires
        0 <= index < CACHE_SLOTS,
    ensures
        empty_cache().len() == CACHE_SLOTS,
        empty_cache()[index] is None,
{
}

} // verus!
