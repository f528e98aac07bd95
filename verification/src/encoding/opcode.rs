//! The rules by which the difference opcodes rebuild a pixel from the one
//! before it. Differences are stored with a bias and applied modulo 256.

use crate::color::color::RGBA;
use crate::structure::tag::Tag;
use vstd::prelude::*;

verus! {

/// The value of a channel after a signed difference was added to it,
/// modulo 256.
pub open spec fn wrap_channel(value: int) -> u8 {
    (value % 256) as u8
}

/// The red difference of a small-delta tag, between -2 and 1.
pub open spec fn small_delta_red(tag: u8) -> int {
    (tag / 16) % 4 - 2
}

/// The green difference of a small-delta tag, between -2 and 1.
pub open spec fn small_delta_green(tag: u8) -> int {
    (tag / 4) % 4 - 2
}

/// The blue difference of a small-delta tag, between -2 and 1.
pub open spec fn small_delta_blue(tag: u8) -> int {
    tag % 4 - 2
}

/// The pixel that a small-delta opcode yields after `prev`: each colour
/// channel moves by its difference, alpha stays.
pub open spec fn spec_small_delta(prev: RGBA, tag: u8) -> RGBA {
    RGBA {
        r: wrap_channel(prev.r + small_delta_red(tag)),
        g: wrap_channel(prev.g + small_delta_green(tag)),
        b: wrap_channel(prev.b + small_delta_blue(tag)),
        a: prev.a,
    }
}

/// The green difference of a luma-delta tag, between -32 and 31.
pub open spec fn luma_green(tag: u8) -> int {
    tag % 64 - 32
}

/// What the high nibble of a luma-delta opcode's second byte holds: the
/// red difference less the green one, between -8 and 7.
pub open spec fn luma_red_offset(second: u8) -> int {
    second / 16 - 8
}

/// What the low nibble of a luma-delta opcode's second byte holds: the
/// blue difference less the green one, between -8 and 7.
pub open spec fn luma_blue_offset(second: u8) -> int {
    second % 16 - 8
}

/// The pixel that a luma-delta opcode yields after `prev`: green moves by
/// the green difference, red and blue by their offsets plus the green
/// difference, alpha stays.
pub open spec fn spec_luma_delta(prev: RGBA, tag: u8, second: u8) -> RGBA {
    RGBA {
        r: wrap_channel(prev.r + luma_red_offset(second) + luma_green(tag)),
        g: wrap_channel(prev.g + luma_green(tag)),
        b: wrap_channel(prev.b + luma_blue_offset(second) + luma_green(tag)),
        a: prev.a,
    }
}

/// The number of pixels that a run opcode stands for: its payload plus
/// one.
pub open spec fn spec_run_length(tag: u8) -> nat {
    (tag % 64 + 1) as nat
}

/// `channel` moved by the difference that `field` holds with a bias of
/// `bias`, modulo 256.
fn apply_biased(channel: u8, field: u8, bias: u8) -> (moved: u8)
    ensures
        moved == wrap_channel(channel + field - bias),
{
    channel.wrapping_add(field).wrapping_sub(bias)
}

/// Wrapping a sum once is the same as wrapping after each addition.
proof fn lemma_wrap_absorbs(value: int, more: int)
    ensures
        wrap_channel(wrap_channel(value) + more) == wrap_channel(value + more),
{
    assert((value % 256 + more) % 256 == (value + more) % 256);
}

/// The pixel that the small-delta opcode `tag` yields after `prev`.
pub fn small_delta(prev: RGBA, tag: u8) -> (pixel: RGBA)
    ensures
        pixel == spec_small_delta(prev, tag),
{
    assert((tag >> 4) & 0x03 == (tag / 16) % 4) by (bit_vector);
    assert((tag >> 2) & 0x03 == (tag / 4) % 4) by (bit_vector);
    assert(tag & 0x03 == tag % 4) by (bit_vector);
    let red = (tag >> 4) & 0x03;
    let green = (tag >> 2) & 0x03;
    let blue = tag & 0x03;
    RGBA {
        r: apply_biased(prev.r, red, 2),
        g: apply_biased(prev.g, green, 2),
        b: apply_biased(prev.b, blue, 2),
        a: prev.a,
    }
}

/// The pixel that the luma-delta opcode `tag`, with the byte `second`
/// after it, yields after `prev`.
pub fn luma_delta(prev: RGBA, tag: u8, second: u8) -> (pixel: RGBA)
    ensures
        pixel == spec_luma_delta(prev, tag, second),
{
    assert(second >> 4 == second / 16) by (bit_vector);
    assert(second & 0x0F == second % 16) by (bit_vector);
    let green = Tag::payload(tag);
    let red = second >> 4;
    let blue = second & 0x0F;
    let g = apply_biased(prev.g, green, 32);
    let r = apply_biased(apply_biased(prev.r, red, 8), green, 32);
    let b = apply_biased(apply_biased(prev.b, blue, 8), green, 32);
    proof {
        lemma_wrap_absorbs(prev.r + red - 8, green - 32);
        lemma_wrap_absorbs(prev.b + blue - 8, green - 32);
    }
    RGBA { r, g, b, a: prev.a }
}

/// The number of pixels that the run opcode `tag` stands for.
pub fn run_length(tag: u8) -> (count: usize)
    ensures
        count == spec_run_length(tag),
        1 <= count <= 64,
{
    Tag::payload(tag) as usize + 1
}

/// A small delta moves each colour channel by at most two steps down or
/// one step up, around the ends of the range, and leaves alpha alone.
pub proof fn lemma_small_delta_wraps(prev: RGBA, tag: u8)
    ensures
        -2 <= small_delta_red(tag) <= 1,
        -2 <= small_delta_green(tag) <= 1,
        -2 <= small_delta_blue(tag) <= 1,
        (spec_small_delta(prev, tag).r - prev.r - small_delta_red(tag)) % 256 == 0,
        (spec_small_delta(prev, tag).g - prev.g - small_delta_green(tag)) % 256 == 0,
        (spec_small_delta(prev, tag).b - prev.b - small_delta_blue(tag)) % 256 == 0,
        spec_small_delta(prev, tag).a == prev.a,
{
}

/// A luma delta moves green by between -32 and 31, red and blue by that
/// and a further -8 to 7, modulo 256, and leaves alpha alone.
pub proof fn lemma_luma_delta_wraps(prev: RGBA, tag: u8, second: u8)
    ensures
        -32 <= luma_green(tag) <= 31,
        -8 <= luma_red_offset(second) <= 7,
        -8 <= luma_blue_offset(second) <= 7,
        (spec_luma_delta(prev, tag, second).g - prev.g - luma_green(tag)) % 256 == 0,
        (spec_luma_delta(prev, tag, second).r - prev.r - luma_red_offset(second) - luma_green(tag))
            % 256 == 0,
        (spec_luma_delta(prev, tag, second).b - prev.b - luma_blue_offset(second) - luma_green(
            tag,
        )) % 256 == 0,
        spec_luma_delta(prev, tag, second).a == prev.a,
{
}

/// A run opcode stands for between 1 and 62 pixels.
pub proof fn lemma_run_length_bound(tag: u8)
    requires
        Tag::spec_classify(tag) == Tag::Run,
    ensures
        1 <= spec_run_length(tag) <= 62,
{
}

} // verus!
