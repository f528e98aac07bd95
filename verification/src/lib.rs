//! A decoder for the QOI lossless image format.
//!
//! The decoder turns a byte stream (a fixed-size header, a sequence of
//! opcodes, and an end marker) into an ordered sequence of RGBA pixels.
//!
//! What a stream decodes to is stated in [`encoding::stream`], over
//! sequences of bytes and pixels; [`encoding::decoder`] is proved against
//! it with Verus. The one thing taken on trust is the ring buffer of the
//! `arraydeque` crate, behind the wrappers of [`encoding::window`].

pub mod color;
pub mod encoding;
pub mod structure;
