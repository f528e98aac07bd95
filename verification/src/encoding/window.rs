//! The lookahead window: the eight bytes of the stream that the decoder
//! has read but not yet consumed, held in a fixed-capacity ring buffer.

use arraydeque::{ArrayDeque, Wrapping};
use vstd::prelude::*;

verus! {

/// The number of bytes that the window holds once it is primed.
pub const WINDOW_LEN: usize = 8;

/// A ring buffer of capacity eight, as the `arraydeque` crate provides it,
/// with wrapping writes. Verus sees none of its fields: what it holds is
/// known through [`ring_bytes`] alone.
#[verifier::external_body]
pub struct ByteRing {
    deque: ArrayDeque<[u8; 8], Wrapping>,
}

/// The bytes that a ring buffer holds, front first.
pub uninterp spec fn ring_bytes(ring: ByteRing) -> Seq<u8>;

/// `ArrayDeque::new`: the buffer it returns holds nothing.
#[verifier::external_body]
fn ring_new() -> (ring: ByteRing)
    ensures
        ring_bytes(ring) == Seq::<u8>::empty(),
{
    ByteRing { deque: ArrayDeque::new() }
}

/// `ArrayDeque::len`: the number of bytes held.
#[verifier::external_body]
fn ring_len(ring: &ByteRing) -> (len: usize)
    ensures
        len == ring_bytes(*ring).len(),
{
    ring.deque.len()
}

/// `ArrayDeque::get`: the byte at `index` counted from the front, or
/// nothing where the buffer holds no more than `index` bytes.
#[verifier::external_body]
fn ring_get(ring: &ByteRing, index: usize) -> (byte: Option<&u8>)
    ensures
        index < ring_bytes(*ring).len() ==> byte == Some(&ring_bytes(*ring)[index as int]),
        index >= ring_bytes(*ring).len() ==> byte is None,
{
    ring.deque.get(index)
}

/// `ArrayDeque::front`: the front byte, or nothing where the buffer is
/// empty.
#[verifier::external_body]
fn ring_front(ring: &ByteRing) -> (byte: Option<&u8>)
    ensures
        ring_bytes(*ring).len() > 0 ==> byte == Some(&ring_bytes(*ring)[0]),
        ring_bytes(*ring).len() == 0 ==> byte is None,
{
    ring.deque.front()
}

/// `ArrayDeque::push_back` of a wrapping buffer of capacity eight. Below
/// capacity the byte is appended and nothing is returned; at capacity the
/// front byte leaves, the byte is appended, and the byte that left is
/// returned. The call does not panic.
#[verifier::external_body]
fn ring_push_back(ring: &mut ByteRing, byte: u8) -> (evicted: Option<u8>)
    ensures
        ring_bytes(*old(ring)).len() < 8 ==> evicted is None && ring_bytes(*final(ring))
            == ring_bytes(*old(ring)).push(byte),
        ring_bytes(*old(ring)).len() == 8 ==> evicted == Some(ring_bytes(*old(ring))[0])
            && ring_bytes(*final(ring)) == ring_bytes(*old(ring)).skip(1).push(byte),
    no_unwind
{
    ring.deque.push_back(byte)
}

/// `ArrayDeque::clear`: afterwards the buffer holds nothing. The call does
/// not panic.
#[verifier::external_body]
fn ring_clear(ring: &mut ByteRing)
    ensures
        ring_bytes(*final(ring)) == Seq::<u8>::empty(),
    no_unwind
{
    ring.deque.clear()
}

/// The end-of-stream marker: seven zero bytes and a one.
pub const EOF_MARKER: [u8; 8] = [0x00u8, 0x00u8, 0x00u8, 0x00u8, 0x00u8, 0x00u8, 0x00u8, 0x01u8];

/// The end-of-stream marker as a sequence.
pub open spec fn end_marker() -> Seq<u8> {
    EOF_MARKER@
}

/// What a window holds after `bytes` were pushed into it one by one: the
/// last eight of the bytes it held and the new ones, or all of them where
/// they are no more than eight.
pub open spec fn slide(window: Seq<u8>, bytes: Seq<u8>) -> Seq<u8> {
    let all = window + bytes;
    if all.len() <= WINDOW_LEN {
        all
    } else {
        all.skip(all.len() - WINDOW_LEN)
    }
}

/// A sliding window over the stream. It never holds more than eight
/// bytes; a byte pushed into a full window drives the front byte out.
pub struct Window {
    buf: ByteRing,
}

impl View for Window {
    type V = Seq<u8>;

    /// The bytes in the window, oldest first.
    closed spec fn view(&self) -> Seq<u8> {
        ring_bytes(self.buf)
    }
}

impl Window {
    #[verifier::type_invariant]
    spec fn bounded(self) -> bool {
        ring_bytes(self.buf).len() <= WINDOW_LEN
    }

    /// An empty window.
    pub fn new() -> (window: Window)
        ensures
            window@ == Seq::<u8>::empty(),
    {
        Window { buf: ring_new() }
    }

    /// The number of bytes in the window, at most eight.
    pub fn len(&self) -> (len: usize)
        ensures
            len == self@.len(),
            len <= WINDOW_LEN,
    {
        proof {
            use_type_invariant(self);
        }
        ring_len(&self.buf)
    }

    /// Empties the window.
    pub fn clear(&mut self)
        ensures
            final(self)@ == Seq::<u8>::empty(),
    {
        ring_clear(&mut self.buf);
    }

    /// Appends `byte`. A full window first drops its oldest byte, which is
    /// returned.
    pub fn push_back(&mut self, byte: u8) -> (evicted: Option<u8>)
        ensures
            old(self)@.len() < WINDOW_LEN ==> evicted is None && final(self)@ == old(self)@.push(
                byte,
            ),
            old(self)@.len() == WINDOW_LEN ==> evicted == Some(old(self)@[0]) && final(self)@
                == old(self)@.skip(1).push(byte),
            final(self)@.len() <= WINDOW_LEN,
    {
        proof {
            use_type_invariant(&*self);
        }
        ring_push_back(&mut self.buf, byte)
    }

    /// The byte at `index`, counted from the oldest, where the window holds
    /// that many.
    pub fn get(&self, index: usize) -> (byte: Option<u8>)
        ensures
            index < self@.len() ==> byte == Some(self@[index as int]),
            index >= self@.len() ==> byte is None,
    {
        match ring_get(&self.buf, index) {
            Some(v) => Some(*v),
            None => None,
        }
    }

    /// The oldest byte, where the window holds one.
    pub fn front(&self) -> (byte: Option<u8>)
        ensures
            self@.len() > 0 ==> byte == Some(self@[0]),
            self@.len() == 0 ==> byte is None,
    {
        match ring_front(&self.buf) {
            Some(v) => Some(*v),
            None => None,
        }
    }

    /// Appends the bytes of `bytes` in order, each as by
    /// [`Window::push_back`].
    pub fn extend_back(&mut self, bytes: &Vec<u8>)
        ensures
            final(self)@ == slide(old(self)@, bytes@),
    {
        proof {
            use_type_invariant(&*self);
        }
        let mut i: usize = 0;
        while i < bytes.len()
            invariant
                i <= bytes.len(),
                old(self)@.len() <= WINDOW_LEN,
                self@ == slide(old(self)@, bytes@.take(i as int)),
            decreases bytes.len() - i,
        {
            let ghost before = old(self)@ + bytes@.take(i as int);
            assert(before.push(bytes@[i as int]) == old(self)@ + bytes@.take(i + 1));
            self.push_back(bytes[i]);
            i = i + 1;
        }
        assert(bytes@.take(i as int) == bytes@);
    }

    /// Whether the window holds the end-of-stream marker and nothing else.
    pub fn is_end_marker(&self) -> (at_end: bool)
        ensures
            at_end == (self@ == end_marker()),
    {
        if self.len() != WINDOW_LEN {
            return false;
        }
        let mut i: usize = 0;
        while i < WINDOW_LEN
            invariant
                i <= WINDOW_LEN,
                self@.len() == WINDOW_LEN,
                forall|j: int| 0 <= j < i ==> self@[j] == end_marker()[j],
            decreases WINDOW_LEN - i,
        {
            match self.get(i) {
                Some(byte) => {
                    if byte != EOF_MARKER[i] {
                        return false;
                    }
                },
                None => {
                    return false;
                },
            }
            i = i + 1;
        }
        assert(self@ =~= end_marker());
        true
    }
}

} // verus!
