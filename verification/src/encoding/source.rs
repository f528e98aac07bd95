//! The byte source: a forward-only reader over bytes that are already in
//! memory. A read hands out exactly the bytes asked for or fails.

use crate::encoding::error::DecodeError;
use vstd::prelude::*;

verus! {

/// A sequence of bytes and a read position in it. Its view is what is
/// still to be read.
pub struct ByteSource {
    data: Vec<u8>,
    pos: usize,
}

impl View for ByteSource {
    type V = Seq<u8>;

    /// The bytes not yet read, next first.
    closed spec fn view(&self) -> Seq<u8> {
        self.data@.skip(self.pos as int)
    }
}

impl ByteSource {
    #[verifier::type_invariant]
    spec fn in_bounds(self) -> bool {
        self.pos <= self.data.len()
    }

    /// A source that will hand out the bytes of `data`, first to last.
    pub fn new(data: Vec<u8>) -> (source: ByteSource)
        ensures
            source@ == data@,
    {
        ByteSource { data, pos: 0 }
    }

    /// The number of bytes still to be read.
    pub fn remaining(&self) -> (n: usize)
        ensures
            n == self@.len(),
    {
        proof {
            use_type_invariant(self);
        }
        self.data.len() - self.pos
    }

    /// Reads one byte. Fails, and reads nothing, where the source is
    /// exhausted.
    pub fn read_u8(&mut self) -> (result: Result<u8, DecodeError>)
        ensures
            match result {
                Ok(byte) => {
                    &&& old(self)@.len() >= 1
                    &&& byte == old(self)@[0]
                    &&& final(self)@ == old(self)@.skip(1)
                },
                Err(e) => {
                    &&& e == DecodeError::TruncatedStream
                    &&& old(self)@.len() == 0
                    &&& final(self)@ == old(self)@
                },
            },
    {
        proof {
            use_type_invariant(&*self);
        }
        if self.pos < self.data.len() {
            let byte = self.data[self.pos];
            self.pos = self.pos + 1;
            assert(self.data@.skip(self.pos as int) == self.data@.skip(self.pos - 1).skip(1));
            Ok(byte)
        } else {
            Err(DecodeError::TruncatedStream)
        }
    }

    /// Reads exactly `n` bytes. Fails, and reads nothing, where fewer than
    /// `n` are left.
    pub fn read_exact(&mut self, n: usize) -> (result: Result<Vec<u8>, DecodeError>)
        ensures
            match result {
                Ok(bytes) => {
                    &&& n <= old(self)@.len()
                    &&& bytes@ == old(self)@.take(n as int)
                    &&& final(self)@ == old(self)@.skip(n as int)
                },
                Err(e) => {
                    &&& e == DecodeError::TruncatedStream
                    &&& n > old(self)@.len()
                    &&& final(self)@ == old(self)@
                },
            },
    {
        proof {
            use_type_invariant(&*self);
        }
        if n > self.data.len() - self.pos {
            return Err(DecodeError::TruncatedStream);
        }
        let start = self.pos;
        let mut bytes: Vec<u8> = Vec::new();
        let mut i: usize = 0;
        while i < n
            invariant
                i <= n,
                start + n <= self.data.len(),
                bytes@ == self.data@.subrange(start as int, start + i),
            decreases n - i,
        {
            bytes.push(self.data[start + i]);
            i = i + 1;
        }
        self.pos = start + n;
        assert(self.data@.skip(start as int).take(n as int) == self.data@.subrange(
            start as int,
            start + n,
        ));
        assert(self.data@.skip(start as int).skip(n as int) == self.data@.skip(start + n));
        Ok(bytes)
    }
}

} // verus!
