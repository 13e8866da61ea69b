//! Binary frame codec: an ordered byte buffer with an append-only write side
//! and a monotonically consuming read cursor. Every channel-layer frame is
//! built and taken apart through this type.

use vstd::prelude::*;
use vstd::string::StringSliceAdditionalSpecFns;

use crate::wire::{str_block, u32_be, u32_of_be};

verus! {

/// One frame: the bytes written so far, and the cursor of the read side.
/// Reading past the end, or reading fields in another order than they were
/// written, is a contract violation in the caller; each read states what it
/// needs of the cursor.
pub struct Data {
    pub buf: Vec<u8>,
    pub pos: usize,
}

impl View for Data {
    type V = Seq<u8>;

    open spec fn view(&self) -> Seq<u8> {
        self.buf@
    }
}

impl Data {
    /// An empty frame with the cursor at the start.
    pub fn new() -> (r: Data)
        ensures
            r@ == Seq::<u8>::empty(),
            r.pos == 0,
    {
        Data { buf: Vec::new(), pos: 0 }
    }

    /// Whether no byte has been written.
    pub fn is_empty(&self) -> (r: bool)
        ensures
            r == (self@.len() == 0),
    {
        self.buf.len() == 0
    }

    /// The number of bytes written.
    pub fn len(&self) -> (r: usize)
        ensures
            r == self@.len(),
    {
        self.buf.len()
    }

    /// Appends one byte.
    pub fn put_u8(&mut self, v: u8)
        ensures
            final(self)@ == old(self)@.push(v),
            final(self).pos == old(self).pos,
    {
        self.buf.push(v);
    }

    /// Appends a 32-bit integer as four big-endian bytes.
    pub fn put_u32(&mut self, v: u32)
        ensures
            final(self)@ == old(self)@ + u32_be(v),
            final(self).pos == old(self).pos,
    {
        self.buf.push((v >> 24) as u8);
        self.buf.push((v >> 16) as u8);
        self.buf.push((v >> 8) as u8);
        self.buf.push(v as u8);
        proof {
            assert(self.buf@ =~= old(self)@ + u32_be(v));
        }
    }

    /// Appends a raw byte run, with no length prefix.
    pub fn put_u8s(&mut self, bytes: &[u8])
        ensures
            final(self)@ == old(self)@ + bytes@,
            final(self).pos == old(self).pos,
    {
        let mut i: usize = 0;
        while i < bytes.len()
            invariant
                i <= bytes@.len(),
                self.buf@ == old(self)@ + bytes@.take(i as int),
                self.pos == old(self).pos,
            decreases bytes@.len() - i,
        {
            let b = bytes[i];
            self.buf.push(b);
            proof {
                assert(bytes@.take(i + 1) =~= bytes@.take(i as int).push(bytes@[i as int]));
            }
            i = i + 1;
        }
        proof {
            assert(bytes@.take(bytes@.len() as int) =~= bytes@);
        }
    }

    /// Appends a length-prefixed string: its byte length as a 32-bit
    /// big-endian integer, then its bytes.
    pub fn put_str(&mut self, s: &str)
        requires
            s.spec_bytes().len() <= u32::MAX,
        ensures
            final(self)@ == old(self)@ + str_block(s.spec_bytes()),
            final(self).pos == old(self).pos,
    {
        let bytes: &[u8] = s.as_bytes();
        let n: usize = bytes.len();
        self.put_u32(n as u32);
        self.put_u8s(bytes);
        proof {
            assert(self.buf@ =~= old(self)@ + str_block(s.spec_bytes()));
        }
    }

    /// Reads the next byte and advances the cursor.
    pub fn get_u8(&mut self) -> (r: u8)
        requires
            old(self).pos < old(self)@.len(),
        ensures
            r == old(self)@[old(self).pos as int],
            final(self)@ == old(self)@,
            final(self).pos == old(self).pos + 1,
    {
        let _bound: usize = self.buf.len();
        let b = self.buf[self.pos];
        self.pos = self.pos + 1;
        b
    }

    /// Reads the next four bytes as a big-endian 32-bit integer and advances
    /// the cursor.
    pub fn get_u32(&mut self) -> (r: u32)
        requires
            old(self).pos + 4 <= old(self)@.len(),
        ensures
            r == u32_of_be(
                old(self)@[old(self).pos as int],
                old(self)@[old(self).pos + 1],
                old(self)@[old(self).pos + 2],
                old(self)@[old(self).pos + 3],
            ),
            final(self)@ == old(self)@,
            final(self).pos == old(self).pos + 4,
    {
        let _bound: usize = self.buf.len();
        let b0 = self.buf[self.pos];
        let b1 = self.buf[self.pos + 1];
        let b2 = self.buf[self.pos + 2];
        let b3 = self.buf[self.pos + 3];
        self.pos = self.pos + 4;
        ((b0 as u32) << 24) | ((b1 as u32) << 16) | ((b2 as u32) << 8) | (b3 as u32)
    }

    /// Reads the raw byte run from the cursor to the end of the frame,
    /// leaving the cursor at the end.
    pub fn get_u8s(&mut self) -> (r: Vec<u8>)
        requires
            old(self).pos <= old(self)@.len(),
        ensures
            r@ == old(self)@.skip(old(self).pos as int),
            final(self)@ == old(self)@,
            final(self).pos == old(self)@.len(),
    {
        let mut r: Vec<u8> = Vec::new();
        while self.pos < self.buf.len()
            invariant
                old(self).pos <= self.pos <= self.buf@.len(),
                self.buf@ == old(self)@,
                r@ == old(self)@.subrange(old(self).pos as int, self.pos as int),
            decreases self.buf@.len() - self.pos,
        {
            let b = self.buf[self.pos];
            r.push(b);
            proof {
                assert(old(self)@.subrange(old(self).pos as int, self.pos + 1) =~= old(self)@.subrange(old(self).pos as int, self.pos as int).push(
                    old(self)@[self.pos as int],
                ));
            }
            self.pos = self.pos + 1;
        }
        proof {
            assert(old(self)@.skip(old(self).pos as int) =~= old(self)@.subrange(
                old(self).pos as int,
                self.pos as int,
            ));
        }
        r
    }
}

} // verus!
