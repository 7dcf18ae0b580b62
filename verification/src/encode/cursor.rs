use vstd::prelude::*;

verus! {

/// A read position over a borrowed byte buffer.
///
/// Decoders consume bytes from the current position onwards. A decoder that
/// fails leaves the position where the field it could not read begins, so the
/// position after an error tells how far decoding went.
pub struct Cursor<'a> {
    data: &'a Vec<u8>,
    pos: usize,
}

impl<'a> Cursor<'a> {
    #[verifier::type_invariant]
    closed spec fn inv(self) -> bool {
        self.pos <= self.data.len()
    }

    /// The bytes the cursor reads from.
    pub closed spec fn data(&self) -> Seq<u8> {
        self.data@
    }

    /// The current read position.
    pub closed spec fn pos(&self) -> int {
        self.pos as int
    }

    /// A cursor at the start of `data`.
    pub fn new(data: &'a Vec<u8>) -> (c: Cursor<'a>)
        ensures
            c.data() == data@,
            c.pos() == 0,
    {
        Cursor { data, pos: 0 }
    }

    /// The current read position.
    pub fn position(&self) -> (p: u64)
        ensures
            p == self.pos(),
            p <= self.data().len(),
    {
        proof {
            use_type_invariant(self);
        }
        self.pos as u64
    }

    /// The current read position, as an index into the buffer.
    pub fn offset(&self) -> (p: usize)
        ensures
            p == self.pos(),
            p <= self.data().len(),
    {
        proof {
            use_type_invariant(self);
        }
        self.pos
    }

    /// Moves the read position; positions past the end are not accepted.
    pub fn set_position(&mut self, p: u64)
        requires
            p <= old(self).data().len(),
        ensures
            final(self).data() == old(self).data(),
            final(self).pos() == p,
    {
        self.pos = p as usize;
    }

    /// The buffer the cursor reads from.
    pub fn get_ref(&self) -> (d: &'a Vec<u8>)
        ensures
            d@ == self.data(),
    {
        self.data
    }

    /// The number of bytes between the position and the end of the buffer.
    pub fn remaining(&self) -> (n: usize)
        ensures
            n == self.data().len() - self.pos(),
            0 <= self.pos() <= self.data().len(),
    {
        proof {
            use_type_invariant(self);
        }
        self.data.len() - self.pos
    }

    /// The byte at `offset` past the position; does not move the cursor.
    pub fn peek(&self, offset: usize) -> (b: u8)
        requires
            self.pos() + offset < self.data().len(),
        ensures
            b == self.data()[self.pos() + offset],
    {
        let len = self.data.len();
        self.data[self.pos + offset]
    }

    /// Moves the position `n` bytes forward.
    pub fn advance(&mut self, n: usize)
        requires
            old(self).pos() + n <= old(self).data().len(),
        ensures
            final(self).data() == old(self).data(),
            final(self).pos() == old(self).pos() + n,
    {
        let len = self.data.len();
        self.pos = self.pos + n;
    }

    /// Copies the next `n` bytes out of the buffer and moves past them.
    pub fn take(&mut self, n: usize) -> (v: Vec<u8>)
        requires
            old(self).pos() + n <= old(self).data().len(),
        ensures
            final(self).data() == old(self).data(),
            final(self).pos() == old(self).pos() + n,
            v@ == old(self).data().subrange(old(self).pos(), old(self).pos() + n),
    {
        let len = self.data.len();
        let mut v: Vec<u8> = Vec::with_capacity(n);
        let start = self.pos;
        let mut i: usize = 0;
        while i < n
            invariant
                i <= n,
                start + n <= self.data@.len(),
                len == self.data@.len(),
                v@ == self.data@.subrange(start as int, start + i),
            decreases n - i,
        {
            v.push(self.data[start + i]);
            i = i + 1;
            assert(v@ =~= self.data@.subrange(start as int, start + i));
        }
        self.pos = start + n;
        v
    }
}

} // verus!
