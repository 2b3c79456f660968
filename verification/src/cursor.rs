//! A read cursor over an owned byte buffer.

use vstd::prelude::*;

verus! {

/// A byte buffer together with the position of the next unread byte.
pub struct Cursor {
    inner: Vec<u8>,
    pos: usize,
}

impl Cursor {
    #[verifier::type_invariant]
    spec fn in_bounds(&self) -> bool {
        self.pos <= self.inner.len()
    }

    /// All bytes of the buffer, read or not.
    pub closed spec fn bytes(&self) -> Seq<u8> {
        self.inner@
    }

    /// How many bytes have been read.
    pub closed spec fn offset(&self) -> nat {
        self.pos as nat
    }

    /// The bytes that have not been read yet.
    pub open spec fn remaining(&self) -> Seq<u8> {
        self.bytes().skip(self.offset() as int)
    }

    /// A cursor at the start of `inner`.
    pub fn new(inner: Vec<u8>) -> (c: Cursor)
        ensures
            c.bytes() == inner@,
            c.offset() == 0,
    {
        Cursor { inner, pos: 0 }
    }

    /// The number of bytes read so far.
    pub fn position(&self) -> (p: usize)
        ensures
            p == self.offset(),
            p <= self.bytes().len(),
    {
        proof {
            use_type_invariant(self);
        }
        self.pos
    }

    /// The number of bytes still unread.
    pub fn remaining_len(&self) -> (n: usize)
        ensures
            n == self.remaining().len(),
    {
        proof {
            use_type_invariant(self);
        }
        self.inner.len() - self.pos
    }

    /// The unread byte `ahead` places after the position, if the buffer reaches that far.
    pub fn peek(&self, ahead: usize) -> (b: Option<u8>)
        ensures
            b == (if ahead < self.remaining().len() {
                Some(self.remaining()[ahead as int])
            } else {
                None
            }),
    {
        proof {
            use_type_invariant(self);
        }
        if ahead < self.inner.len() - self.pos {
            Some(self.inner[self.pos + ahead])
        } else {
            None
        }
    }

    /// Marks the next `amount` bytes as read.
    pub fn consume(&mut self, amount: usize)
        requires
            amount <= old(self).remaining().len(),
        ensures
            final(self).bytes() == old(self).bytes(),
            final(self).offset() == old(self).offset() + amount,
            final(self).remaining() == old(self).remaining().skip(amount as int),
    {
        proof {
            use_type_invariant(&*self);
        }
        self.pos = self.pos + amount;
        assert(self.inner@.skip(self.pos as int) =~= old(self).inner@.skip(
            old(self).pos as int,
        ).skip(amount as int));
    }

    /// Reads the next byte if it is `b`; otherwise leaves the cursor where it is.
    pub fn ignore_byte(&mut self, b: u8) -> (hit: bool)
        ensures
            hit == (old(self).remaining().len() > 0 && old(self).remaining()[0] == b),
            final(self).bytes() == old(self).bytes(),
            final(self).offset() == old(self).offset() + (if hit { 1nat } else { 0nat }),
            final(self).remaining() == (if hit {
                old(self).remaining().skip(1)
            } else {
                old(self).remaining()
            }),
    {
        match self.peek(0) {
            Some(c) => {
                if c == b {
                    self.consume(1);
                    true
                } else {
                    false
                }
            },
            None => false,
        }
    }
}

} // verus!
