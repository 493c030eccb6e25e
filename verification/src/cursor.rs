//! A read cursor over one owned chunk of bytes.

use vstd::prelude::*;
use vstd::slice::slice_subrange;

verus! {

/// The mathematical content of a [`ChunkCursor`]: the chunk and how much of
/// it has been read.
pub struct CursorView {
    pub chunk: Seq<u8>,
    pub offset: nat,
}

impl CursorView {
    /// The read offset lies inside the chunk or at its end.
    pub open spec fn wf(self) -> bool {
        self.offset <= self.chunk.len()
    }

    /// The unread suffix of the chunk.
    pub open spec fn remaining(self) -> Seq<u8> {
        self.chunk.skip(self.offset as int)
    }

    /// Every byte of the chunk has been read.
    pub open spec fn drained(self) -> bool {
        self.offset == self.chunk.len()
    }
}

/// An owned chunk together with a read offset that only moves forward.
pub struct ChunkCursor {
    chunk: Vec<u8>,
    offset: usize,
}

impl View for ChunkCursor {
    type V = CursorView;

    closed spec fn view(&self) -> CursorView {
        CursorView { chunk: self.chunk@, offset: self.offset as nat }
    }
}

impl ChunkCursor {
    #[verifier::type_invariant]
    spec fn inv(&self) -> bool {
        self.offset <= self.chunk@.len()
    }

    /// A cursor at the start of `chunk`.
    pub fn new(chunk: Vec<u8>) -> (cursor: ChunkCursor)
        ensures
            cursor@ == (CursorView { chunk: chunk@, offset: 0 }),
    {
        ChunkCursor { chunk, offset: 0 }
    }

    /// A cursor over the empty chunk, which is drained from the start.
    pub fn empty() -> (cursor: ChunkCursor)
        ensures
            cursor@ == (CursorView { chunk: Seq::<u8>::empty(), offset: 0 }),
    {
        ChunkCursor { chunk: Vec::new(), offset: 0 }
    }

    /// The unread suffix of the chunk; empty exactly when the cursor is
    /// drained.
    pub fn remaining(&self) -> (bytes: &[u8])
        ensures
            self@.wf(),
            bytes@ == self@.remaining(),
            bytes@.len() == 0 <==> self@.drained(),
    {
        proof {
            use_type_invariant(self);
        }
        slice_subrange(self.chunk.as_slice(), self.offset, self.chunk.len())
    }

    /// Whether every byte of the chunk has been read.
    pub fn is_drained(&self) -> (drained: bool)
        ensures
            self@.wf(),
            drained == self@.drained(),
    {
        proof {
            use_type_invariant(self);
        }
        self.offset == self.chunk.len()
    }

    /// Marks the next `n` unread bytes as read.
    pub fn consume(&mut self, n: usize)
        requires
            old(self)@.offset + n <= old(self)@.chunk.len(),
        ensures
            final(self)@ == (CursorView {
                chunk: old(self)@.chunk,
                offset: old(self)@.offset + n as nat,
            }),
            final(self)@.remaining() == old(self)@.remaining().skip(n as int),
    {
        proof {
            vstd::std_specs::vec::axiom_spec_len(&self.chunk);
        }
        self.offset = self.offset + n;
    }

    /// Takes a new chunk and starts reading it from its first byte. Whatever
    /// was unread of the old chunk is dropped.
    pub fn replace(&mut self, chunk: Vec<u8>)
        ensures
            final(self)@ == (CursorView { chunk: chunk@, offset: 0 }),
    {
        self.offset = 0;
        self.chunk = chunk;
    }
}

} // verus!
