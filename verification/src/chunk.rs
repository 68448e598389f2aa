use vstd::prelude::*;

use std::collections::VecDeque;

verus! {

/// A pooled chunk: a fixed-capacity byte buffer that is filled by the
/// offload worker, handed over a queue to the offloaded reader, drained
/// from the front into the consumer's buffers, and then recycled.
///
/// At any instant a chunk is owned by exactly one side; that is enforced by
/// Rust ownership, since every transfer moves the chunk. What is verified
/// here is the byte bookkeeping: filling appends exactly the bytes that
/// were read, and draining yields the buffered bytes in order, front first.
pub struct Chunk {
    data: VecDeque<u8>,
    capacity: usize,
}

impl Chunk {
    /// The bytes currently buffered, in delivery order.
    pub closed spec fn bytes(&self) -> Seq<u8> {
        self.data@
    }

    /// The fixed capacity the chunk was created with.
    pub closed spec fn cap(&self) -> usize {
        self.capacity
    }

    /// A chunk never buffers more than its capacity, and the capacity is
    /// positive.
    pub open spec fn wf(&self) -> bool {
        self.bytes().len() <= self.cap() && self.cap() >= 1
    }

    /// A fresh, empty chunk.
    pub fn with_capacity(capacity: usize) -> (c: Chunk)
        requires
            capacity >= 1,
        ensures
            c.bytes() == Seq::<u8>::empty(),
            c.cap() == capacity,
            c.wf(),
    {
        Chunk { data: VecDeque::with_capacity(capacity), capacity }
    }

    /// The fixed capacity, readable by the fill loop.
    pub fn capacity(&self) -> (n: usize)
        ensures
            n == self.cap(),
    {
        self.capacity
    }

    /// Number of buffered bytes.
    pub fn len(&self) -> (n: usize)
        ensures
            n == self.bytes().len(),
    {
        self.data.len()
    }

    /// Whether nothing is buffered.
    pub fn is_empty(&self) -> (b: bool)
        ensures
            b <==> self.bytes().len() == 0,
    {
        self.data.len() == 0
    }

    /// Whether the chunk is filled to capacity.
    pub fn is_full(&self) -> (b: bool)
        ensures
            b <==> self.bytes().len() == self.cap(),
    {
        self.data.len() == self.capacity
    }

    /// How many more bytes fit before the chunk is full.
    pub fn remaining(&self) -> (n: usize)
        requires
            self.wf(),
        ensures
            n == self.cap() - self.bytes().len(),
    {
        self.capacity - self.data.len()
    }

    /// Empty the chunk for reuse; the capacity is kept.
    pub fn clear(&mut self)
        ensures
            final(self).bytes() == Seq::<u8>::empty(),
            final(self).cap() == old(self).cap(),
    {
        self.data.clear();
    }

    /// Append `count` bytes of `src` starting at `start`, in order.
    pub fn absorb(&mut self, src: &Vec<u8>, start: usize, count: usize)
        requires
            start + count <= src.len(),
            old(self).wf(),
            old(self).bytes().len() + count <= old(self).cap(),
        ensures
            final(self).bytes() == old(self).bytes() + src@.subrange(
                start as int,
                start as int + count as int,
            ),
            final(self).cap() == old(self).cap(),
            final(self).wf(),
    {
        let mut i: usize = 0;
        while i < count
            invariant
                i <= count,
                start + count <= src.len(),
                self.data@ == old(self).bytes() + src@.subrange(
                    start as int,
                    start as int + i as int,
                ),
                self.capacity == old(self).cap(),
                old(self).bytes().len() + count <= old(self).cap(),
            decreases count - i,
        {
            self.data.push_back(src[start + i]);
            proof {
                assert(old(self).bytes() + src@.subrange(start as int, start as int + i as int
                    + 1) =~= (old(self).bytes() + src@.subrange(
                    start as int,
                    start as int + i as int,
                )).push(src@[start as int + i as int]));
            }
            i = i + 1;
        }
    }

    /// Remove and return up to `max` bytes from the front, in order.
    ///
    /// Exactly `min(max, len)` bytes come out: the drain is short only when
    /// the chunk runs out, so a held non-empty chunk always yields at least
    /// one byte to a non-empty request.
    pub fn take_front(&mut self, max: usize) -> (out: Vec<u8>)
        ensures
            out@.len() == if max <= old(self).bytes().len() {
                max as int
            } else {
                old(self).bytes().len() as int
            },
            out@ == old(self).bytes().take(out@.len() as int),
            final(self).bytes() == old(self).bytes().skip(out@.len() as int),
            final(self).cap() == old(self).cap(),
    {
        let mut out: Vec<u8> = Vec::new();
        while out.len() < max && self.data.len() > 0
            invariant
                out@.len() <= max,
                out@.len() <= old(self).bytes().len(),
                out@ == old(self).bytes().take(out@.len() as int),
                self.data@ == old(self).bytes().skip(out@.len() as int),
                self.capacity == old(self).cap(),
            decreases max - out@.len(),
        {
            let b = self.data.pop_front();
            match b {
                Some(x) => {
                    out.push(x);
                    proof {
                        assert(old(self).bytes().take(out@.len() as int) =~= old(
                            self,
                        ).bytes().take(out@.len() - 1).push(x));
                        assert(old(self).bytes().skip(out@.len() - 1).subrange(
                            1,
                            old(self).bytes().skip(out@.len() - 1).len() as int,
                        ) =~= old(self).bytes().skip(out@.len() as int));
                    }
                },
                None => {
                    proof {
                        assert(false);
                    }
                },
            }
        }
        out
    }
}

} // verus!
