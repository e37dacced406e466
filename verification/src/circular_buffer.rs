//! Fixed-capacity circular byte buffer.
//!
//! The buffer stores up to `C` bytes (capacity chosen at construction) in a
//! ring: `head` is the next write position, `tail` the next read position,
//! and a `buffer_full` flag tells a completely full ring apart from an empty
//! one when the two cursors coincide. The abstract value of a buffer is the
//! sequence of readable bytes, oldest first.

use vstd::prelude::*;
use vstd::pervasive::VecAdditionalExecFns;

verus! {

/// Circular byte buffer with wraparound read/write cursors.
#[derive(Debug)]
pub struct CircularBuffer {
    storage: Vec<u8>,
    head: usize,
    tail: usize,
    buffer_full: bool,
}

impl View for CircularBuffer {
    type V = Seq<u8>;

    /// The readable contents, oldest byte first.
    closed spec fn view(&self) -> Seq<u8> {
        if !self.buffer_full && self.head >= self.tail {
            self.storage@.subrange(self.tail as int, self.head as int)
        } else {
            self.storage@.skip(self.tail as int) + self.storage@.take(self.head as int)
        }
    }
}

impl CircularBuffer {
    /// Total capacity `C`: the number of bytes the buffer can hold.
    pub closed spec fn spec_capacity(&self) -> int {
        self.storage@.len() as int
    }

    /// Bytes that `buffer_read` may still take in, computed from the
    /// cursors alone.
    pub closed spec fn spec_free(&self) -> int {
        if self.buffer_full {
            0
        } else if self.head < self.tail {
            self.tail - self.head
        } else {
            self.spec_capacity() - self.head + self.tail
        }
    }

    /// Well-formedness: the capacity is positive, both cursors lie inside
    /// the storage, and the full flag is raised only when they coincide.
    pub closed spec fn wf(&self) -> bool {
        &&& self.storage@.len() >= 1
        &&& self.head < self.storage@.len()
        &&& self.tail < self.storage@.len()
        &&& (self.buffer_full ==> self.head == self.tail)
    }

    /// Create an empty circular buffer of the given capacity.
    pub fn new(capacity: usize) -> (r: CircularBuffer)
        requires
            1 <= capacity,
        ensures
            r.wf(),
            r@ == Seq::<u8>::empty(),
            r.spec_capacity() == capacity,
    {
        let storage = vec![0u8; capacity];
        let r = CircularBuffer { storage, head: 0, tail: 0, buffer_full: false };
        proof {
            assert(r@ =~= Seq::<u8>::empty());
        }
        r
    }

    /// Returns non used bytes: how many more bytes `buffer_read` accepts.
    pub fn free_bytes(&self) -> (r: usize)
        requires
            self.wf(),
        ensures
            r == self.spec_free(),
            r == self.spec_capacity() - self@.len(),
    {
        proof {
            lemma_occupancy(self);
        }
        if self.buffer_full {
            return 0;
        }
        if self.head < self.tail {
            self.tail - self.head
        } else {
            self.storage.len() - self.head + self.tail
        }
    }

    /// Return used bytes that can be read out.
    pub fn ready_bytes(&self) -> (r: usize)
        requires
            self.wf(),
        ensures
            r == self@.len(),
    {
        if self.buffer_full {
            return self.storage.len();
        }
        if self.head < self.tail {
            self.storage.len() - self.tail + self.head
        } else {
            self.head - self.tail
        }
    }

    /// Reads bytes in: copies all of `buf` into the buffer at `head`,
    /// wrapping around the end of the storage as needed. The caller must
    /// size `buf` from `free_bytes`; the enqueued bytes appear after the
    /// bytes already held.
    pub fn buffer_read(&mut self, buf: &[u8])
        requires
            old(self).wf(),
            old(self)@.len() + buf@.len() <= old(self).spec_capacity(),
        ensures
            final(self).wf(),
            final(self)@ == old(self)@ + buf@,
            final(self).spec_capacity() == old(self).spec_capacity(),
    {
        proof {
            lemma_occupancy(self);
        }
        let cap = self.storage.len();
        let n = buf.len();
        let first = if cap - self.head < n { cap - self.head } else { n };
        let mut i: usize = 0;
        while i < first
            invariant
                i <= first,
                first <= n,
                n == buf@.len(),
                old(self).wf(),
                n <= old(self).spec_free(),
                self.head == old(self).head,
                self.tail == old(self).tail,
                self.buffer_full == old(self).buffer_full,
                self.storage@.len() == old(self).storage@.len(),
                cap == self.storage@.len(),
                self.head + first <= cap,
                forall|k: int|
                    self.head <= k < self.head + i ==> self.storage@[k] == buf@[k - self.head],
                forall|k: int|
                    0 <= k < cap && !(self.head <= k < self.head + i) ==> self.storage@[k]
                        == old(self).storage@[k],
            decreases first - i,
        {
            self.storage.set(self.head + i, buf[i]);
            i = i + 1;
        }
        let second = n - first;
        let mut j: usize = 0;
        while j < second
            invariant
                j <= second,
                second == n - first,
                second > 0 ==> first == cap - self.head,
                first <= n,
                n == buf@.len(),
                old(self).wf(),
                n <= old(self).spec_free(),
                self.head == old(self).head,
                self.tail == old(self).tail,
                self.buffer_full == old(self).buffer_full,
                self.storage@.len() == old(self).storage@.len(),
                cap == self.storage@.len(),
                second <= self.tail,
                forall|k: int|
                    self.head <= k < self.head + first ==> self.storage@[k] == buf@[k - self.head],
                forall|k: int| 0 <= k < j ==> self.storage@[k] == buf@[first + k],
                forall|k: int|
                    j <= k < self.head && 0 <= k ==> self.storage@[k] == old(self).storage@[k],
                forall|k: int|
                    self.head + first <= k < cap ==> self.storage@[k] == old(self).storage@[k],
            decreases second - j,
        {
            self.storage.set(j, buf[first + j]);
            j = j + 1;
        }
        let new_head = if n < cap - self.head {
            self.head + n
        } else {
            n - (cap - self.head)
        };
        self.head = new_head;
        if n > 0 {
            self.buffer_full = new_head == self.tail;
        }
        proof {
            assert(self@ =~= old(self)@ + buf@);
        }
    }

    /// Writes bytes out: copies the next `dest.len()` ready bytes into
    /// `dest` starting at `tail`, wrapping as needed, without consuming
    /// them. Consuming is left to `advance_tail`, so a caller can offer
    /// bytes to a destination, observe how many were accepted, and retire
    /// only that many.
    pub fn buffer_write(&self, dest: &mut Vec<u8>)
        requires
            self.wf(),
            old(dest)@.len() <= self@.len(),
        ensures
            final(dest)@ == self@.take(old(dest)@.len() as int),
    {
        let n = dest.len();
        let cap = self.storage.len();
        let mut i: usize = 0;
        while i < n
            invariant
                i <= n,
                n == dest@.len(),
                n <= self@.len(),
                self.wf(),
                cap == self.storage@.len(),
                forall|k: int| 0 <= k < i ==> dest@[k] == self@[k],
            decreases n - i,
        {
            proof {
                lemma_occupancy(self);
            }
            let pos = if i < cap - self.tail {
                self.tail + i
            } else {
                i - (cap - self.tail)
            };
            dest.set(i, self.storage[pos]);
            i = i + 1;
        }
        proof {
            assert(dest@ =~= self@.take(n as int));
        }
    }

    /// After bytes were delivered, advance the buffer tail: marks `offset`
    /// bytes as consumed, so the remaining contents are the former ones
    /// with their first `offset` bytes dropped.
    pub fn advance_tail(&mut self, offset: usize)
        requires
            old(self).wf(),
            offset <= old(self)@.len(),
        ensures
            final(self).wf(),
            final(self)@ == old(self)@.skip(offset as int),
            final(self).spec_capacity() == old(self).spec_capacity(),
            final(self).spec_free() == old(self).spec_free() + offset,
    {
        proof {
            lemma_occupancy(self);
        }
        let cap = self.storage.len();
        let new_tail = if offset < cap - self.tail {
            self.tail + offset
        } else {
            offset - (cap - self.tail)
        };
        self.tail = new_tail;
        if offset > 0 {
            self.buffer_full = false;
        }
        proof {
            assert(self@ =~= old(self)@.skip(offset as int));
        }
    }
}

/// Occupancy invariant: for every well-formed buffer, the readable bytes
/// and the free bytes partition the capacity exactly. Every operation of
/// `CircularBuffer` preserves well-formedness (each one's `ensures` says
/// so), so this holds after any sequence of operations that respects the
/// preconditions.
pub proof fn lemma_occupancy(b: &CircularBuffer)
    requires
        b.wf(),
    ensures
        b@.len() + b.spec_free() == b.spec_capacity(),
        0 <= b@.len() <= b.spec_capacity(),
{
}

/// Content fidelity round trip. A buffer holding `content` holds
/// `content + data` after `buffer_read(data)`; once the earlier `content`
/// has been consumed, peeking `data.len()` bytes (`buffer_write` into a
/// destination of that length yields the first `data.len()` bytes of the
/// contents) reproduces `data` exactly, and consuming them leaves the
/// buffer empty. The operation contracts hold for every cursor position,
/// so this covers enqueues and drains that wrap around the end of storage.
pub proof fn lemma_round_trip(content: Seq<u8>, data: Seq<u8>)
    ensures
        (content + data).skip(content.len() as int).take(data.len() as int) == data,
        (content + data).skip(content.len() as int).skip(data.len() as int) == Seq::<u8>::empty(),
{
    assert((content + data).skip(content.len() as int).take(data.len() as int) =~= data);
    let drained = (content + data).skip(content.len() as int).skip(data.len() as int);
    assert(drained =~= Seq::<u8>::empty());
}

} // verus!
