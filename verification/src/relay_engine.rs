//! The relay engine's state machine.
//!
//! The engine owns one circular buffer per direction of traffic together
//! with a writability flag for each destination endpoint. All of its
//! decisions are functions of that state and of plain values handed in by
//! the I/O layer: the bytes a non-blocking read produced, or the count of
//! bytes a non-blocking write accepted. The I/O layer performs the reads,
//! writes and readiness polling and feeds the results back in.

use vstd::prelude::*;
use crate::circular_buffer::CircularBuffer;

verus! {

/// One direction of relayed traffic.
#[derive(Clone, Copy, Debug, PartialEq, Eq, Structural)]
pub enum Direction {
    AToB,
    BToA,
}

impl Direction {
    /// The opposite direction.
    pub open spec fn spec_opposite(self) -> Direction {
        match self {
            Direction::AToB => Direction::BToA,
            Direction::BToA => Direction::AToB,
        }
    }

    /// The opposite direction.
    pub fn opposite(self) -> (r: Direction)
        ensures
            r == self.spec_opposite(),
    {
        match self {
            Direction::AToB => Direction::BToA,
            Direction::BToA => Direction::AToB,
        }
    }
}

/// Where the engine stands in its lifecycle: relaying, winding down after
/// one side signalled end of stream, or terminated with both endpoints
/// released.
#[derive(Clone, Copy, Debug, PartialEq, Eq, Structural)]
pub enum EngineStatus {
    Running,
    Closing,
    Closed,
}

/// State of the relay: one buffer per direction and, for each destination
/// endpoint, whether writes to it are currently expected to succeed.
pub struct RelayEngine {
    a_to_b: CircularBuffer,
    b_to_a: CircularBuffer,
    a_writable: bool,
    b_writable: bool,
    status: EngineStatus,
}

impl RelayEngine {
    /// The buffer that carries traffic flowing in `dir`.
    pub closed spec fn buffer(&self, dir: Direction) -> CircularBuffer {
        match dir {
            Direction::AToB => self.a_to_b,
            Direction::BToA => self.b_to_a,
        }
    }

    /// The bytes read from `dir`'s source and not yet accepted by its
    /// destination, oldest first.
    pub open spec fn queued(&self, dir: Direction) -> Seq<u8> {
        self.buffer(dir)@
    }

    /// Whether the destination endpoint of `dir` is currently believed
    /// writable.
    pub closed spec fn dest_writable(&self, dir: Direction) -> bool {
        match dir {
            Direction::AToB => self.b_writable,
            Direction::BToA => self.a_writable,
        }
    }

    /// The per-direction buffer capacity `C`.
    pub closed spec fn capacity(&self) -> int {
        self.a_to_b.spec_capacity()
    }

    /// Lifecycle phase of the engine.
    pub closed spec fn spec_status(&self) -> EngineStatus {
        self.status
    }

    /// How many more bytes `dir`'s source may be read for: the free space
    /// of `dir`'s buffer.
    pub open spec fn spec_read_budget(&self, dir: Direction) -> int {
        self.capacity() - self.queued(dir).len()
    }

    /// Both buffers well formed, with one common capacity.
    pub closed spec fn wf(&self) -> bool {
        &&& self.a_to_b.wf()
        &&& self.b_to_a.wf()
        &&& self.b_to_a.spec_capacity() == self.a_to_b.spec_capacity()
    }

    /// A fresh engine: both directions empty, both destinations assumed
    /// writable, relaying under way.
    pub fn new(capacity: usize) -> (r: RelayEngine)
        requires
            1 <= capacity,
        ensures
            r.wf(),
            r.capacity() == capacity,
            r.queued(Direction::AToB) == Seq::<u8>::empty(),
            r.queued(Direction::BToA) == Seq::<u8>::empty(),
            r.dest_writable(Direction::AToB),
            r.dest_writable(Direction::BToA),
            r.spec_status() == EngineStatus::Running,
    {
        RelayEngine {
            a_to_b: CircularBuffer::new(capacity),
            b_to_a: CircularBuffer::new(capacity),
            a_writable: true,
            b_writable: true,
            status: EngineStatus::Running,
        }
    }

    /// Backpressure: the size of the next read from `dir`'s source. It is
    /// exactly the free space of `dir`'s buffer, so it reaches zero as
    /// soon as the buffer is full and reads from that source stop.
    pub fn read_budget(&self, dir: Direction) -> (r: usize)
        requires
            self.wf(),
        ensures
            r == self.spec_read_budget(dir),
            self.queued(dir).len() == self.capacity() ==> r == 0,
    {
        match dir {
            Direction::AToB => self.a_to_b.free_bytes(),
            Direction::BToA => self.b_to_a.free_bytes(),
        }
    }

    /// Take in the bytes a successful non-blocking read produced: they are
    /// appended to `dir`'s buffer. Returns whether the engine wants an
    /// immediate flush toward `dir`'s destination, which is the case
    /// exactly when that destination is believed writable and the buffer
    /// is now non-empty. The opposite direction and both writability flags
    /// are untouched.
    pub fn on_read(&mut self, dir: Direction, data: &[u8]) -> (flush: bool)
        requires
            old(self).wf(),
            data@.len() <= old(self).spec_read_budget(dir),
        ensures
            final(self).wf(),
            final(self).capacity() == old(self).capacity(),
            final(self).queued(dir) == old(self).queued(dir) + data@,
            final(self).queued(dir.spec_opposite()) == old(self).queued(dir.spec_opposite()),
            final(self).dest_writable(dir) == old(self).dest_writable(dir),
            final(self).dest_writable(dir.spec_opposite()) == old(self).dest_writable(
                dir.spec_opposite(),
            ),
            final(self).spec_status() == old(self).spec_status(),
            flush == (final(self).dest_writable(dir) && final(self).queued(dir).len() > 0),
    {
        proof {
            crate::circular_buffer::lemma_occupancy(&self.buffer(dir));
        }
        match dir {
            Direction::AToB => {
                self.a_to_b.buffer_read(data);
                self.b_writable && self.a_to_b.ready_bytes() > 0
            },
            Direction::BToA => {
                self.b_to_a.buffer_read(data);
                self.a_writable && self.b_to_a.ready_bytes() > 0
            },
        }
    }

    /// The bytes to offer `dir`'s destination in a flush attempt: all of
    /// the queued bytes, oldest first. Nothing is consumed until
    /// `complete_flush` reports how many the destination accepted.
    pub fn begin_flush(&self, dir: Direction) -> (data: Vec<u8>)
        requires
            self.wf(),
        ensures
            data@ == self.queued(dir),
    {
        let buffer = match dir {
            Direction::AToB => &self.a_to_b,
            Direction::BToA => &self.b_to_a,
        };
        let n = buffer.ready_bytes();
        let mut data = vec![0u8; n];
        buffer.buffer_write(&mut data);
        proof {
            assert(data@ =~= self.queued(dir));
        }
        data
    }

    /// Retire the bytes a flush attempt delivered: the first `accepted`
    /// queued bytes are dropped, the rest stay queued in order. The
    /// destination remains marked writable exactly when it accepted
    /// everything offered; a partial write marks it not writable until its
    /// next writable readiness event. The opposite direction is untouched.
    pub fn complete_flush(&mut self, dir: Direction, accepted: usize)
        requires
            old(self).wf(),
            accepted <= old(self).queued(dir).len(),
        ensures
            final(self).wf(),
            final(self).capacity() == old(self).capacity(),
            final(self).queued(dir) == old(self).queued(dir).skip(accepted as int),
            final(self).queued(dir.spec_opposite()) == old(self).queued(dir.spec_opposite()),
            final(self).dest_writable(dir) == (accepted == old(self).queued(dir).len()),
            final(self).dest_writable(dir.spec_opposite()) == old(self).dest_writable(
                dir.spec_opposite(),
            ),
            final(self).spec_status() == old(self).spec_status(),
    {
        match dir {
            Direction::AToB => {
                let offered = self.a_to_b.ready_bytes();
                self.a_to_b.advance_tail(accepted);
                self.b_writable = accepted == offered;
            },
            Direction::BToA => {
                let offered = self.b_to_a.ready_bytes();
                self.b_to_a.advance_tail(accepted);
                self.a_writable = accepted == offered;
            },
        }
    }

    /// React to a writable readiness event for `dir`'s destination.
    /// Returns whether a flush attempt is due: true exactly when bytes are
    /// queued for that destination. With nothing queued the destination is
    /// simply marked writable for future immediate use; otherwise the
    /// flags are left to the flush that follows. Buffers are untouched.
    pub fn on_dest_writable(&mut self, dir: Direction) -> (flush: bool)
        requires
            old(self).wf(),
        ensures
            final(self).wf(),
            final(self).capacity() == old(self).capacity(),
            flush == (old(self).queued(dir).len() > 0),
            final(self).queued(dir) == old(self).queued(dir),
            final(self).queued(dir.spec_opposite()) == old(self).queued(dir.spec_opposite()),
            flush ==> final(self).dest_writable(dir) == old(self).dest_writable(dir),
            !flush ==> final(self).dest_writable(dir),
            final(self).dest_writable(dir.spec_opposite()) == old(self).dest_writable(
                dir.spec_opposite(),
            ),
            final(self).spec_status() == old(self).spec_status(),
    {
        match dir {
            Direction::AToB => {
                if self.a_to_b.ready_bytes() > 0 {
                    true
                } else {
                    self.b_writable = true;
                    false
                }
            },
            Direction::BToA => {
                if self.b_to_a.ready_bytes() > 0 {
                    true
                } else {
                    self.a_writable = true;
                    false
                }
            },
        }
    }

    /// One side signalled orderly close (a zero-length read) or a fatal
    /// transport error: the engine winds down. Buffers keep their bytes so
    /// the remaining queued data can still be flushed best-effort.
    pub fn note_closing(&mut self)
        requires
            old(self).wf(),
        ensures
            final(self).wf(),
            final(self).capacity() == old(self).capacity(),
            final(self).queued(Direction::AToB) == old(self).queued(Direction::AToB),
            final(self).queued(Direction::BToA) == old(self).queued(Direction::BToA),
            final(self).dest_writable(Direction::AToB) == old(self).dest_writable(
                Direction::AToB,
            ),
            final(self).dest_writable(Direction::BToA) == old(self).dest_writable(
                Direction::BToA,
            ),
            final(self).spec_status() == EngineStatus::Closing,
    {
        self.status = EngineStatus::Closing;
    }

    /// Both endpoints have been released: the engine is terminal.
    pub fn note_closed(&mut self)
        requires
            old(self).wf(),
        ensures
            final(self).wf(),
            final(self).spec_status() == EngineStatus::Closed,
    {
        self.status = EngineStatus::Closed;
    }

    /// Bytes currently buffered but not yet delivered in `dir`: the
    /// occupancy a diagnostics observer reports as how far the direction
    /// is behind.
    pub fn queued_len(&self, dir: Direction) -> (r: usize)
        requires
            self.wf(),
        ensures
            r == self.queued(dir).len(),
    {
        match dir {
            Direction::AToB => self.a_to_b.ready_bytes(),
            Direction::BToA => self.b_to_a.ready_bytes(),
        }
    }

    /// Current lifecycle phase.
    pub fn status(&self) -> (r: EngineStatus)
        ensures
            r == self.spec_status(),
    {
        self.status
    }
}

/// Backpressure bound: however events interleave, a well-formed engine
/// never queues more than the capacity `C` per direction, and once a
/// direction's buffer is full its read budget is zero, so reads from that
/// source stop until a flush frees space. With a destination permanently
/// unwritable, memory use in that direction therefore never exceeds `C`.
pub proof fn lemma_backpressure(e: &RelayEngine, dir: Direction)
    requires
        e.wf(),
    ensures
        e.queued(dir).len() <= e.capacity(),
        e.queued(dir).len() == e.capacity() ==> e.spec_read_budget(dir) == 0,
{
    crate::circular_buffer::lemma_occupancy(&e.buffer(dir));
}

/// No loss under partial writes: when a destination accepts only
/// `accepted` of the queued bytes, the delivered prefix followed by what
/// stays queued (`complete_flush` keeps exactly the suffix, and the next
/// `begin_flush` offers it) reassembles the original bytes with no gap and
/// no duplication.
pub proof fn lemma_partial_flush_no_loss(queued: Seq<u8>, accepted: int)
    requires
        0 <= accepted <= queued.len(),
    ensures
        queued.take(accepted) + queued.skip(accepted) == queued,
{
    assert(queued.take(accepted) + queued.skip(accepted) =~= queued);
}

} // verus!
