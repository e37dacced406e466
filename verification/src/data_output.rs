//! State of the diagnostics sink.
//!
//! The sink that renders relayed traffic keeps one running byte counter per
//! direction, so each dumped line can be labelled with the stream offset at
//! which its bytes begin. Those counters and the classification of bytes as
//! printable are plain logic and are verified here; the rendering itself is
//! presentation and stays outside the library.

use vstd::prelude::*;

verus! {

/// Bytes shown per dumped line by a conforming renderer.
pub const LINE_WIDTH: usize = 16;

/// Running per-direction byte counters for the diagnostics sink.
pub struct DataOutput {
    left_read_bytes: usize,
    right_read_bytes: usize,
}

impl DataOutput {
    /// Total bytes recorded so far for the left-to-right direction.
    pub closed spec fn left_total(&self) -> int {
        self.left_read_bytes as int
    }

    /// Total bytes recorded so far for the right-to-left direction.
    pub closed spec fn right_total(&self) -> int {
        self.right_read_bytes as int
    }

    /// Fresh sink state: both directions start at stream offset zero.
    pub fn new() -> (r: DataOutput)
        ensures
            r.left_total() == 0,
            r.right_total() == 0,
    {
        DataOutput { left_read_bytes: 0, right_read_bytes: 0 }
    }

    /// Record a successful read of `read_bytes` bytes in one direction and
    /// return the stream offset at which those bytes begin. The other
    /// direction's counter is untouched.
    pub fn record_read(&mut self, is_left: bool, read_bytes: usize) -> (offset: usize)
        requires
            is_left ==> old(self).left_total() + read_bytes <= usize::MAX,
            !is_left ==> old(self).right_total() + read_bytes <= usize::MAX,
        ensures
            is_left ==> {
                &&& offset == old(self).left_total()
                &&& final(self).left_total() == old(self).left_total() + read_bytes
                &&& final(self).right_total() == old(self).right_total()
            },
            !is_left ==> {
                &&& offset == old(self).right_total()
                &&& final(self).right_total() == old(self).right_total() + read_bytes
                &&& final(self).left_total() == old(self).left_total()
            },
    {
        if is_left {
            let offset = self.left_read_bytes;
            self.left_read_bytes = self.left_read_bytes + read_bytes;
            offset
        } else {
            let offset = self.right_read_bytes;
            self.right_read_bytes = self.right_read_bytes + read_bytes;
            offset
        }
    }

    /// How many of `remaining` bytes the current dump line still takes:
    /// everything up to the end of the `LINE_WIDTH`-aligned line that the
    /// stream offset falls in.
    pub open spec fn spec_line_take(offset: int, remaining: int) -> int {
        let room = LINE_WIDTH - offset % (LINE_WIDTH as int);
        if remaining <= room {
            remaining
        } else {
            room
        }
    }

    /// Bytes placed on the dump line that stream offset `offset` falls in.
    /// The result is positive, so a renderer that advances by it always
    /// makes progress, and never runs past `remaining`.
    pub fn line_take(offset: usize, remaining: usize) -> (r: usize)
        requires
            1 <= remaining,
        ensures
            r == Self::spec_line_take(offset as int, remaining as int),
            1 <= r <= remaining,
    {
        let room = LINE_WIDTH - offset % LINE_WIDTH;
        if remaining <= room {
            remaining
        } else {
            room
        }
    }

    /// Total bytes recorded so far for one direction.
    pub fn total_read(&self, is_left: bool) -> (r: usize)
        ensures
            is_left ==> r == self.left_total(),
            !is_left ==> r == self.right_total(),
    {
        if is_left {
            self.left_read_bytes
        } else {
            self.right_read_bytes
        }
    }

    /// A byte is rendered as itself exactly when it is printable ASCII;
    /// anything else is rendered as a placeholder dot.
    pub fn printable(byte: u8) -> (r: bool)
        ensures
            r == (0x20 <= byte < 0x7f),
    {
        0x20 <= byte && byte < 0x7f
    }
}

} // verus!
