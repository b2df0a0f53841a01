//! The hand-off queue: the ordered, non-blocking frame transport.
//!
//! Frames travel from the capture worker to the display driver in capture
//! order, first in first out, never reordered and never duplicated. The
//! producer's push never blocks; the consumer takes at most the oldest
//! pending frame per redraw tick and is told at once when nothing is
//! pending.

use vstd::prelude::*;

use crate::frame::FrameBuffer;

verus! {

/// The pending frames, oldest first. This is the in-process form of the
/// hand-off: what has been pushed and not yet taken.
pub struct FrameQueue {
    items: Vec<FrameBuffer>,
}

impl FrameQueue {
    /// The pending frames, oldest first.
    pub closed spec fn frames(&self) -> Seq<FrameBuffer> {
        self.items@
    }

    /// An empty queue: nothing pending.
    pub fn new() -> (queue: FrameQueue)
        ensures
            queue.frames() == Seq::<FrameBuffer>::empty(),
    {
        FrameQueue { items: Vec::new() }
    }

    /// How many frames are pending.
    pub fn len(&self) -> (n: usize)
        ensures
            n == self.frames().len(),
    {
        self.items.len()
    }

    /// Pushes one frame behind everything already pending. Order is kept:
    /// nothing already pending moves, nothing is dropped.
    pub fn send(&mut self, frame: FrameBuffer)
        ensures
            final(self).frames() == old(self).frames().push(frame),
    {
        self.items.push(frame);
    }

    /// Takes the oldest pending frame without blocking: `None` at once
    /// when nothing is pending, otherwise exactly the frame that has
    /// waited longest, which leaves the queue with the rest in order.
    pub fn try_recv(&mut self) -> (received: Option<FrameBuffer>)
        ensures
            old(self).frames().len() == 0 ==> received is None && *final(self) == *old(self),
            old(self).frames().len() > 0 ==> received == Some(old(self).frames()[0])
                && final(self).frames() == old(self).frames().drop_first(),
    {
        if self.items.len() == 0 {
            None
        } else {
            let frame = self.items.remove(0);
            proof {
                assert(self.items@ =~= old(self).items@.drop_first());
            }
            Some(frame)
        }
    }
}

} // verus!
