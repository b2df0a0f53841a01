//! The display driver: the decisions of the redraw and shutdown path.
//!
//! A repeating timer advances a frame counter at a fixed cadence; each tick
//! the render callback offers the driver at most one frame freshly taken,
//! without blocking, from the hand-off queue. A new frame replaces the last
//! known one; without one the last known frame is shown again. On window
//! close the driver sends the shutdown signal exactly once and then waits
//! for the capture worker. The timer, the GUI callback and the join itself
//! run outside; every decision about what to show and when to signal is
//! made here.

use vstd::prelude::*;

use crate::frame::{FrameBuffer, BYTES_PER_PIXEL};

verus! {

/// Where the display driver stands in its life cycle. There is no way
/// back: once shutdown begins the driver only moves towards termination.
#[derive(Clone, Copy, Debug, PartialEq, Eq, Structural)]
pub enum DriverPhase {
    /// The event loop runs and redraw ticks are served.
    Running,
    /// The shutdown signal was sent; the join of the worker is pending.
    ShuttingDown,
    /// The worker was joined; the process is about to exit.
    Terminated,
}

/// The display driver's state: the canvas dimensions, the tick counter the
/// timer drives, the last known frame, and the life-cycle phase.
pub struct DisplayDriver {
    /// The pixel width of the canvas.
    pub width: usize,
    /// The pixel height of the canvas.
    pub height: usize,
    /// The redraw counter: incremented once per timer tick, its value has
    /// no meaning beyond triggering the next redraw.
    pub tick: u64,
    /// The fallback image: the most recent frame ever received, shown
    /// whenever a tick brings nothing new.
    pub last_frame: FrameBuffer,
    /// Where the driver stands in its life cycle.
    pub phase: DriverPhase,
}

/// What one redraw shows: the freshly received frame if the tick brought
/// one, the last known frame unchanged otherwise.
pub open spec fn spec_redraw(last: Seq<u8>, received: Option<Seq<u8>>) -> Seq<u8> {
    match received {
        Some(bytes) => bytes,
        None => last,
    }
}

/// The last known frame after a backlog of pending frames is drained in
/// order, one per tick, starting from `last`.
pub open spec fn spec_drain(last: Seq<u8>, pending: Seq<Seq<u8>>) -> Seq<u8>
    decreases pending.len(),
{
    if pending.len() == 0 {
        last
    } else {
        spec_drain(spec_redraw(last, Some(pending[0])), pending.skip(1))
    }
}

/// The latest frame wins: whatever was on screen before, draining any
/// non-empty backlog of produced frames leaves the most recently produced
/// one as the last known frame.
pub proof fn lemma_latest_frame_wins(last: Seq<u8>, pending: Seq<Seq<u8>>)
    requires
        pending.len() > 0,
    ensures
        spec_drain(last, pending) == pending.last(),
    decreases pending.len(),
{
    let first = spec_redraw(last, Some(pending[0]));
    if pending.len() == 1 {
        assert(pending.skip(1).len() == 0);
        assert(spec_drain(first, pending.skip(1)) == first);
    } else {
        lemma_latest_frame_wins(first, pending.skip(1));
        assert(pending.skip(1).last() == pending.last());
    }
}

impl DisplayDriver {
    /// The last known frame always fills the canvas: it is well formed and
    /// has the driver's own dimensions.
    pub open spec fn wf(&self) -> bool {
        &&& self.width * self.height * BYTES_PER_PIXEL <= usize::MAX
        &&& self.last_frame.wf()
        &&& self.last_frame.spec_width() == self.width
        &&& self.last_frame.spec_height() == self.height
    }

    /// A fresh driver for the given canvas: tick zero, running, showing an
    /// all-zero frame until the first camera frame arrives.
    pub fn new(width: usize, height: usize) -> (driver: DisplayDriver)
        requires
            width * height * BYTES_PER_PIXEL <= usize::MAX,
        ensures
            driver.wf(),
            driver.width == width,
            driver.height == height,
            driver.tick == 0,
            driver.phase == DriverPhase::Running,
            driver.last_frame@.len() == width * height * BYTES_PER_PIXEL,
            forall|j: int| 0 <= j < driver.last_frame@.len() ==> driver.last_frame@[j] == 0u8,
    {
        DisplayDriver {
            width,
            height,
            tick: 0,
            last_frame: FrameBuffer::zeroed(width, height),
            phase: DriverPhase::Running,
        }
    }

    /// One timer tick: the redraw counter grows by one and nothing else
    /// moves. Its growth is what makes the GUI ask for the next redraw.
    pub fn advance_tick(&mut self)
        requires
            old(self).tick < u64::MAX,
        ensures
            *final(self) == (DisplayDriver { tick: (old(self).tick + 1) as u64, ..*old(self) }),
    {
        self.tick = self.tick + 1;
    }

    /// One redraw: takes the frame the tick brought, if any. A received
    /// frame becomes the last known frame; a tick that brought nothing
    /// leaves the last known frame unchanged, so that a stale read shows
    /// exactly what the previous redraw showed.
    pub fn on_redraw(&mut self, received: Option<FrameBuffer>)
        requires
            old(self).wf(),
            received matches Some(f) ==> f.wf() && f.spec_width() == old(self).width
                && f.spec_height() == old(self).height,
        ensures
            final(self).wf(),
            final(self).width == old(self).width,
            final(self).height == old(self).height,
            final(self).tick == old(self).tick,
            final(self).phase == old(self).phase,
            final(self).last_frame@ == spec_redraw(
                old(self).last_frame@,
                match received {
                    Some(f) => Some(f@),
                    None => None,
                },
            ),
            received is None ==> final(self).last_frame == old(self).last_frame,
    {
        match received {
            Some(frame) => {
                self.last_frame = frame;
            },
            None => {},
        }
    }

    /// The image a redraw returns to the GUI: always a view of the last
    /// known frame.
    pub fn current_frame(&self) -> (frame: &FrameBuffer)
        ensures
            *frame == self.last_frame,
    {
        &self.last_frame
    }

    /// The window was closed: decides whether to send the shutdown signal.
    /// It is sent exactly on the transition out of the running phase, so
    /// asking twice cannot send it twice.
    pub fn request_shutdown(&mut self) -> (send_signal: bool)
        ensures
            send_signal == (old(self).phase == DriverPhase::Running),
            send_signal ==> *final(self) == (DisplayDriver {
                phase: DriverPhase::ShuttingDown,
                ..*old(self)
            }),
            !send_signal ==> *final(self) == *old(self),
    {
        match self.phase {
            DriverPhase::Running => {
                self.phase = DriverPhase::ShuttingDown;
                true
            },
            _ => false,
        }
    }

    /// The capture worker's thread was joined: shutdown is complete and
    /// the driver reaches its final phase.
    pub fn on_worker_joined(&mut self)
        requires
            old(self).phase == DriverPhase::ShuttingDown,
        ensures
            *final(self) == (DisplayDriver { phase: DriverPhase::Terminated, ..*old(self) }),
    {
        self.phase = DriverPhase::Terminated;
    }
}

} // verus!
