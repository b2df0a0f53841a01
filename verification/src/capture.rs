//! The capture worker: the decisions of the frame-production loop.
//!
//! The worker owns the camera for its whole life and loops: poll the
//! shutdown signal, and either stop cleanly or acquire one raw frame,
//! decode it and push it onto the hand-off queue, stopping on the first
//! failure. The loop itself, the device calls and the sleeps run outside;
//! this state machine makes every decision and is asked before each device
//! access, so that nothing is captured once the worker has stopped.

use vstd::prelude::*;

use crate::decode::{decode_rgb_frame, rgba_of_rgb, RAW_BYTES_PER_PIXEL};
use crate::frame::{FrameBuffer, BYTES_PER_PIXEL};

verus! {

/// Why the capture worker stopped with a failure.
#[derive(Clone, Copy, Debug, PartialEq, Eq, Structural)]
pub enum CaptureError {
    /// The camera could not be opened or its stream not started.
    InitFailure,
    /// A frame acquisition failed.
    DeviceFailure,
    /// An acquired raw frame could not be decoded.
    DecodeFailure,
    /// The hand-off queue's receiving side is gone.
    ChannelDisconnected,
}

/// Where the worker stands in its life cycle.
#[derive(Clone, Copy, Debug, PartialEq, Eq, Structural)]
pub enum WorkerStatus {
    /// The loop goes on: the worker may be asked to acquire frames.
    Running,
    /// Stopped because the shutdown signal was observed.
    StoppedClean,
    /// Stopped because of the recorded failure.
    StoppedFailed(CaptureError),
}

/// What the loop must do next, as decided by one poll.
#[derive(Clone, Copy, Debug, PartialEq, Eq, Structural)]
pub enum WorkerCommand {
    /// Acquire one raw frame from the device and report it back.
    AcquireFrame,
    /// Leave the loop and release the device; acquire nothing further.
    Finish,
}

/// The capture worker's state: its life-cycle status, the dimensions it
/// decodes to, how many acquisitions it has authorized and how many frames
/// it has delivered.
pub struct CaptureWorker {
    /// Where the worker stands in its life cycle.
    pub status: WorkerStatus,
    /// The pixel width frames are decoded to.
    pub width: usize,
    /// The pixel height frames are decoded to.
    pub height: usize,
    /// How many frame acquisitions the worker has authorized.
    pub acquisitions: u64,
    /// How many decoded frames were confirmed as delivered.
    pub frames_sent: u64,
}

impl CaptureWorker {
    /// The dimensions are small enough that a decoded frame's byte count
    /// fits the machine.
    pub open spec fn wf(&self) -> bool {
        self.width * self.height * BYTES_PER_PIXEL <= usize::MAX
    }

    /// Takes the outcome of opening the camera and starting its stream.
    /// Success yields a running worker that has touched nothing yet;
    /// failure is fatal and never retried.
    pub fn start(width: usize, height: usize, open_ok: bool) -> (result: Result<
        CaptureWorker,
        CaptureError,
    >)
        requires
            width * height * BYTES_PER_PIXEL <= usize::MAX,
        ensures
            result is Ok <==> open_ok,
            result matches Ok(worker) ==> worker == (CaptureWorker {
                status: WorkerStatus::Running,
                width,
                height,
                acquisitions: 0u64,
                frames_sent: 0u64,
            }),
            result matches Err(e) ==> e == CaptureError::InitFailure,
    {
        if open_ok {
            Ok(
                CaptureWorker {
                    status: WorkerStatus::Running,
                    width,
                    height,
                    acquisitions: 0,
                    frames_sent: 0,
                },
            )
        } else {
            Err(CaptureError::InitFailure)
        }
    }

    /// One poll of the shutdown signal, made at the top of every loop
    /// iteration. A worker that is no longer running, or that observes the
    /// signal, commands the loop to finish and authorizes no acquisition;
    /// only a running worker seeing no signal commands one more
    /// acquisition, and counts it.
    pub fn poll(&mut self, shutdown_pending: bool) -> (command: WorkerCommand)
        requires
            old(self).status == WorkerStatus::Running && !shutdown_pending ==> old(
                self,
            ).acquisitions < u64::MAX,
        ensures
            *final(self) == spec_poll(*old(self), shutdown_pending).0,
            command == spec_poll(*old(self), shutdown_pending).1,
            command == WorkerCommand::AcquireFrame <==> old(self).status == WorkerStatus::Running
                && !shutdown_pending,
    {
        match self.status {
            WorkerStatus::Running => {
                if shutdown_pending {
                    self.status = WorkerStatus::StoppedClean;
                    WorkerCommand::Finish
                } else {
                    self.acquisitions = self.acquisitions + 1;
                    WorkerCommand::AcquireFrame
                }
            },
            _ => WorkerCommand::Finish,
        }
    }

    /// Takes the raw frame that an authorized acquisition produced, or its
    /// absence on a device error. A device error stops the worker; raw
    /// bytes of the wrong size stop it with a decode failure; otherwise the
    /// decoded frame to push onto the hand-off queue is returned and the
    /// worker keeps running.
    pub fn on_frame(&mut self, raw: Option<Vec<u8>>) -> (decoded: Option<FrameBuffer>)
        requires
            old(self).wf(),
            old(self).status == WorkerStatus::Running,
        ensures
            final(self).width == old(self).width,
            final(self).height == old(self).height,
            final(self).acquisitions == old(self).acquisitions,
            final(self).frames_sent == old(self).frames_sent,
            raw is None ==> final(self).status == WorkerStatus::StoppedFailed(
                CaptureError::DeviceFailure,
            ) && decoded is None,
            raw matches Some(bytes) ==> {
                if bytes@.len() == old(self).width * old(self).height * RAW_BYTES_PER_PIXEL {
                    &&& final(self).status == WorkerStatus::Running
                    &&& decoded matches Some(frame)
                    &&& frame.wf()
                    &&& frame.spec_width() == old(self).width
                    &&& frame.spec_height() == old(self).height
                    &&& frame@ == rgba_of_rgb(bytes@)
                } else {
                    &&& final(self).status == WorkerStatus::StoppedFailed(
                        CaptureError::DecodeFailure,
                    )
                    &&& decoded is None
                }
            },
    {
        match raw {
            None => {
                self.status = WorkerStatus::StoppedFailed(CaptureError::DeviceFailure);
                None
            },
            Some(bytes) => {
                match decode_rgb_frame(self.width, self.height, &bytes) {
                    Ok(frame) => Some(frame),
                    Err(_) => {
                        self.status = WorkerStatus::StoppedFailed(CaptureError::DecodeFailure);
                        None
                    },
                }
            },
        }
    }

    /// Takes the outcome of pushing a decoded frame onto the hand-off
    /// queue. Delivery counts the frame; a disconnected queue means the
    /// display side is gone and stops the worker.
    pub fn on_sent(&mut self, delivered: bool)
        requires
            old(self).status == WorkerStatus::Running,
            delivered ==> old(self).frames_sent < u64::MAX,
        ensures
            final(self).width == old(self).width,
            final(self).height == old(self).height,
            final(self).acquisitions == old(self).acquisitions,
            delivered ==> final(self).status == WorkerStatus::Running && final(self).frames_sent
                == old(self).frames_sent + 1,
            !delivered ==> final(self).status == WorkerStatus::StoppedFailed(
                CaptureError::ChannelDisconnected,
            ) && final(self).frames_sent == old(self).frames_sent,
    {
        if delivered {
            self.frames_sent = self.frames_sent + 1;
        } else {
            self.status = WorkerStatus::StoppedFailed(CaptureError::ChannelDisconnected);
        }
    }

    /// What the joining caller learns: nothing while the loop still runs, a
    /// clean result after a signalled stop, and the recorded error after a
    /// failed one.
    pub fn outcome(&self) -> (result: Option<Result<(), CaptureError>>)
        ensures
            self.status == WorkerStatus::Running ==> result is None,
            self.status == WorkerStatus::StoppedClean ==> result == Some(
                Result::<(), CaptureError>::Ok(()),
            ),
            self.status matches WorkerStatus::StoppedFailed(e) ==> result == Some(
                Result::<(), CaptureError>::Err(e),
            ),
    {
        match self.status {
            WorkerStatus::Running => None,
            WorkerStatus::StoppedClean => Some(Ok(())),
            WorkerStatus::StoppedFailed(e) => Some(Err(e)),
        }
    }
}

/// One poll, at the specification level: the worker after it and the
/// command it gives. Mirrors exactly what `CaptureWorker::poll` does.
pub open spec fn spec_poll(worker: CaptureWorker, shutdown_pending: bool) -> (
    CaptureWorker,
    WorkerCommand,
) {
    if worker.status == WorkerStatus::Running {
        if shutdown_pending {
            (
                CaptureWorker { status: WorkerStatus::StoppedClean, ..worker },
                WorkerCommand::Finish,
            )
        } else {
            (
                CaptureWorker { acquisitions: (worker.acquisitions + 1) as u64, ..worker },
                WorkerCommand::AcquireFrame,
            )
        }
    } else {
        (worker, WorkerCommand::Finish)
    }
}

/// The worker after a whole sequence of polls, one per loop iteration,
/// given the shutdown signal each of them observed.
pub open spec fn spec_polls(worker: CaptureWorker, signals: Seq<bool>) -> CaptureWorker
    decreases signals.len(),
{
    if signals.len() == 0 {
        worker
    } else {
        spec_polls(spec_poll(worker, signals[0]).0, signals.skip(1))
    }
}

/// A worker that is not running any more is frozen: however many further
/// polls follow, whatever signals they observe, its state never changes,
/// and in particular no further acquisition is ever authorized.
pub proof fn lemma_stopped_worker_is_frozen(worker: CaptureWorker, signals: Seq<bool>)
    requires
        worker.status != WorkerStatus::Running,
    ensures
        spec_polls(worker, signals) == worker,
    decreases signals.len(),
{
    if signals.len() > 0 {
        lemma_stopped_worker_is_frozen(worker, signals.skip(1));
    }
}

/// Observing the shutdown signal stops acquisition for good: the poll that
/// sees it commands the loop to finish, and no sequence of later polls,
/// whatever signals they observe, raises the acquisition count above what
/// it was when the signal arrived.
pub proof fn lemma_no_acquisition_after_shutdown(worker: CaptureWorker, signals: Seq<bool>)
    requires
        worker.status == WorkerStatus::Running,
    ensures
        spec_poll(worker, true).1 == WorkerCommand::Finish,
        spec_polls(spec_poll(worker, true).0, signals).acquisitions == worker.acquisitions,
{
    lemma_stopped_worker_is_frozen(spec_poll(worker, true).0, signals);
}

} // verus!
