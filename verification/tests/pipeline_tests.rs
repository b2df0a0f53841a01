//! The capture worker, the display driver and the hand-off queue, driven
//! together as the viewer's loop would drive them, with a fake device.

use camview::capture::{CaptureError, CaptureWorker, WorkerCommand, WorkerStatus};
use camview::channel::FrameQueue;
use camview::decode::decode_rgb_frame;
use camview::display::{DisplayDriver, DriverPhase};
use camview::frame::FrameBuffer;

/// A fake camera device: emits single-pixel raw frames tagged with growing
/// byte values, counts how often it was asked, and can be set to fail on
/// one particular call.
struct FakeDevice {
    calls: u64,
    fail_on_call: Option<u64>,
    next_tag: u8,
}

impl FakeDevice {
    fn new() -> FakeDevice {
        FakeDevice { calls: 0, fail_on_call: None, next_tag: 1 }
    }

    fn failing_on(call: u64) -> FakeDevice {
        FakeDevice { calls: 0, fail_on_call: Some(call), next_tag: 1 }
    }

    /// One acquisition: a raw single-pixel frame whose bytes carry the
    /// tag, or `None` on the programmed failing call.
    fn acquire(&mut self) -> Option<Vec<u8>> {
        self.calls += 1;
        if self.fail_on_call == Some(self.calls) {
            return None;
        }
        let tag = self.next_tag;
        self.next_tag += 1;
        Some(vec![tag, tag, tag])
    }
}

fn tagged_frame(tag: u8) -> FrameBuffer {
    decode_rgb_frame(1, 1, &vec![tag, tag, tag]).unwrap_or_else(|_| panic!("decode failed"))
}

fn frame_tag(frame: &FrameBuffer) -> u8 {
    frame.data()[0]
}

/// One iteration of the capture loop against the fake device: poll, then
/// acquire, decode and push if commanded. Returns whether the loop goes on.
fn worker_iteration(
    worker: &mut CaptureWorker,
    device: &mut FakeDevice,
    queue: &mut FrameQueue,
    shutdown_pending: bool,
) -> bool {
    match worker.poll(shutdown_pending) {
        WorkerCommand::Finish => false,
        WorkerCommand::AcquireFrame => {
            match worker.on_frame(device.acquire()) {
                Some(frame) => {
                    queue.send(frame);
                    worker.on_sent(true);
                    worker.status == WorkerStatus::Running
                }
                None => false,
            }
        }
    }
}

#[test]
fn latest_frame_wins_after_draining_backlog() {
    let mut driver = DisplayDriver::new(1, 1);
    let mut queue = FrameQueue::new();
    for tag in 1..=5u8 {
        queue.send(tagged_frame(tag));
    }
    while queue.len() > 0 {
        driver.advance_tick();
        let received = queue.try_recv();
        driver.on_redraw(received);
    }
    assert_eq!(frame_tag(driver.current_frame()), 5);
}

#[test]
fn stale_tick_repeats_previous_frame() {
    let mut driver = DisplayDriver::new(1, 1);
    driver.on_redraw(Some(tagged_frame(7)));
    let before: Vec<u8> = driver.current_frame().data().clone();
    driver.advance_tick();
    driver.on_redraw(None);
    assert_eq!(driver.current_frame().data(), &before);
}

#[test]
fn first_redraw_without_frames_shows_zeroed_canvas() {
    let mut driver = DisplayDriver::new(2, 1);
    driver.advance_tick();
    driver.on_redraw(None);
    assert_eq!(driver.current_frame().data(), &vec![0u8; 2 * 1 * 4]);
}

#[test]
fn shutdown_signal_stops_acquisition_within_one_poll() {
    let mut worker = CaptureWorker::start(1, 1, true).unwrap_or_else(|_| panic!("start failed"));
    let mut device = FakeDevice::new();
    let mut queue = FrameQueue::new();
    for _ in 0..3 {
        assert!(worker_iteration(&mut worker, &mut device, &mut queue, false));
    }
    assert_eq!(device.calls, 3);
    // The signal is pending: the very next poll must finish the loop.
    assert!(!worker_iteration(&mut worker, &mut device, &mut queue, true));
    assert_eq!(device.calls, 3);
    // Further polls, with or without the signal, never touch the device.
    assert!(!worker_iteration(&mut worker, &mut device, &mut queue, false));
    assert!(!worker_iteration(&mut worker, &mut device, &mut queue, true));
    assert_eq!(device.calls, 3);
    assert_eq!(worker.outcome(), Some(Ok(())));
}

#[test]
fn device_error_on_kth_call_surfaces_in_outcome() {
    let k: u64 = 3;
    let mut worker = CaptureWorker::start(1, 1, true).unwrap_or_else(|_| panic!("start failed"));
    let mut device = FakeDevice::failing_on(k);
    let mut queue = FrameQueue::new();
    let mut iterations: u64 = 0;
    while worker_iteration(&mut worker, &mut device, &mut queue, false) {
        iterations += 1;
        assert!(iterations < 100, "the loop must stop at the failing call");
    }
    assert_eq!(device.calls, k);
    assert_eq!(worker.outcome(), Some(Err(CaptureError::DeviceFailure)));
    // The loop stays finished afterwards.
    assert!(!worker_iteration(&mut worker, &mut device, &mut queue, false));
    assert_eq!(device.calls, k);
}

#[test]
fn end_to_end_tags_non_decreasing_and_final_is_latest() {
    // Capture runs faster than redraw: all three frames are produced
    // before the first of three slower redraw ticks samples the queue.
    let mut worker = CaptureWorker::start(1, 1, true).unwrap_or_else(|_| panic!("start failed"));
    let mut device = FakeDevice::new();
    let mut queue = FrameQueue::new();
    for _ in 0..3 {
        assert!(worker_iteration(&mut worker, &mut device, &mut queue, false));
    }
    let mut driver = DisplayDriver::new(1, 1);
    let mut observed: Vec<u8> = Vec::new();
    for _ in 0..3 {
        driver.advance_tick();
        let received = queue.try_recv();
        driver.on_redraw(received);
        observed.push(frame_tag(driver.current_frame()));
    }
    assert!(observed.windows(2).all(|w| w[0] <= w[1]));
    assert_eq!(*observed.last().unwrap(), 3);
}

#[test]
fn open_failure_is_fatal_and_reported() {
    let result = CaptureWorker::start(1, 1, false);
    assert_eq!(result.err(), Some(CaptureError::InitFailure));
}

#[test]
fn undecodable_frame_stops_worker_with_decode_failure() {
    let mut worker = CaptureWorker::start(1, 1, true).unwrap_or_else(|_| panic!("start failed"));
    assert_eq!(worker.poll(false), WorkerCommand::AcquireFrame);
    let decoded = worker.on_frame(Some(vec![1, 2]));
    assert!(decoded.is_none());
    assert_eq!(worker.outcome(), Some(Err(CaptureError::DecodeFailure)));
    assert_eq!(worker.poll(false), WorkerCommand::Finish);
}

#[test]
fn disconnected_queue_stops_worker() {
    let mut worker = CaptureWorker::start(1, 1, true).unwrap_or_else(|_| panic!("start failed"));
    assert_eq!(worker.poll(false), WorkerCommand::AcquireFrame);
    let decoded = worker.on_frame(Some(vec![1, 2, 3]));
    assert!(decoded.is_some());
    worker.on_sent(false);
    assert_eq!(worker.outcome(), Some(Err(CaptureError::ChannelDisconnected)));
    assert_eq!(worker.poll(false), WorkerCommand::Finish);
}

#[test]
fn worker_counts_delivered_frames() {
    let mut worker = CaptureWorker::start(1, 1, true).unwrap_or_else(|_| panic!("start failed"));
    let mut device = FakeDevice::new();
    let mut queue = FrameQueue::new();
    for _ in 0..4 {
        assert!(worker_iteration(&mut worker, &mut device, &mut queue, false));
    }
    assert_eq!(worker.acquisitions, 4);
    assert_eq!(worker.frames_sent, 4);
    assert_eq!(queue.len(), 4);
}

#[test]
fn queue_delivers_in_capture_order_without_duplicates() {
    let mut queue = FrameQueue::new();
    for tag in [4u8, 9, 2] {
        queue.send(tagged_frame(tag));
    }
    let mut seen: Vec<u8> = Vec::new();
    while let Some(frame) = queue.try_recv() {
        seen.push(frame_tag(&frame));
    }
    assert_eq!(seen, vec![4, 9, 2]);
    assert!(queue.try_recv().is_none());
}

#[test]
fn shutdown_signal_is_sent_exactly_once() {
    let mut driver = DisplayDriver::new(1, 1);
    assert_eq!(driver.phase, DriverPhase::Running);
    assert!(driver.request_shutdown());
    assert_eq!(driver.phase, DriverPhase::ShuttingDown);
    assert!(!driver.request_shutdown());
    driver.on_worker_joined();
    assert_eq!(driver.phase, DriverPhase::Terminated);
    assert!(!driver.request_shutdown());
    assert_eq!(driver.phase, DriverPhase::Terminated);
}

#[test]
fn tick_counter_is_monotonic() {
    let mut driver = DisplayDriver::new(1, 1);
    assert_eq!(driver.tick, 0);
    for expected in 1..=5u64 {
        driver.advance_tick();
        assert_eq!(driver.tick, expected);
    }
}
