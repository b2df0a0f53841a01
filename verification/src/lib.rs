//! Core logic of a minimal live camera viewer.
//!
//! A capture worker produces decoded frame buffers at the camera's pace; a
//! display driver samples them at a fixed redraw cadence through a FIFO
//! hand-off queue, keeping the last known frame when nothing new arrived; a
//! one-shot shutdown signal stops the worker cooperatively. The decisions of
//! both sides, the frame decoding step and the hand-off queue live here and
//! are verified; device access and the GUI event loop stay outside.

pub mod capture;
pub mod channel;
pub mod decode;
pub mod display;
pub mod frame;
