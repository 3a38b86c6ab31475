//! A frame-presentation engine for a double-buffered GPU command pipeline.
//!
//! The library models the host-side logic of presenting rendered frames to a
//! display surface: negotiating swapchain parameters from surface
//! capabilities, the per-frame acquire / record / submit / present protocol
//! with a bounded number of frames in flight, recovery from a stale surface,
//! and the ordered teardown of GPU objects.  Every decision is made over
//! plain values (handles are carried as opaque `u64` words); an unverified
//! shell owns the window, the device and the queue, performs the calls the
//! engine asks for, and reports their outcomes back as events.

pub mod engine;
pub mod recorder;
pub mod surface;
pub mod swapchain;
