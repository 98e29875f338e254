//! Coordination core for flashing one source image to many target devices
//! in parallel: the image buffer's load-phase protocol, per-target progress
//! tasks with rate smoothing, the flash session's lifecycle, the periodic
//! monitor poll, and the error report built when the batch completes.

pub mod buffer;
pub mod monitor;
pub mod report;
pub mod session;
pub mod task;
pub mod text;
