//! Verified core of a desktop editor that cuts 9:16 vertical clips out of
//! landscape videos: crop geometry, preview sizing, output naming, the
//! ffmpeg command lines and the batch-export state machine.

pub mod batch;
pub mod command;
pub mod crop;
pub mod frame;
pub mod naming;
pub mod playback;
pub mod preview;
pub mod probe;
pub mod progress;
pub mod text;
pub mod timeline;

pub use crop::CropRect;
pub use preview::{preview_size, rgba_frame_len, PREVIEW_WIDTH};
