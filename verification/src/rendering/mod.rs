//! Rendering-side logic that does not touch the GPU itself: it decides what
//! the renderer creates, writes and draws.

pub mod helpers;
pub mod instancing;
pub mod time_labels;
pub mod triple_buffer;
pub mod upload;
