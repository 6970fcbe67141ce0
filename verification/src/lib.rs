//! Real-time media dispatch core of a remote-rendering streaming server:
//! the video dispatch pipeline, the statistics and bitrate managers, the
//! client and process lifecycle, and the outbound event queue.

pub mod events;
pub mod dispatch;
pub mod bitrate;
pub mod statistics;
pub mod lifecycle;
pub mod settings;
pub mod recording;
pub mod restart;
pub mod context;
