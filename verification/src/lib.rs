//! SpotUI: the playback queue, control protocol and touch interface of a small
//! standalone music player.

pub mod daemon;
pub mod media;
pub mod protocol;
pub mod text;
pub mod ui;
