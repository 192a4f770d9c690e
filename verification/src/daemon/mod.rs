//! The playback daemon: what it plays, in which order, and what it answers.

pub mod browse;
pub mod control;
pub mod events;
pub mod laws;
pub mod load;
pub mod modes;
pub mod order;
pub mod profile;
pub mod queue;
pub mod state;
pub mod volume;
