//! Core library of a terminal music jukebox: the playback queue, the audio
//! engine worker's state machine, the event dispatcher's state transitions,
//! and the supporting domain model, all with verified contracts.

pub mod catalog;
pub mod channel;
pub mod config;
pub mod events;
pub mod format;
pub mod model;
pub mod player;
pub mod queue;
pub mod views;
