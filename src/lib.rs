//! Playback engine of a terminal music player: the worker's state machine,
//! the decode-step rules, the sample bridge onto the output ring buffer and
//! the hardware callback's underrun policy.

pub mod state;
pub mod timing;
pub mod decoder;
pub mod controller;
pub mod output;
pub mod schema;
pub mod cache;
pub mod resolver;
