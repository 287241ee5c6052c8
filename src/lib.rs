//! Host-side adapter between a windowing toolkit, an audio backend and a
//! virtual machine: key decoding, per-tick input aggregation, frame pacing,
//! console relay, frame conversion and audio format negotiation.

pub mod audio;
pub mod console;
pub mod input;
pub mod keys;
pub mod pacer;
pub mod present;
pub mod stage;
