//! Control library for a serial-attached arbitrary waveform generator.
//!
//! The library keeps the canonical description of the signal to generate
//! (`waveform`), encodes setup commands for the wire (`codec`), and drives the
//! connect/disconnect/send state machine of the serial session (`session`).
//! Actual serial I/O is left to the embedding program; the library hands it
//! plain byte chunks to write and consumes the outcomes.

pub mod codec;
pub mod session;
pub mod waveform;
