//! Verified core of a bridge between a blocking camera SDK and a cooperative
//! task scheduler: the error taxonomy, the grab options, the life cycle of a
//! device session and the poll-driven frame stream.
//!
//! The device and the scheduler are reached by the embedding program; this
//! crate decides what is to be asked of them and what their answers mean.

pub mod camera;
pub mod error;
pub mod options;
pub mod pylon;
pub mod result;
pub mod run;
pub mod stream;
