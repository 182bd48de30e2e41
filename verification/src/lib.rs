//! Core of a looping-video desktop background: a decode worker turns a
//! compressed stream into display-ready frames, a single-slot channel hands
//! the latest frame over, and a presentation loop paints at a fixed cadence.
//!
//! The modules mirror the pipeline, leaves first: `error` and `frame` hold the
//! shared data model, `stream` is the decoder adapter's stream selection,
//! `scaler` produces frames of the negotiated target geometry, `pacing` keeps
//! the two independent cadences, `channel` is the frame hand-off, and `worker`
//! and `present` are the two loops' decision logic as verified state machines.
//! The windowing and media libraries themselves sit outside, in the
//! surrounding binary; they exchange plain values with this crate.

pub mod channel;
pub mod error;
pub mod frame;
pub mod pacing;
pub mod present;
pub mod scaler;
pub mod stream;
pub mod worker;
