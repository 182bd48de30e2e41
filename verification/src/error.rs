use vstd::prelude::*;

verus! {

/// The failure kinds of the pipeline. End-of-stream is deliberately not here:
/// it is the loop-restart trigger, a designed state transition, not an error.
#[derive(Clone, Copy, Debug, PartialEq, Eq, Structural)]
pub enum PipelineError {
    /// The container holds no stream whose media type is video.
    StreamNotFound,
    /// A static property needed before the loops begin is unusable: a
    /// degenerate frame rate or geometry, or a conversion context that cannot
    /// be set up. Fatal; the session never starts.
    StartupFailure,
    /// A packet failed to submit or a picture failed to convert mid-session.
    /// Fatal to the worker; it surfaces to the consumer as a channel
    /// disconnect, never as a seek-and-restart.
    DecodeFailure,
    /// A pixel buffer does not match the negotiated target geometry. A
    /// programming error, fatal, never recoverable.
    FrameSizeMismatch,
}

} // verus!
