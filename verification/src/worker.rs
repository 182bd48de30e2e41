use vstd::prelude::*;

use crate::error::PipelineError;
use crate::frame::{DisplayFrame, PixelFormat};
use crate::scaler::Scaler;
use crate::stream::StreamDescriptor;

verus! {

/// What the container or decoder hands the worker next.
#[derive(Clone, Copy, Debug, PartialEq, Eq, Structural)]
pub enum WorkerEvent {
    /// The demuxer produced a packet of the stream with this index.
    Packet { stream_index: usize },
    /// The packet source is exhausted. Not an error: the restart trigger.
    EndOfStream,
    /// A packet failed to submit or a picture failed to convert.
    DecodeFailed,
}

/// What the worker decides to do with one event.
#[derive(Debug, PartialEq, Eq)]
pub enum WorkerStep {
    /// The packet belongs to another stream; read the next one.
    SkipPacket,
    /// The packet is ours: first publish the retained frame, if any, so the
    /// consumer never waits on this packet's decode latency, then submit the
    /// packet, drain the decoder, scale each drained picture, and sleep one
    /// nominal frame duration.
    DecodePacket { publish: Option<DisplayFrame> },
    /// End of stream: seek back to this timestamp and read on from there,
    /// which is what makes playback loop forever.
    SeekToStart { timestamp: i64 },
    /// A mid-session decode failure: stop producing with this error, which
    /// reaches the consumer as a channel disconnect.
    Abort { error: PipelineError },
}

/// The decode worker's decision state: which stream it decodes, the target
/// geometry every frame it retains must carry, and the one retained frame
/// not yet published. Pictures drained from a single packet supersede one
/// another here — only the freshest survives to publication, which bounds
/// memory and favors freshness over completeness.
#[derive(Debug, PartialEq, Eq)]
pub struct DecodeWorker {
    pub stream_index: usize,
    pub target_width: u32,
    pub target_height: u32,
    pub target_format: PixelFormat,
    pub pending: Option<DisplayFrame>,
}

impl DecodeWorker {
    /// The retained frame, when there is one, carries the pipeline
    /// invariant and the session's target geometry.
    pub open spec fn wf(&self) -> bool {
        self.pending matches Some(f) ==> f.wf() && f.matches_target(
            self.target_width,
            self.target_height,
            self.target_format,
        )
    }

    /// A worker for one session: it filters packets by the selected stream's
    /// index and retains frames of the scaler's target geometry.
    pub fn new(descriptor: &StreamDescriptor, scaler: &Scaler) -> (w: DecodeWorker)
        ensures
            w == (DecodeWorker {
                stream_index: descriptor.stream_index,
                target_width: scaler.config.dst_width,
                target_height: scaler.config.dst_height,
                target_format: scaler.config.dst_format,
                pending: None,
            }),
            w.wf(),
    {
        DecodeWorker {
            stream_index: descriptor.stream_index,
            target_width: scaler.config.dst_width,
            target_height: scaler.config.dst_height,
            target_format: scaler.config.dst_format,
            pending: None,
        }
    }

    /// The worker's transition function: what one event does to the state
    /// and which step follows it.
    pub open spec fn spec_step(pre: DecodeWorker, event: WorkerEvent) -> (DecodeWorker, WorkerStep) {
        match event {
            WorkerEvent::Packet { stream_index } => {
                if stream_index == pre.stream_index {
                    (
                        DecodeWorker {
                            stream_index: pre.stream_index,
                            target_width: pre.target_width,
                            target_height: pre.target_height,
                            target_format: pre.target_format,
                            pending: None,
                        },
                        WorkerStep::DecodePacket { publish: pre.pending },
                    )
                } else {
                    (pre, WorkerStep::SkipPacket)
                }
            },
            WorkerEvent::EndOfStream => (pre, WorkerStep::SeekToStart { timestamp: 0 }),
            WorkerEvent::DecodeFailed => (
                pre,
                WorkerStep::Abort { error: PipelineError::DecodeFailure },
            ),
        }
    }

    /// Decides one event: a packet of the selected stream hands the retained
    /// frame out for publication and clears it; a foreign packet is skipped
    /// untouched; end of stream asks for a seek to timestamp zero with the
    /// state kept, so the frames after the restart repeat the clip from its
    /// first packet; a decode failure aborts the session.
    pub fn step(&mut self, event: WorkerEvent) -> (step: WorkerStep)
        requires
            old(self).wf(),
        ensures
            final (self).wf(),
            (*final (self), step) == DecodeWorker::spec_step(*old(self), event),
    {
        match event {
            WorkerEvent::Packet { stream_index } => {
                if stream_index == self.stream_index {
                    let mut publish: Option<DisplayFrame> = None;
                    core::mem::swap(&mut publish, &mut self.pending);
                    WorkerStep::DecodePacket { publish }
                } else {
                    WorkerStep::SkipPacket
                }
            },
            WorkerEvent::EndOfStream => WorkerStep::SeekToStart { timestamp: 0 },
            WorkerEvent::DecodeFailed => WorkerStep::Abort { error: PipelineError::DecodeFailure },
        }
    }

    /// Adopts one freshly scaled picture: it becomes the retained frame,
    /// superseding and dropping the previous one, which is never displayed.
    pub fn adopt_frame(&mut self, frame: DisplayFrame)
        requires
            old(self).wf(),
            frame.wf(),
            frame.matches_target(
                old(self).target_width,
                old(self).target_height,
                old(self).target_format,
            ),
        ensures
            final (self).wf(),
            final (self).pending == Some(frame),
            final (self).stream_index == old(self).stream_index,
            final (self).target_width == old(self).target_width,
            final (self).target_height == old(self).target_height,
            final (self).target_format == old(self).target_format,
    {
        self.pending = Some(frame);
    }
}

/// The worker preserves the frame invariant: from a well-formed state, any
/// event leads to a well-formed state, and the one frame a step can hand out
/// for publication carries the invariant and the target geometry. With
/// `Scaler::wrap_output` as the only frame source, the invariant holds
/// across the full loop, restarts on end-of-stream included.
pub proof fn lemma_worker_preserves_frame_invariant(w: DecodeWorker, event: WorkerEvent)
    requires
        w.wf(),
    ensures
        DecodeWorker::spec_step(w, event).0.wf(),
        DecodeWorker::spec_step(w, event).1 matches WorkerStep::DecodePacket { publish } ==> (
        publish matches Some(f) ==> f.wf() && f.matches_target(
            w.target_width,
            w.target_height,
            w.target_format,
        )),
{
}

/// After end of stream the worker keeps its state and asks for a seek to
/// timestamp zero, so the packet read next comes from the start of the clip:
/// the restart is a designed transition, not an error path.
pub proof fn lemma_end_of_stream_restarts(w: DecodeWorker)
    ensures
        DecodeWorker::spec_step(w, WorkerEvent::EndOfStream) == (
            w,
            (WorkerStep::SeekToStart { timestamp: 0 }),
        ),
{
}

/// Which frame of an endlessly looped clip of `clip_len` frames is on screen
/// at playback position `position`.
pub open spec fn looped_frame_index(position: nat, clip_len: nat) -> nat
    recommends
        clip_len > 0,
{
    position % clip_len
}

/// Looping repeats the clip identically: one full clip after any position,
/// the same frame of the source sequence comes up again — in particular the
/// frame right after a full loop equals the clip's first.
pub proof fn lemma_playback_repeats(position: nat, clip_len: nat)
    requires
        clip_len > 0,
    ensures
        looped_frame_index(position + clip_len, clip_len) == looped_frame_index(
            position,
            clip_len,
        ),
{
    vstd::arithmetic::div_mod::lemma_mod_add_multiples_vanish(
        position as int,
        clip_len as int,
    );
}

} // verus!
