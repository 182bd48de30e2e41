use vstd::prelude::*;

use crate::channel::PollResult;
use crate::frame::{DisplayFrame, PixelFormat};

verus! {

/// The presentation loop's phases. It blocks only before the first frame —
/// there is nothing to draw until one arrives — then ticks at the fixed
/// refresh cadence, and terminates only on channel disconnect.
#[derive(Clone, Copy, Debug, PartialEq, Eq, Structural)]
pub enum PresenterPhase {
    AwaitingFirstFrame,
    Running,
    Terminated,
}

/// What the display side must do after one tick's poll.
#[derive(Clone, Copy, Debug, PartialEq, Eq, Structural)]
pub enum TickAction {
    /// No frame yet: keep waiting on the channel; nothing is drawn.
    KeepWaiting,
    /// A new frame was adopted: rebuild the native image handle around its
    /// buffer — the old handle must never outlive the buffer it viewed —
    /// then draw, composite onto the root surface, and flush.
    AdoptAndDraw,
    /// Nothing newer arrived: redraw the retained frame unchanged with its
    /// existing handle, avoiding flicker and any wait on the producer.
    RedrawCurrent,
    /// The producer is gone: release the native resources — drawable,
    /// graphics context, display connection — and stop.
    ReleaseResources,
    /// Already terminated: nothing may be done any more.
    Stopped,
}

/// The presentation loop's decision state: the target geometry every
/// adopted frame must carry, the phase, the currently displayed frame, and
/// whether the native resources were already released.
#[derive(Debug, PartialEq, Eq)]
pub struct Presenter {
    pub target_width: u32,
    pub target_height: u32,
    pub target_format: PixelFormat,
    pub phase: PresenterPhase,
    pub current: Option<DisplayFrame>,
    pub released: bool,
}

impl Presenter {
    /// Exactly the running phase holds a frame; that frame carries the
    /// pipeline invariant and the target geometry; and the resources are
    /// released exactly in the terminated phase.
    pub open spec fn wf(&self) -> bool {
        &&& (self.current is Some <==> self.phase == PresenterPhase::Running)
        &&& (self.current matches Some(f) ==> f.wf() && f.matches_target(
            self.target_width,
            self.target_height,
            self.target_format,
        ))
        &&& (self.released <==> self.phase == PresenterPhase::Terminated)
    }

    /// A presenter for one session's target geometry, waiting for the first
    /// frame.
    pub fn new(target_width: u32, target_height: u32, target_format: PixelFormat) -> (p: Presenter)
        ensures
            p == (Presenter {
                target_width,
                target_height,
                target_format,
                phase: PresenterPhase::AwaitingFirstFrame,
                current: None,
                released: false,
            }),
            p.wf(),
    {
        Presenter {
            target_width,
            target_height,
            target_format,
            phase: PresenterPhase::AwaitingFirstFrame,
            current: None,
            released: false,
        }
    }

    /// The presenter's transition function: what one poll outcome does to
    /// the state and which action the display side must take.
    pub open spec fn spec_tick(pre: Presenter, poll: PollResult) -> (Presenter, TickAction) {
        match pre.phase {
            PresenterPhase::AwaitingFirstFrame => match poll {
                PollResult::Frame(f) => (
                    Presenter {
                        phase: PresenterPhase::Running,
                        current: Some(f),
                        ..pre
                    },
                    TickAction::AdoptAndDraw,
                ),
                PollResult::Empty => (pre, TickAction::KeepWaiting),
                PollResult::Disconnected => (
                    Presenter { phase: PresenterPhase::Terminated, released: true, ..pre },
                    TickAction::ReleaseResources,
                ),
            },
            PresenterPhase::Running => match poll {
                PollResult::Frame(f) => (
                    Presenter { current: Some(f), ..pre },
                    TickAction::AdoptAndDraw,
                ),
                PollResult::Empty => (pre, TickAction::RedrawCurrent),
                PollResult::Disconnected => (
                    Presenter {
                        phase: PresenterPhase::Terminated,
                        current: None,
                        released: true,
                        ..pre
                    },
                    TickAction::ReleaseResources,
                ),
            },
            PresenterPhase::Terminated => (pre, TickAction::Stopped),
        }
    }

    /// Decides one tick from its poll outcome. A new frame replaces the
    /// current one and the image handle is rebuilt; an empty poll keeps and
    /// redraws the current frame, so the loop never waits on the producer; a
    /// disconnect moves to the terminated phase and releases the native
    /// resources, once; after termination nothing more is done.
    pub fn tick(&mut self, poll: PollResult) -> (action: TickAction)
        requires
            old(self).wf(),
            poll matches PollResult::Frame(f) ==> f.wf() && f.matches_target(
                old(self).target_width,
                old(self).target_height,
                old(self).target_format,
            ),
        ensures
            final (self).wf(),
            (*final (self), action) == Presenter::spec_tick(*old(self), poll),
    {
        match self.phase {
            PresenterPhase::AwaitingFirstFrame => match poll {
                PollResult::Frame(f) => {
                    self.current = Some(f);
                    self.phase = PresenterPhase::Running;
                    TickAction::AdoptAndDraw
                },
                PollResult::Empty => TickAction::KeepWaiting,
                PollResult::Disconnected => {
                    self.phase = PresenterPhase::Terminated;
                    self.released = true;
                    TickAction::ReleaseResources
                },
            },
            PresenterPhase::Running => match poll {
                PollResult::Frame(f) => {
                    self.current = Some(f);
                    TickAction::AdoptAndDraw
                },
                PollResult::Empty => TickAction::RedrawCurrent,
                PollResult::Disconnected => {
                    self.current = None;
                    self.phase = PresenterPhase::Terminated;
                    self.released = true;
                    TickAction::ReleaseResources
                },
            },
            PresenterPhase::Terminated => TickAction::Stopped,
        }
    }
}

/// After the first frame the loop never blocks on the producer: a tick whose
/// poll finds the channel empty changes nothing and redraws the frame it
/// already holds — the decision is total and waits on nothing.
pub proof fn lemma_empty_poll_reuses_frame(p: Presenter)
    requires
        p.phase == PresenterPhase::Running,
    ensures
        Presenter::spec_tick(p, PollResult::Empty) == (p, TickAction::RedrawCurrent),
{
}

/// A disconnect observed in any phase before termination moves the
/// presenter to the terminated phase, with the native resources released.
pub proof fn lemma_disconnect_terminates(p: Presenter)
    requires
        p.phase != PresenterPhase::Terminated,
    ensures
        Presenter::spec_tick(p, PollResult::Disconnected).0.phase == PresenterPhase::Terminated,
        Presenter::spec_tick(p, PollResult::Disconnected).0.released,
        Presenter::spec_tick(p, PollResult::Disconnected).1 == TickAction::ReleaseResources,
{
}

/// The native resources are released exactly once: a terminated presenter
/// never asks for another release — nor any other operation — and never
/// changes again, whatever a further poll yields.
pub proof fn lemma_release_exactly_once(p: Presenter, poll: PollResult)
    requires
        p.phase == PresenterPhase::Terminated,
    ensures
        Presenter::spec_tick(p, poll).0 == p,
        Presenter::spec_tick(p, poll).1 == TickAction::Stopped,
{
}

/// The presenter preserves the frame invariant: from a well-formed state,
/// any poll whose frame carries the invariant and the target geometry leads
/// to a well-formed state — the frame on screen always has the negotiated
/// buffer length.
pub proof fn lemma_presenter_preserves_frame_invariant(p: Presenter, poll: PollResult)
    requires
        p.wf(),
        poll matches PollResult::Frame(f) ==> f.wf() && f.matches_target(
            p.target_width,
            p.target_height,
            p.target_format,
        ),
    ensures
        Presenter::spec_tick(p, poll).0.wf(),
{
}

} // verus!
