use vstd::prelude::*;

use crate::frame::DisplayFrame;

verus! {

/// What one poll of the frame channel yields.
#[derive(Debug, PartialEq, Eq)]
pub enum PollResult {
    /// A newer frame was pending; it is handed over.
    Frame(DisplayFrame),
    /// Nothing newer is pending; the poll returns at once and the consumer
    /// keeps its current frame.
    Empty,
    /// The producer is gone and nothing is pending: the terminal signal.
    Disconnected,
}

/// The frame hand-off between the decode worker and the presentation loop:
/// a single-slot latest-value cell. The producer never blocks and never
/// queues a backlog — a send onto an occupied slot supersedes the pending
/// frame, which is dropped, never displayed. The consumer polls without
/// blocking; a pending frame left at disconnect is still delivered before
/// the disconnect is reported.
#[derive(Debug, PartialEq, Eq)]
pub struct FrameChannel {
    pub pending: Option<DisplayFrame>,
    pub disconnected: bool,
}

impl FrameChannel {
    /// A fresh channel: nothing pending, producer attached.
    pub fn new() -> (c: FrameChannel)
        ensures
            c.pending is None,
            !c.disconnected,
    {
        FrameChannel { pending: None, disconnected: false }
    }

    /// The producer publishes a frame. It never blocks: the frame takes the
    /// slot, superseding and dropping whatever was pending. Returns whether
    /// the channel still had a consumer side to take it.
    pub fn send(&mut self, frame: DisplayFrame) -> (accepted: bool)
        ensures
            accepted == !old(self).disconnected,
            final (self).disconnected == old(self).disconnected,
            !old(self).disconnected ==> final (self).pending == Some(frame),
            old(self).disconnected ==> final (self).pending == old(self).pending,
    {
        if self.disconnected {
            false
        } else {
            self.pending = Some(frame);
            true
        }
    }

    /// The producer side goes away. A frame already pending stays pending
    /// and is still delivered by the next poll.
    pub fn disconnect(&mut self)
        ensures
            final (self).disconnected,
            final (self).pending == old(self).pending,
    {
        self.disconnected = true;
    }

    /// One non-blocking poll by the consumer: a pending frame is taken,
    /// an empty connected slot reports `Empty` at once, and an empty slot
    /// whose producer is gone reports `Disconnected`.
    pub fn try_recv(&mut self) -> (r: PollResult)
        ensures
            final (self).disconnected == old(self).disconnected,
            final (self).pending is None,
            match r {
                PollResult::Frame(f) => old(self).pending == Some(f),
                PollResult::Empty => old(self).pending is None && !old(self).disconnected,
                PollResult::Disconnected => old(self).pending is None && old(self).disconnected,
            },
    {
        let mut taken: Option<DisplayFrame> = None;
        core::mem::swap(&mut taken, &mut self.pending);
        match taken {
            Some(f) => PollResult::Frame(f),
            None => if self.disconnected {
                PollResult::Disconnected
            } else {
                PollResult::Empty
            },
        }
    }
}

} // verus!
