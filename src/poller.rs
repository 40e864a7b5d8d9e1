use vstd::prelude::*;

use crate::decode::decode_spec;
use crate::error::LayouterError;
use crate::keyboard::Keyboard;
use crate::layer::Layer;

verus! {

/// What happened to the polling loop since its last decision.
#[derive(Debug, Clone, Copy)]
pub enum PollEvent {
    /// The tick's read returned this report; a read with no data gives all zeros.
    Report([u8; 4]),
    /// The tick's read failed.
    ReadFailed,
    /// The layer handed out last was accepted by the channel.
    Sent,
    /// The channel refused the layer handed out last: its consumer is gone.
    SendFailed,
    /// Cancellation was signalled.
    Cancelled,
}

/// What the polling loop does next.
#[derive(Debug, Clone, Copy, PartialEq, Eq, Structural)]
pub enum PollAction {
    /// Nothing to do until the next tick.
    Wait,
    /// Send this layer to the renderer, then report `Sent` or `SendFailed`.
    Deliver(Layer),
    /// Leave the loop cleanly.
    Stop,
    /// Leave the loop with this error.
    Fail(LayouterError),
}

/// Where the polling loop stands.
#[derive(Debug, Clone, Copy, PartialEq, Eq, Structural)]
pub enum PollPhase {
    Running,
    /// A changed layer was handed out and its send is outstanding.
    Delivering(Layer),
    Stopped,
}

/// The decisions of the polling loop: the keyboard session, the last layer
/// that reached the channel, and the loop's phase.
#[derive(Debug, Clone, Copy, PartialEq, Eq, Structural)]
pub struct Poller {
    pub keyboard: Keyboard,
    pub sent_layer: Layer,
    pub phase: PollPhase,
}

/// The same poller, stopped.
pub open spec fn stopped(p: Poller) -> Poller {
    Poller { phase: PollPhase::Stopped, ..p }
}

/// The poller's next state and action after `e`.
pub open spec fn poll_next(p: Poller, e: PollEvent) -> (Poller, PollAction) {
    match p.phase {
        PollPhase::Stopped => (p, PollAction::Stop),
        PollPhase::Running => match e {
            PollEvent::Report(report) => match decode_spec(report@, p.keyboard.current_layer) {
                Ok(l) => {
                    let p1 = Poller { keyboard: Keyboard { current_layer: l, ..p.keyboard }, ..p };
                    if l == p.sent_layer {
                        (p1, PollAction::Wait)
                    } else {
                        (Poller { phase: PollPhase::Delivering(l), ..p1 }, PollAction::Deliver(l))
                    }
                },
                Err(_) => (stopped(p), PollAction::Fail(LayouterError::InvalidLayer)),
            },
            PollEvent::ReadFailed => (stopped(p), PollAction::Fail(LayouterError::DeviceIo)),
            PollEvent::Cancelled => (stopped(p), PollAction::Stop),
            PollEvent::Sent => (p, PollAction::Wait),
            PollEvent::SendFailed => (p, PollAction::Wait),
        },
        PollPhase::Delivering(l) => match e {
            PollEvent::Sent => (Poller { sent_layer: l, phase: PollPhase::Running, ..p }, PollAction::Wait),
            PollEvent::SendFailed => (stopped(p), PollAction::Fail(LayouterError::ChannelDisconnected)),
            PollEvent::Cancelled => (stopped(p), PollAction::Stop),
            _ => (p, PollAction::Wait),
        },
    }
}

impl Poller {
    /// A running poller over a fresh session, with the base layer taken as
    /// already known downstream.
    pub fn new(keyboard: Keyboard) -> (r: Poller)
        ensures
            r == (Poller { keyboard, sent_layer: Layer::Base, phase: PollPhase::Running }),
    {
        Poller { keyboard, sent_layer: Layer::Base, phase: PollPhase::Running }
    }

    /// Whether the loop has ended.
    pub fn is_stopped(&self) -> (r: bool)
        ensures
            r == (self.phase == PollPhase::Stopped),
    {
        match self.phase {
            PollPhase::Stopped => true,
            _ => false,
        }
    }

    /// Decides what the polling loop does after `event`. Only a layer that
    /// differs from the last one sent is handed out; a failed send, a failed
    /// read or an invalid layer ends the loop with its error, and
    /// cancellation ends it cleanly.
    pub fn step(&mut self, event: PollEvent) -> (a: PollAction)
        ensures
            (*final(self), a) == poll_next(*old(self), event),
    {
        match self.phase {
            PollPhase::Stopped => PollAction::Stop,
            PollPhase::Running => match event {
                PollEvent::Report(report) => match self.keyboard.get_current_layer(report) {
                    Ok(l) => {
                        if l == self.sent_layer {
                            PollAction::Wait
                        } else {
                            self.phase = PollPhase::Delivering(l);
                            PollAction::Deliver(l)
                        }
                    },
                    Err(_) => {
                        self.phase = PollPhase::Stopped;
                        PollAction::Fail(LayouterError::InvalidLayer)
                    },
                },
                PollEvent::ReadFailed => {
                    self.phase = PollPhase::Stopped;
                    PollAction::Fail(LayouterError::DeviceIo)
                },
                PollEvent::Cancelled => {
                    self.phase = PollPhase::Stopped;
                    PollAction::Stop
                },
                PollEvent::Sent => PollAction::Wait,
                PollEvent::SendFailed => PollAction::Wait,
            },
            PollPhase::Delivering(l) => match event {
                PollEvent::Sent => {
                    self.sent_layer = l;
                    self.phase = PollPhase::Running;
                    PollAction::Wait
                },
                PollEvent::SendFailed => {
                    self.phase = PollPhase::Stopped;
                    PollAction::Fail(LayouterError::ChannelDisconnected)
                },
                PollEvent::Cancelled => {
                    self.phase = PollPhase::Stopped;
                    PollAction::Stop
                },
                _ => PollAction::Wait,
            },
        }
    }
}

/// A poller whose send fails ends with `ChannelDisconnected`, and a stopped
/// poller stays stopped whatever comes next: it never hands out a layer again.
pub proof fn lemma_send_failure_ends_poller(p: Poller, l: Layer, later: PollEvent)
    requires
        p.phase == PollPhase::Delivering(l),
    ensures
        poll_next(p, PollEvent::SendFailed) == (
        stopped(p),
        PollAction::Fail(LayouterError::ChannelDisconnected),
        ),
        poll_next(stopped(p), later) == (stopped(p), PollAction::Stop),
{
}

/// A poller whose outstanding send, if any, carries a layer other than the
/// one last sent.
pub open spec fn no_pending_repeat(p: Poller) -> bool {
    match p.phase {
        PollPhase::Delivering(l) => l != p.sent_layer,
        _ => true,
    }
}

/// The poller never hands out the layer that was sent last, so consecutive
/// layers on the channel always differ; every step keeps this so.
pub proof fn lemma_no_repeated_delivery(p: Poller, e: PollEvent)
    requires
        no_pending_repeat(p),
    ensures
        no_pending_repeat(poll_next(p, e).0),
        forall|l: Layer| poll_next(p, e).1 == PollAction::Deliver(l) ==> l != p.sent_layer,
{
}

} // verus!
