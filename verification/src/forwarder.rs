//! The consuming side of the feed: one forwarder per viewer.
//!
//! A forwarder bridges one subscription to one outbound transport.
//! The loop that owns the transport performs the waiting, receiving
//! and writing; every decision in between — what to do with each
//! receive outcome, what to write, when to stop — is taken here, so
//! that a transport failure terminates exactly its own forwarder.

use crate::broadcaster::RecvOutcome;
use crate::codec::encode_snapshot;
use crate::codec::json_of;
use vstd::prelude::*;

verus! {

/// Whether the forwarder still serves its viewer.
pub enum ForwarderStatus {
    Active,
    Stopped,
}

/// What the loop around a forwarder observed since its last step.
pub enum ForwarderEvent {
    /// The subscription's receive call came back with this outcome.
    Outcome(RecvOutcome),
    /// The transport write of the last payload succeeded, or failed
    /// because the viewer is gone.
    Wrote(bool),
}

/// What the loop around a forwarder must do next.
pub enum ForwarderAction {
    /// Call receive on the subscription now.
    Receive,
    /// Wait until something new may have been published, then
    /// receive.
    Wait,
    /// Write this payload to the viewer's transport.
    Write(Vec<u8>),
    /// Deregister the subscription and release the transport. Once
    /// asked for, this is the only action ever asked for again, so
    /// the cleanup happens exactly once, when the loop obeys and
    /// exits.
    Stop,
}

/// The per-viewer decision machine.
pub struct Forwarder {
    status: ForwarderStatus,
}

impl Forwarder {
    /// Whether this forwarder still serves its viewer.
    pub closed spec fn is_active(&self) -> bool {
        self.status is Active
    }

    /// A forwarder starts serving as soon as its viewer connects.
    pub fn new() -> (f: Forwarder)
        ensures
            f.is_active(),
    {
        Forwarder { status: ForwarderStatus::Active }
    }

    /// Exec mirror of `is_active`.
    pub fn active(&self) -> (b: bool)
        ensures
            b == self.is_active(),
    {
        match &self.status {
            ForwarderStatus::Active => true,
            ForwarderStatus::Stopped => false,
        }
    }

    /// One decision step. A delivered snapshot is encoded and written
    /// out; a lag is tolerated silently (most recent wins) and the
    /// forwarder reads on; nothing new means wait; a shutdown of the
    /// feed or a failed write stops this forwarder — and only this
    /// one — for good.
    pub fn step(&mut self, event: ForwarderEvent) -> (action: ForwarderAction)
        requires
            event matches ForwarderEvent::Outcome(RecvOutcome::Received { seq, snapshot })
                ==> snapshot.wf(),
        ensures
            old(self).is_active() ==> (event matches ForwarderEvent::Outcome(
                RecvOutcome::Received { seq, snapshot },
            ) ==> action matches ForwarderAction::Write(payload) && payload@ == json_of(snapshot@)
                && final(self).is_active()),
            old(self).is_active() ==> (event matches ForwarderEvent::Outcome(
                RecvOutcome::Lagged { missed },
            ) ==> action is Receive && final(self).is_active()),
            old(self).is_active() ==> (event matches ForwarderEvent::Outcome(RecvOutcome::Pending)
                ==> action is Wait && final(self).is_active()),
            old(self).is_active() ==> (event matches ForwarderEvent::Outcome(RecvOutcome::Closed)
                ==> action is Stop && !final(self).is_active()),
            old(self).is_active() ==> (event matches ForwarderEvent::Wrote(ok) && ok ==> action
                is Receive && final(self).is_active()),
            old(self).is_active() ==> (event matches ForwarderEvent::Wrote(ok) && !ok ==> action
                is Stop && !final(self).is_active()),
            !old(self).is_active() ==> action is Stop && !final(self).is_active(),
    {
        let still_active = self.active();
        if !still_active {
            return ForwarderAction::Stop;
        }
        match event {
            ForwarderEvent::Outcome(outcome) => match outcome {
                RecvOutcome::Received { seq: _, snapshot } => ForwarderAction::Write(
                    encode_snapshot(&snapshot),
                ),
                RecvOutcome::Lagged { missed: _ } => ForwarderAction::Receive,
                RecvOutcome::Pending => ForwarderAction::Wait,
                RecvOutcome::Closed => {
                    self.status = ForwarderStatus::Stopped;
                    ForwarderAction::Stop
                },
            },
            ForwarderEvent::Wrote(ok) => {
                if ok {
                    ForwarderAction::Receive
                } else {
                    self.status = ForwarderStatus::Stopped;
                    ForwarderAction::Stop
                }
            },
        }
    }
}

} // verus!
