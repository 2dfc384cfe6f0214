//! The streaming session: one cooperative relay per connected observer that
//! forwards bus deliveries onward as discrete server-push messages and
//! terminates on external cancellation or bus closure.

use vstd::prelude::*;
use crate::bus::{cursor_after, delivery_at, ready, Delivery, EventBus, Subscription};
use crate::models::TimeStamp;

verus! {

/// Lifecycle of one streaming connection.
#[derive(Copy, Clone, Debug, PartialEq, Eq, Structural)]
pub enum SessionState {
    Active,
    Terminated,
}

/// What the transport layer must do after one step of the relay loop.
#[derive(Copy, Clone, Debug, PartialEq, Eq, Structural)]
pub enum SessionAction {
    /// Send this event to the observer as one discrete protocol message.
    Emit(TimeStamp),
    /// Nothing to send right now (no pending delivery, or a lag notice that
    /// is skipped silently); wait for the next delivery or for cancellation.
    Wait,
    /// The session is over; tear the connection down and step it no more.
    Stop,
}

/// One observer's relay: a subscription to the bus plus the session state.
/// While `Active`, each `step` reacts to the first of {next bus delivery,
/// cancellation signal}; once `Terminated` it never emits again.
pub struct StreamSession {
    state: SessionState,
    sub: Subscription,
}

impl StreamSession {
    /// The session's lifecycle state.
    pub closed spec fn state(&self) -> SessionState {
        self.state
    }

    /// The cursor of the session's subscription into the bus's publish
    /// sequence.
    pub closed spec fn position(&self) -> int {
        self.sub.position()
    }

    /// Reads the session's current lifecycle state.
    pub fn current_state(&self) -> (r: SessionState)
        ensures
            r == self.state(),
    {
        self.state
    }

    /// Opens a session for a newly connected observer: active, subscribed
    /// at "now", so it relays exactly the events published from this moment
    /// on.
    pub fn open(bus: &EventBus) -> (r: StreamSession)
        requires
            bus.wf(),
        ensures
            r.state() == SessionState::Active,
            r.position() == bus.published(),
    {
        StreamSession { state: SessionState::Active, sub: bus.subscribe() }
    }

    /// One turn of the relay loop. `cancelled` reports whether the external
    /// cancellation signal has fired since the last turn.
    ///
    /// An active session terminates on cancellation or on a `Closed`
    /// delivery, emits each delivered event exactly once in delivery order,
    /// and skips lag notices silently; a terminated session does nothing.
    /// In particular, once `cancelled` holds the session is `Terminated`
    /// after this single step and emits nothing — and a terminated session
    /// never emits again, whatever is published later.
    pub fn step(&mut self, bus: &EventBus, cancelled: bool) -> (a: SessionAction)
        requires
            bus.wf(),
            0 <= old(self).position() <= bus.published(),
        ensures
            old(self).state() == SessionState::Terminated ==> a == SessionAction::Stop
                && *final(self) == *old(self),
            cancelled && old(self).state() == SessionState::Active ==> a == SessionAction::Stop
                && final(self).state() == SessionState::Terminated && final(self).position()
                == old(self).position(),
            !cancelled && old(self).state() == SessionState::Active && !ready(
                *bus,
                old(self).position(),
            ) ==> a == SessionAction::Wait && *final(self) == *old(self),
            !cancelled && old(self).state() == SessionState::Active && ready(
                *bus,
                old(self).position(),
            ) ==> final(self).position() == cursor_after(*bus, old(self).position()) && (match
            delivery_at(*bus, old(self).position()) {
                Delivery::Value(e) => a == SessionAction::Emit(e) && final(self).state()
                    == SessionState::Active,
                Delivery::Lagged(_) => a == SessionAction::Wait && final(self).state()
                    == SessionState::Active,
                Delivery::Closed => a == SessionAction::Stop && final(self).state()
                    == SessionState::Terminated,
            }),
            a matches SessionAction::Emit(e) ==> !cancelled && old(self).state()
                == SessionState::Active && ready(*bus, old(self).position()) && e == bus.log()[
                old(self).position()
            ],
            0 <= final(self).position() <= bus.published(),
    {
        match self.state {
            SessionState::Terminated => SessionAction::Stop,
            SessionState::Active => {
                if cancelled {
                    self.state = SessionState::Terminated;
                    SessionAction::Stop
                } else {
                    match self.sub.next(bus) {
                        None => SessionAction::Wait,
                        Some(Delivery::Value(e)) => SessionAction::Emit(e),
                        Some(Delivery::Lagged(_)) => SessionAction::Wait,
                        Some(Delivery::Closed) => {
                            self.state = SessionState::Terminated;
                            SessionAction::Stop
                        },
                    }
                }
            },
        }
    }
}

} // verus!
