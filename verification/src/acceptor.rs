//! The acceptor: binds once and then serves connections one at a time, for
//! as long as the process lives.
//!
//! The acceptor decides; whoever drives it binds, accepts and runs the
//! sessions. The driver of a fresh acceptor binds the listening address and
//! reports how that went. Each call of [`Acceptor::step`] takes what happened
//! and says what to do next.

use vstd::prelude::*;

verus! {

/// Where an acceptor stands.
#[derive(Clone, Copy, Debug, PartialEq, Eq, Structural)]
pub enum AcceptorState {
    /// The listening address is not bound yet.
    Unbound,
    /// Bound, and waiting for the next connection.
    Listening,
    /// A session is under way on an accepted connection.
    Serving,
    /// The address could not be bound: there is nothing to serve.
    Stopped,
}

/// What happened since the last step.
#[derive(Clone, Copy, Debug, PartialEq, Eq, Structural)]
pub enum AcceptorEvent {
    /// The listening address is bound.
    Bound,
    /// The listening address could not be bound.
    BindFailed,
    /// A connection was accepted.
    Accepted,
    /// Accepting a connection failed.
    AcceptFailed,
    /// The session on the accepted connection is over, well or badly.
    SessionEnded,
}

/// What the driver of an acceptor does next.
#[derive(Clone, Copy, Debug, PartialEq, Eq, Structural)]
pub enum AcceptorAction {
    /// Accept the next connection and report [`AcceptorEvent::Accepted`] or
    /// [`AcceptorEvent::AcceptFailed`].
    Accept,
    /// Run one session on the accepted connection, to its end, and report
    /// [`AcceptorEvent::SessionEnded`].
    Serve,
    /// Give up: the address could not be bound.
    Stop,
}

/// One transition of an acceptor.
///
/// Only a failed bind stops it. Once bound, it accepts, serves the accepted
/// connection to the end, and accepts again; a connection that could not be
/// accepted and a session that went wrong leave it listening.
pub open spec fn acceptor_step(state: AcceptorState, event: AcceptorEvent) -> (
    AcceptorState,
    AcceptorAction,
) {
    match state {
        AcceptorState::Unbound => match event {
            AcceptorEvent::Bound => (AcceptorState::Listening, AcceptorAction::Accept),
            _ => (AcceptorState::Stopped, AcceptorAction::Stop),
        },
        AcceptorState::Listening => match event {
            AcceptorEvent::Accepted => (AcceptorState::Serving, AcceptorAction::Serve),
            _ => (AcceptorState::Listening, AcceptorAction::Accept),
        },
        AcceptorState::Serving => (AcceptorState::Listening, AcceptorAction::Accept),
        AcceptorState::Stopped => (AcceptorState::Stopped, AcceptorAction::Stop),
    }
}

/// An acceptor fed with `events` one after the other: the state it ends in
/// and the actions it asked for.
pub open spec fn acceptor_run(state: AcceptorState, events: Seq<AcceptorEvent>) -> (
    AcceptorState,
    Seq<AcceptorAction>,
)
    decreases events.len(),
{
    if events.len() == 0 {
        (state, Seq::empty())
    } else {
        let (next, action) = acceptor_step(state, events[0]);
        let (last, actions) = acceptor_run(next, events.drop_first());
        (last, seq![action] + actions)
    }
}

/// The accept loop of one listening address.
pub struct Acceptor {
    state: AcceptorState,
}

impl View for Acceptor {
    type V = AcceptorState;

    closed spec fn view(&self) -> AcceptorState {
        self.state
    }
}

impl Acceptor {
    /// A fresh acceptor, whose address is still to be bound.
    pub fn new() -> (acceptor: Acceptor)
        ensures
            acceptor@ == AcceptorState::Unbound,
    {
        Acceptor { state: AcceptorState::Unbound }
    }

    /// Where the acceptor stands.
    pub fn state(&self) -> (state: AcceptorState)
        ensures
            state == self@,
    {
        self.state
    }

    /// Takes what happened and says what to do next.
    pub fn step(&mut self, event: AcceptorEvent) -> (action: AcceptorAction)
        ensures
            (final(self)@, action) == acceptor_step(old(self)@, event),
    {
        let (next, action) = match self.state {
            AcceptorState::Unbound => match event {
                AcceptorEvent::Bound => (AcceptorState::Listening, AcceptorAction::Accept),
                _ => (AcceptorState::Stopped, AcceptorAction::Stop),
            },
            AcceptorState::Listening => match event {
                AcceptorEvent::Accepted => (AcceptorState::Serving, AcceptorAction::Serve),
                _ => (AcceptorState::Listening, AcceptorAction::Accept),
            },
            AcceptorState::Serving => (AcceptorState::Listening, AcceptorAction::Accept),
            AcceptorState::Stopped => (AcceptorState::Stopped, AcceptorAction::Stop),
        };
        self.state = next;
        action
    }
}

/// Once bound, an acceptor never stops: whatever happens, it is listening or
/// serving, and it never asks to stop.
pub proof fn law_bound_acceptor_never_stops(state: AcceptorState, events: Seq<AcceptorEvent>)
    requires
        state is Listening || state is Serving,
    ensures
        acceptor_run(state, events).0 is Listening || acceptor_run(state, events).0 is Serving,
        forall|i: int|
            0 <= i < acceptor_run(state, events).1.len() ==> !(acceptor_run(state, events).1[i]
                is Stop),
    decreases events.len(),
{
    if events.len() > 0 {
        let (next, action) = acceptor_step(state, events[0]);
        law_bound_acceptor_never_stops(next, events.drop_first());
        let rest = acceptor_run(next, events.drop_first()).1;
        let actions = acceptor_run(state, events).1;
        assert(actions == seq![action] + rest);
        assert forall|i: int| 0 <= i < actions.len() implies !(actions[i] is Stop) by {
            if i > 0 {
                assert(actions[i] == rest[i - 1]);
            }
        }
    }
}

/// Connections are served one at a time: after asking for a session, an
/// acceptor asks for the next connection only, so no two sessions overlap.
pub proof fn law_sessions_do_not_overlap(state: AcceptorState, events: Seq<AcceptorEvent>)
    ensures
        acceptor_run(state, events).1.len() == events.len(),
        forall|i: int|
            0 <= i < events.len() - 1 && #[trigger] acceptor_run(state, events).1[i] is Serve
                ==> acceptor_run(state, events).1[i + 1] is Accept,
    decreases events.len(),
{
    if events.len() > 0 {
        let (next, action) = acceptor_step(state, events[0]);
        let tail = events.drop_first();
        law_sessions_do_not_overlap(next, tail);
        let rest = acceptor_run(next, tail).1;
        let actions = acceptor_run(state, events).1;
        assert(actions == seq![action] + rest);
        assert forall|i: int| 0 <= i < events.len() - 1 && #[trigger] actions[i]
            is Serve implies actions[i + 1] is Accept by {
            if i == 0 {
                assert(next is Serving);
                let (after, following) = acceptor_step(next, tail[0]);
                let others = acceptor_run(after, tail.drop_first()).1;
                assert(rest == seq![following] + others);
                assert(actions[1] == rest[0]);
            } else {
                assert(actions[i] == rest[i - 1]);
                assert(actions[i + 1] == rest[i]);
            }
        }
    }
}

} // verus!
