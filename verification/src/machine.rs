//! The component as a state machine over mathematical values.
//!
//! The executable [`Model`](crate::model::Model) is specified against the
//! functions of this module: every handled message moves its state as
//! [`next`] says and asks for the action that [`action`] names.

use vstd::prelude::*;
use crate::message::Event;
use crate::user::UserView;

verus! {

/// The state of the component. `H` is the type of the handle that stands
/// for a fetch in flight.
#[verifier::ext_equal]
pub struct State<H> {
    /// How often the counter was raised.
    pub counter: int,
    /// The list of the last successful fetch, in the server's order.
    pub users: Seq<UserView>,
    /// The handle of the fetch in flight, if there is one.
    pub pending: Option<H>,
    /// Why the last completed fetch failed, if it did.
    pub error: Option<Seq<char>>,
    /// The address the list is fetched from.
    pub endpoint: Seq<char>,
}

/// What the component asks its surroundings to do after a message.
pub enum Action {
    /// Nothing.
    Nothing,
    /// Send a `GET` request without a body to this address, and report how
    /// it ended with a `ReceiveResponse` message.
    Fetch(Seq<char>),
}

/// The state of a freshly mounted component.
pub open spec fn initial<H>(endpoint: Seq<char>) -> State<H> {
    State { counter: 0, users: Seq::empty(), pending: None, error: None, endpoint }
}

/// The state after `event` was handled in state `s`.
///
/// A `GetUsers` leaves the state as it is: the handle of the new fetch enters
/// the state with [`retained`], once the request was sent.
pub open spec fn next<H>(s: State<H>, event: Event) -> State<H> {
    match event {
        Event::AddOne => State { counter: s.counter + 1, ..s },
        Event::GetUsers => s,
        Event::ReceiveResponse(Ok(users)) => State { users, pending: None, error: None, ..s },
        Event::ReceiveResponse(Err(reason)) => State { pending: None, error: Some(reason), ..s },
    }
}

/// What handling `event` in state `s` asks for. Only a `GetUsers` that finds
/// no fetch in flight starts one; a `GetUsers` during a fetch asks for
/// nothing, so the fetch in flight goes on undisturbed.
pub open spec fn action<H>(s: State<H>, event: Event) -> Action {
    if event is GetUsers && s.pending is None {
        Action::Fetch(s.endpoint)
    } else {
        Action::Nothing
    }
}

/// The state after the handle of a started fetch was offered to state `s`.
/// The handle is kept if no fetch is in flight; otherwise the state keeps
/// the handle it has.
pub open spec fn retained<H>(s: State<H>, handle: H) -> State<H> {
    if s.pending is None {
        State { pending: Some(handle), ..s }
    } else {
        s
    }
}

/// The state after all of `events` were handled, first to last, from `s`.
pub open spec fn run<H>(s: State<H>, events: Seq<Event>) -> State<H>
    decreases events.len(),
{
    if events.len() == 0 {
        s
    } else {
        next(run(s, events.drop_last()), events.last())
    }
}

} // verus!
