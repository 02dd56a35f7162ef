//! The component's state and its update loop.
//!
//! The state is changed by [`Model::update`] and [`Model::retain`] and by
//! nothing else. `update` handles one message and returns, besides the redraw
//! signal, what the surroundings are to do; they send the request, hand the
//! handle they get to `retain`, and report the end of the fetch with a
//! `ReceiveResponse` message.

use vstd::prelude::*;
use crate::endpoint::Endpoint;
use crate::machine::{action, initial, next, retained, Action, State};
use crate::message::{Event, FetchError, Msg};
use crate::user::User;

verus! {

/// What [`Model::update`] asks its caller to do.
#[derive(Debug, PartialEq, Eq)]
pub enum Effect {
    /// Nothing.
    Nothing,
    /// Send a `GET` request without a body to this endpoint, keep the handle
    /// with [`Model::retain`], and report how the request ended with
    /// [`Msg::completed`].
    Fetch(Endpoint),
}

impl View for Effect {
    type V = Action;

    open spec fn view(&self) -> Action {
        match self {
            Effect::Nothing => Action::Nothing,
            Effect::Fetch(endpoint) => Action::Fetch(endpoint@),
        }
    }
}

/// The outcome of handling one message.
#[derive(Debug, PartialEq, Eq)]
pub struct Step {
    /// Whether what is shown must be computed anew.
    pub redraw: bool,
    /// What the caller is to do now.
    pub effect: Effect,
}

/// The component: a counter, the users last fetched, and the handle of the
/// fetch in flight. `H` is the type of that handle; dropping a handle may
/// cancel its request, so the model holds it until the fetch has ended.
pub struct Model<H> {
    value: i64,
    users: Vec<User>,
    fetch_task: Option<H>,
    error: Option<FetchError>,
    endpoint: Endpoint,
}

impl<H> Model<H> {
    /// The state of the component as mathematical values.
    pub closed spec fn state(&self) -> State<H> {
        State {
            counter: self.value as int,
            users: self.users.deep_view(),
            pending: self.fetch_task,
            error: match self.error {
                Some(error) => Some(error@),
                None => None,
            },
            endpoint: self.endpoint@,
        }
    }

    /// Mounts the component: the state is the initial one, and the message
    /// returned with it is the `GetUsers` that the caller enqueues, once, to
    /// load the list.
    pub fn create(endpoint: Endpoint) -> (mounted: (Model<H>, Msg))
        ensures
            mounted.0.state() == initial::<H>(endpoint@),
            mounted.1@ == Event::GetUsers,
    {
        let model = Model {
            value: 0,
            users: Vec::new(),
            fetch_task: None,
            error: None,
            endpoint,
        };
        assert(model.users.deep_view() =~= Seq::empty());
        (model, Msg::GetUsers)
    }

    /// Handles one message. The new state and the effect are those of the
    /// state machine, and every message asks for a redraw.
    ///
    /// The counter is a 64-bit integer: it cannot be raised beyond the
    /// largest of them.
    pub fn update(&mut self, msg: Msg) -> (step: Step)
        requires
            msg is AddOne ==> old(self).state().counter < i64::MAX,
        ensures
            final(self).state() == next(old(self).state(), msg@),
            step.effect@ == action(old(self).state(), msg@),
            step.redraw,
    {
        match msg {
            Msg::GetUsers => {
                if self.fetch_task.is_none() {
                    Step { redraw: true, effect: Effect::Fetch(self.endpoint.clone()) }
                } else {
                    Step { redraw: true, effect: Effect::Nothing }
                }
            },
            Msg::AddOne => {
                self.value = self.value + 1;
                Step { redraw: true, effect: Effect::Nothing }
            },
            Msg::ReceiveResponse(response) => {
                match response {
                    Ok(users) => {
                        self.users = users;
                        self.error = None;
                    },
                    Err(error) => {
                        self.error = Some(error);
                    },
                }
                self.fetch_task = None;
                Step { redraw: true, effect: Effect::Nothing }
            },
        }
    }

    /// Takes the handle of a fetch that was just started. It is kept until
    /// the fetch has ended. If a fetch is already in flight, its handle stays
    /// and the new one comes back to the caller, who by dropping it cancels
    /// the second request.
    pub fn retain(&mut self, handle: H) -> (refused: Option<H>)
        ensures
            final(self).state() == retained(old(self).state(), handle),
            refused == if old(self).state().pending is None {
                None
            } else {
                Some(handle)
            },
    {
        if self.fetch_task.is_none() {
            self.fetch_task = Some(handle);
            None
        } else {
            Some(handle)
        }
    }

    /// The counter.
    pub fn value(&self) -> (value: i64)
        ensures
            value == self.state().counter,
    {
        self.value
    }

    /// The users of the last successful fetch.
    pub fn users(&self) -> (users: &Vec<User>)
        ensures
            users.deep_view() == self.state().users,
    {
        &self.users
    }

    /// Whether a fetch is in flight.
    pub fn is_fetching(&self) -> (fetching: bool)
        ensures
            fetching == self.state().pending is Some,
    {
        self.fetch_task.is_some()
    }

    /// The handle of the fetch in flight.
    pub fn fetch_task(&self) -> (handle: Option<&H>)
        ensures
            handle is Some == self.state().pending is Some,
            handle matches Some(h) ==> self.state().pending == Some(*h),
    {
        self.fetch_task.as_ref()
    }

    /// Why the last completed fetch failed, if it did.
    pub fn error(&self) -> (error: Option<&FetchError>)
        ensures
            error is Some == self.state().error is Some,
            error matches Some(e) ==> self.state().error == Some(e@),
    {
        self.error.as_ref()
    }

    /// The endpoint the users are fetched from.
    pub fn endpoint(&self) -> (endpoint: &Endpoint)
        ensures
            endpoint@ == self.state().endpoint,
    {
        &self.endpoint
    }
}

} // verus!
