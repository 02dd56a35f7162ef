//! The messages that drive the component.

use vstd::prelude::*;
use crate::user::{copy_users, Payload, User, UserView};

verus! {

/// Why a fetch brought no users: the transport failed or the body could not
/// be decoded.
#[derive(Debug, PartialEq, Eq)]
pub struct FetchError {
    /// The failure in words, as it is shown to the user.
    pub reason: String,
}

impl View for FetchError {
    type V = Seq<char>;

    open spec fn view(&self) -> Seq<char> {
        self.reason@
    }
}

impl Clone for FetchError {
    fn clone(&self) -> (copy: FetchError)
        ensures
            copy@ == self@,
    {
        FetchError { reason: self.reason.clone() }
    }
}

/// A message to the component. Every change of its state is the answer to
/// one of these.
#[derive(Debug, PartialEq, Eq)]
pub enum Msg {
    /// The user asked for the counter to go up by one.
    AddOne,
    /// The user list is to be fetched.
    GetUsers,
    /// A fetch has ended, with the decoded list or with the reason it failed.
    ReceiveResponse(Result<Vec<User>, FetchError>),
}

/// A [`Msg`] as a mathematical value.
pub enum Event {
    AddOne,
    GetUsers,
    ReceiveResponse(Result<Seq<UserView>, Seq<char>>),
}

impl View for Msg {
    type V = Event;

    open spec fn view(&self) -> Event {
        match self {
            Msg::AddOne => Event::AddOne,
            Msg::GetUsers => Event::GetUsers,
            Msg::ReceiveResponse(Ok(users)) => Event::ReceiveResponse(Ok(users.deep_view())),
            Msg::ReceiveResponse(Err(error)) => Event::ReceiveResponse(Err(error@)),
        }
    }
}

impl Clone for Msg {
    fn clone(&self) -> (copy: Msg)
        ensures
            copy@ == self@,
    {
        match self {
            Msg::AddOne => Msg::AddOne,
            Msg::GetUsers => Msg::GetUsers,
            Msg::ReceiveResponse(Ok(users)) => Msg::ReceiveResponse(Ok(copy_users(users))),
            Msg::ReceiveResponse(Err(error)) => Msg::ReceiveResponse(Err(error.clone())),
        }
    }
}

/// What a fetch hands to [`Msg::completed`] as a mathematical value: the
/// records of the body, or the reason of the failure.
pub open spec fn outcome_view(outcome: Result<Payload, FetchError>) -> Result<Seq<UserView>, Seq<char>> {
    match outcome {
        Ok(payload) => Ok(payload.records()),
        Err(error) => Err(error@),
    }
}

impl Msg {
    /// The message that reports the end of a fetch. The completion callback
    /// does nothing but send it: the state changes only when the message is
    /// handled.
    pub fn completed(outcome: Result<Payload, FetchError>) -> (msg: Msg)
        ensures
            msg@ == Event::ReceiveResponse(outcome_view(outcome)),
    {
        match outcome {
            Ok(payload) => Msg::ReceiveResponse(Ok(payload.into_users())),
            Err(error) => Msg::ReceiveResponse(Err(error)),
        }
    }
}

} // verus!
