//! The update/render core of a small interactive component: a click counter
//! and a list of users fetched from a remote endpoint.
//!
//! The component is a state machine driven by messages. [`model::Model`]
//! holds the state; its `update` handles one message at a time and answers
//! with the redraw signal and with what is to be done outside, and its `view`
//! describes what is to be shown. Sending the request, decoding the response
//! and drawing the page are left to the caller.
//!
//! - [`machine`]: the state machine over mathematical values, against which
//!   the model is specified;
//! - [`laws`]: what holds of that machine over whole courses of messages;
//! - [`model`]: the executable state and its update loop;
//! - [`page`]: the description of the display;
//! - [`message`], [`user`]: the messages and the records they carry;
//! - [`endpoint`]: the address the users are fetched from.

pub mod endpoint;
pub mod laws;
pub mod machine;
pub mod message;
pub mod model;
pub mod page;
pub mod user;
