//! The address the user list is fetched from.
//!
//! An address is checked once, when it is configured: an [`Endpoint`] only
//! exists for a text that the request builder accepts, so that building the
//! request for a fetch cannot fail later on.

use vstd::prelude::*;
use yew::format::Nothing;
use yew::services::fetch::Request;

verus! {

/// The address of the development server.
pub const DEFAULT_ENDPOINT: &'static str = "http://localhost:8000/";

/// Whether the request builder of the `http` crate (which `yew` hands on as
/// `yew::services::fetch::Request`) accepts `url` as the target of a `GET`
/// request without a body.
pub uninterp spec fn get_request_builds(url: Seq<char>) -> bool;

/// Calls `Request::get(url).body(Nothing)` and reports whether a request came
/// out. The builder parses `url` and looks at nothing else, so the answer is a
/// function of the text alone; which texts pass is left to
/// [`get_request_builds`].
#[verifier::external_body]
fn builds_get_request(url: &str) -> (ok: bool)
    ensures
        ok == get_request_builds(url@),
{
    Request::get(url).body(Nothing).is_ok()
}

/// A configured address that no `GET` request can be built for.
#[derive(Debug, PartialEq, Eq)]
pub struct MalformedEndpoint {
    /// The text that was refused.
    pub url: String,
}

/// An address that a `GET` request can be built for.
#[derive(Debug, PartialEq, Eq)]
pub struct Endpoint {
    url: String,
}

impl View for Endpoint {
    type V = Seq<char>;

    closed spec fn view(&self) -> Seq<char> {
        self.url@
    }
}

impl Clone for Endpoint {
    fn clone(&self) -> (copy: Endpoint)
        ensures
            copy@ == self@,
    {
        proof {
            use_type_invariant(self);
        }
        Endpoint { url: self.url.clone() }
    }
}

impl Endpoint {
    #[verifier::type_invariant]
    spec fn well_formed(self) -> bool {
        get_request_builds(self.url@)
    }

    /// Turns the builder's verdict on `url` into an endpoint or an error:
    /// an endpoint with this address if the builder accepted it, and the
    /// text handed back in the error otherwise.
    pub fn with_verdict(url: String, builds: bool) -> (r: Result<Endpoint, MalformedEndpoint>)
        requires
            builds ==> get_request_builds(url@),
        ensures
            builds ==> (r matches Ok(e) && e@ == url@),
            !builds ==> (r matches Err(e) && e.url@ == url@),
    {
        if builds {
            Ok(Endpoint { url })
        } else {
            Err(MalformedEndpoint { url })
        }
    }

    /// Checks `url` with the request builder and keeps it if it passes.
    pub fn parse(url: String) -> (r: Result<Endpoint, MalformedEndpoint>)
        ensures
            get_request_builds(url@) ==> (r matches Ok(e) && e@ == url@),
            !get_request_builds(url@) ==> (r matches Err(e) && e.url@ == url@),
    {
        let builds: bool = builds_get_request(url.as_str());
        Endpoint::with_verdict(url, builds)
    }

    /// The address as text.
    pub fn as_str(&self) -> (url: &str)
        ensures
            url@ == self@,
            get_request_builds(url@),
    {
        proof {
            use_type_invariant(self);
        }
        self.url.as_str()
    }
}

} // verus!
