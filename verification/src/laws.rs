//! What holds of the state machine over whole courses of messages.

use vstd::prelude::*;
use crate::machine::{action, initial, next, retained, run, Action, State};
use crate::message::Event;
use crate::page::rendered;
use crate::user::UserView;

verus! {

/// Handling `AddOne` messages, however many, adds their number to the
/// counter and changes nothing else.
pub proof fn lemma_increments_add_up<H>(s: State<H>, events: Seq<Event>)
    requires
        forall|i: int| 0 <= i < events.len() ==> events[i] is AddOne,
    ensures
        run(s, events) == (State { counter: s.counter + events.len(), ..s }),
    decreases events.len(),
{
    if events.len() > 0 {
        lemma_increments_add_up(s, events.drop_last());
    }
}

/// After `n` `AddOne` messages a freshly mounted component shows `n`.
pub proof fn lemma_counter_counts<H>(endpoint: Seq<char>, events: Seq<Event>)
    requires
        forall|i: int| 0 <= i < events.len() ==> events[i] is AddOne,
    ensures
        run(initial::<H>(endpoint), events).counter == events.len(),
{
    lemma_increments_add_up(initial::<H>(endpoint), events);
}

/// A fetch that succeeds replaces the users by the decoded list, in the
/// order it came in, and leaves no fetch in flight; the counter is as it was
/// and no failure is shown. This holds whether or not the handle of the
/// fetch was kept.
pub proof fn lemma_fetch_success<H>(s: State<H>, handle: H, users: Seq<UserView>)
    ensures
        ({
            let asked = next(s, Event::GetUsers);
            let kept = next(retained(asked, handle), Event::ReceiveResponse(Ok(users)));
            let unkept = next(asked, Event::ReceiveResponse(Ok(users)));
            &&& kept == (State { users, pending: None, error: None, ..s })
            &&& unkept == kept
        }),
{
}

/// A fetch that fails leaves the users as they were before it began and
/// leaves no fetch in flight; the counter is as it was and the reason of the
/// failure is shown. This holds whether or not the handle of the fetch was
/// kept.
pub proof fn lemma_fetch_failure<H>(s: State<H>, handle: H, reason: Seq<char>)
    ensures
        ({
            let asked = next(s, Event::GetUsers);
            let kept = next(retained(asked, handle), Event::ReceiveResponse(Err(reason)));
            let unkept = next(asked, Event::ReceiveResponse(Err(reason)));
            &&& kept == (State { pending: None, error: Some(reason), ..s })
            &&& unkept == kept
        }),
{
}

/// Whatever happened before, and however the fetch ended: once a
/// `ReceiveResponse` was handled, no fetch is in flight.
pub proof fn lemma_completion_clears_pending<H>(s: State<H>, events: Seq<Event>)
    requires
        events.len() > 0,
        events.last() is ReceiveResponse,
    ensures
        run(s, events).pending is None,
{
}

/// A `GetUsers` that arrives while a fetch is in flight changes nothing and
/// starts nothing, and a handle offered in that state is not taken: the
/// fetch in flight stays the only one that is tracked.
pub proof fn lemma_second_fetch_ignored<H>(s: State<H>, handle: H)
    requires
        s.pending is Some,
    ensures
        next(s, Event::GetUsers) == s,
        action(s, Event::GetUsers) == Action::Nothing,
        retained(s, handle) == s,
{
}

/// Of two handles offered one after the other with no completion between
/// them, the first is the one that is tracked.
pub proof fn lemma_first_handle_stays<H>(s: State<H>, first: H, second: H)
    requires
        s.pending is None,
    ensures
        retained(retained(s, first), second).pending == Some(first),
{
}

/// What is shown depends on the counter, the users and the failure alone:
/// two states that agree on these look the same, whatever fetch is in flight.
pub proof fn lemma_page_ignores_fetch<H>(s: State<H>, t: State<H>)
    requires
        s.counter == t.counter,
        s.users == t.users,
        s.error == t.error,
    ensures
        rendered(s) == rendered(t),
{
}

} // verus!
