//! What the component shows, as a description for a rendering engine.
//!
//! The description is computed from the counter, the users and the error
//! indicator alone. The handle of a fetch in flight is never read here, and
//! nothing here starts a fetch.

use vstd::prelude::*;
use crate::machine::State;
use crate::message::{Event, Msg};
use crate::model::Model;
use crate::user::{User, UserView};

verus! {

/// A control that sends a message when it is activated.
#[derive(Debug, PartialEq, Eq)]
pub struct Button {
    /// The text on the control.
    pub label: String,
    /// The message it sends.
    pub on_click: Msg,
}

/// One line of the user list.
#[derive(Debug, PartialEq, Eq)]
pub struct Entry {
    pub name: String,
    pub email: String,
}

/// The whole display.
#[derive(Debug, PartialEq, Eq)]
pub struct Page {
    /// The control that raises the counter.
    pub button: Button,
    /// The counter as it is displayed.
    pub counter: i64,
    /// One entry for each user, in the order of the list.
    pub entries: Vec<Entry>,
    /// The reason the last completed fetch failed, if it did.
    pub error: Option<String>,
}

/// A [`Button`] as mathematical values.
pub struct ButtonView {
    pub label: Seq<char>,
    pub on_click: Event,
}

/// An [`Entry`] as mathematical values.
pub struct EntryView {
    pub name: Seq<char>,
    pub email: Seq<char>,
}

/// A [`Page`] as mathematical values.
#[verifier::ext_equal]
pub struct PageView {
    pub button: ButtonView,
    pub counter: int,
    pub entries: Seq<EntryView>,
    pub error: Option<Seq<char>>,
}

impl View for Button {
    type V = ButtonView;

    open spec fn view(&self) -> ButtonView {
        ButtonView { label: self.label@, on_click: self.on_click@ }
    }
}

impl View for Entry {
    type V = EntryView;

    open spec fn view(&self) -> EntryView {
        EntryView { name: self.name@, email: self.email@ }
    }
}

impl DeepView for Entry {
    type V = EntryView;

    open spec fn deep_view(&self) -> EntryView {
        self@
    }
}

impl View for Page {
    type V = PageView;

    open spec fn view(&self) -> PageView {
        PageView {
            button: self.button@,
            counter: self.counter as int,
            entries: self.entries.deep_view(),
            error: match self.error {
                Some(reason) => Some(reason@),
                None => None,
            },
        }
    }
}

/// The line that shows `user`: the name and the e-mail address.
pub open spec fn entry_of(user: UserView) -> EntryView {
    EntryView { name: user.name, email: user.email }
}

/// What is shown in state `s`: a `+1` control that sends `AddOne`, the
/// counter, one line for each user in the order of the list, and the reason
/// of the last failure. The handle of a fetch in flight has no part in it.
pub open spec fn rendered<H>(s: State<H>) -> PageView {
    PageView {
        button: ButtonView { label: "+1"@, on_click: Event::AddOne },
        counter: s.counter,
        entries: Seq::new(s.users.len(), |i: int| entry_of(s.users[i])),
        error: s.error,
    }
}

/// The lines that show `users`, in their order.
fn entries_of(users: &Vec<User>) -> (entries: Vec<Entry>)
    ensures
        entries.deep_view() == Seq::new(
            users.deep_view().len(),
            |i: int| entry_of(users.deep_view()[i]),
        ),
{
    let mut entries: Vec<Entry> = Vec::new();
    let mut i: usize = 0;
    while i < users.len()
        invariant
            i <= users.len(),
            entries.len() == i,
            forall|j: int| 0 <= j < i ==> (#[trigger] entries[j])@ == entry_of(users[j]@),
        decreases users.len() - i,
    {
        let user = &users[i];
        entries.push(Entry { name: user.name.clone(), email: user.email.clone() });
        i = i + 1;
    }
    assert(entries.deep_view() =~= Seq::new(
        users.deep_view().len(),
        |i: int| entry_of(users.deep_view()[i]),
    ));
    entries
}

impl<H> Model<H> {
    /// Describes what is to be shown in the current state.
    pub fn view(&self) -> (page: Page)
        ensures
            page@ == rendered(self.state()),
    {
        let error = match self.error() {
            Some(error) => Some(error.reason.clone()),
            None => None,
        };
        Page {
            button: Button { label: "+1".to_owned(), on_click: Msg::AddOne },
            counter: self.value(),
            entries: entries_of(self.users()),
            error,
        }
    }
}

} // verus!
