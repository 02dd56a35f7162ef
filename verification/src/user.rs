//! The records the server sends, and the two shapes a response body may have.

use vstd::prelude::*;

verus! {

/// One user as the server describes it. The component only ever receives
/// these records and shows them; it never changes one.
#[derive(Debug, PartialEq, Eq)]
pub struct User {
    pub id: i32,
    pub name: String,
    pub email: String,
    pub active: bool,
    pub sign_in_count: i64,
}

/// What a [`User`] holds, as mathematical values.
pub struct UserView {
    pub id: int,
    pub name: Seq<char>,
    pub email: Seq<char>,
    pub active: bool,
    pub sign_in_count: int,
}

impl View for User {
    type V = UserView;

    open spec fn view(&self) -> UserView {
        UserView {
            id: self.id as int,
            name: self.name@,
            email: self.email@,
            active: self.active,
            sign_in_count: self.sign_in_count as int,
        }
    }
}

impl DeepView for User {
    type V = UserView;

    open spec fn deep_view(&self) -> UserView {
        self@
    }
}

impl Clone for User {
    fn clone(&self) -> (copy: User)
        ensures
            copy@ == self@,
    {
        User {
            id: self.id,
            name: self.name.clone(),
            email: self.email.clone(),
            active: self.active,
            sign_in_count: self.sign_in_count,
        }
    }
}

/// A copy of `users`, record for record.
pub(crate) fn copy_users(users: &Vec<User>) -> (copy: Vec<User>)
    ensures
        copy.deep_view() == users.deep_view(),
{
    let copy = users.clone();
    assert(copy.deep_view() =~= users.deep_view());
    copy
}

/// A decoded response body: the server may answer with a single record or
/// with a list of them.
#[derive(Debug, PartialEq, Eq)]
pub enum Payload {
    One(User),
    Many(Vec<User>),
}

impl Payload {
    /// The records of the body in the order the server gave them.
    pub open spec fn records(&self) -> Seq<UserView> {
        match self {
            Payload::One(user) => seq![user@],
            Payload::Many(users) => users.deep_view(),
        }
    }

    /// Turns the body into the list the component keeps: a single record
    /// becomes a list of one, a list stays as it is.
    pub fn into_users(self) -> (users: Vec<User>)
        ensures
            users.deep_view() == self.records(),
    {
        match self {
            Payload::One(user) => {
                let mut users: Vec<User> = Vec::new();
                users.push(user);
                assert(users.deep_view() =~= seq![user@]);
                users
            },
            Payload::Many(users) => users,
        }
    }
}

} // verus!
