//! The user record and the request that asks for one.

use vstd::prelude::*;

verus! {

/// A row of the user table, as the database hands it back.
#[derive(Clone, Debug, PartialEq, Eq)]
pub struct User {
    /// Assigned by the database, unique in the table.
    pub id: i32,
    pub name: String,
    pub hair_color: Option<String>,
}

/// What a [`User`] stands for in contracts.
pub struct UserView {
    pub id: int,
    pub name: Seq<char>,
    pub hair_color: Option<Seq<char>>,
}

/// A request for a new user: a name, and a hair colour if one is known.
#[derive(Clone, Debug, PartialEq, Eq)]
pub struct NewUser {
    pub name: String,
    pub hair_color: Option<String>,
}

/// What a [`NewUser`] stands for in contracts.
pub struct NewUserView {
    pub name: Seq<char>,
    pub hair_color: Option<Seq<char>>,
}

/// The text of an optional string.
pub open spec fn text_of(value: Option<String>) -> Option<Seq<char>> {
    match value {
        Some(text) => Some(text@),
        None => None,
    }
}

impl View for User {
    type V = UserView;

    open spec fn view(&self) -> UserView {
        UserView { id: self.id as int, name: self.name@, hair_color: text_of(self.hair_color) }
    }
}

impl View for NewUser {
    type V = NewUserView;

    open spec fn view(&self) -> NewUserView {
        NewUserView { name: self.name@, hair_color: text_of(self.hair_color) }
    }
}

impl NewUserView {
    /// The row that storing this request under `id` gives: the submitted
    /// name and hair colour, unchanged.
    pub open spec fn stored_as(self, id: int) -> UserView {
        UserView { id, name: self.name, hair_color: self.hair_color }
    }
}

impl UserView {
    /// Whether this row is what storing `request` gives, under whatever id.
    pub open spec fn stores(self, request: NewUserView) -> bool {
        self == request.stored_as(self.id)
    }
}

impl NewUser {
    /// The row that storing this request under `id` gives.
    pub fn stored_as(self, id: i32) -> (row: User)
        ensures
            row@ == self@.stored_as(id as int),
    {
        User { id, name: self.name, hair_color: self.hair_color }
    }
}

} // verus!
