//! The user record and the fields a client supplies for one.

use vstd::prelude::*;

verus! {

/// What a user record is, as plain mathematical values.
pub struct UserView {
    pub id: u32,
    pub name: Seq<char>,
    pub email: Seq<char>,
    pub age: u32,
}

/// The three fields of a record that a client chooses, as plain values.
pub struct FieldsView {
    pub name: Seq<char>,
    pub email: Seq<char>,
    pub age: u32,
}

/// The body of a request that creates a record or replaces one: the fields
/// that the client chooses. The identifier is never among them.
#[derive(Debug)]
pub struct CreateUserRequest {
    pub name: String,
    pub email: String,
    pub age: u32,
}

impl View for CreateUserRequest {
    type V = FieldsView;

    open spec fn view(&self) -> FieldsView {
        FieldsView { name: self.name@, email: self.email@, age: self.age }
    }
}

/// A stored user. The identifier is assigned by the store, the other three
/// fields are whatever the client sent.
#[derive(Debug)]
pub struct User {
    pub id: u32,
    pub name: String,
    pub email: String,
    pub age: u32,
}

impl View for User {
    type V = UserView;

    open spec fn view(&self) -> UserView {
        UserView { id: self.id, name: self.name@, email: self.email@, age: self.age }
    }
}

impl Clone for User {
    fn clone(&self) -> (copy: Self)
        ensures
            copy == *self,
    {
        User { id: self.id, name: self.name.clone(), email: self.email.clone(), age: self.age }
    }
}

impl PartialEq for User {
    fn eq(&self, other: &Self) -> (equal: bool) {
        self.id == other.id && self.name == other.name && self.email == other.email && self.age
            == other.age
    }
}

impl vstd::std_specs::cmp::PartialEqSpecImpl for User {
    open spec fn obeys_eq_spec() -> bool {
        true
    }

    open spec fn eq_spec(&self, other: &Self) -> bool {
        self@ == other@
    }
}

} // verus!
