//! The two request-scoped records of the user endpoint.

use vstd::prelude::*;

verus! {

/// The identifier every new user is given. Nothing is stored or counted, so
/// every user gets the same one.
pub const PLACEHOLDER_ID: u64 = 1337;

/// What a client sends to have a user made.
#[derive(Debug, Clone, PartialEq, Eq)]
pub struct CreateUser {
    pub username: String,
}

/// What the client gets back: its own name under the placeholder identifier.
#[derive(Debug, Clone, PartialEq, Eq)]
pub struct User {
    pub id: u64,
    pub username: String,
}

/// A `CreateUser` as a mathematical value.
pub struct CreateUserView {
    pub username: Seq<char>,
}

/// A `User` as a mathematical value.
pub struct UserView {
    pub id: u64,
    pub username: Seq<char>,
}

impl View for CreateUser {
    type V = CreateUserView;

    open spec fn view(&self) -> CreateUserView {
        CreateUserView { username: self.username@ }
    }
}

impl View for User {
    type V = UserView;

    open spec fn view(&self) -> UserView {
        UserView { id: self.id, username: self.username@ }
    }
}

/// The user that a creation request is answered with.
pub open spec fn created_user(request: CreateUserView) -> UserView {
    UserView { id: PLACEHOLDER_ID, username: request.username }
}

} // verus!
