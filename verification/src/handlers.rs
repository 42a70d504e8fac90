//! The handlers behind the routes, and the two replies given without one.

use vstd::prelude::*;
use crate::http::{
    is_client_error, Body, BodyView, Rejection, RejectionView, Response, ResponseView,
    BAD_REQUEST, CREATED, NOT_FOUND,
};
use crate::model::{created_user, CreateUser, User, PLACEHOLDER_ID};

verus! {

/// The text of the greeting.
pub open spec fn greeting() -> Seq<char> {
    "Hello, World!"@
}

/// The status a rejected body is answered with: the one the JSON layer
/// proposed where that is a client error, 400 otherwise.
pub open spec fn rejection_status(proposed: u16) -> u16 {
    if is_client_error(proposed) {
        proposed
    } else {
        BAD_REQUEST
    }
}

/// What a rejected body is answered with.
pub open spec fn rejection_reply(rejection: RejectionView) -> ResponseView {
    ResponseView {
        status: rejection_status(rejection.status),
        body: BodyView::Text(rejection.message),
    }
}

/// What a request that matches no route is answered with.
pub open spec fn not_found_reply() -> ResponseView {
    ResponseView { status: NOT_FOUND, body: BodyView::Empty }
}

/// Handler of `GET /`: the greeting, whatever the request held.
pub fn root() -> (text: &'static str)
    ensures
        text@ == greeting(),
{
    "Hello, World!"
}

/// Handler of `POST /users`: answers 201 Created with a user that carries the
/// placeholder identifier and the name that was sent, unchanged.
pub fn create_user(payload: CreateUser) -> (reply: (u16, User))
    ensures
        reply.0 == CREATED,
        reply.1@ == created_user(payload@),
{
    let user = User { id: PLACEHOLDER_ID, username: payload.username };
    (CREATED, user)
}

/// The reply to a `POST /users` whose body the JSON layer turned down: always
/// a client error, with the layer's explanation as text and no user.
pub fn reject(rejection: Rejection) -> (reply: Response)
    ensures
        reply@ == rejection_reply(rejection@),
        is_client_error(reply.status),
{
    let status: u16 = if 400 <= rejection.status && rejection.status <= 499 {
        rejection.status
    } else {
        BAD_REQUEST
    };
    Response { status, body: Body::Text(rejection.message) }
}

/// The reply to a request that matches no route: 404 with an empty body.
pub fn not_found() -> (reply: Response)
    ensures
        reply@ == not_found_reply(),
{
    Response { status: NOT_FOUND, body: Body::Empty }
}

} // verus!
