//! The routing table and the dispatch of one request.

use vstd::prelude::*;
use crate::handlers::{
    create_user, greeting, not_found, not_found_reply, reject, rejection_reply, root,
};
use crate::http::{Body, BodyView, Method, Rejection, RejectionView, Response, ResponseView, CREATED, OK};
use crate::model::{created_user, CreateUser, CreateUserView};
use crate::text::str_eq;

verus! {

/// Where a request goes.
#[derive(Debug, Clone, Copy, PartialEq, Eq, Structural)]
pub enum Route {
    /// `GET /`
    Root,
    /// `POST /users`
    CreateUser,
    /// Everything else.
    NotFound,
}

/// The path of the greeting.
pub open spec fn root_path() -> Seq<char> {
    "/"@
}

/// The path of the user endpoint.
pub open spec fn users_path() -> Seq<char> {
    "/users"@
}

/// The routing table. `path` is the path of the request target, without the
/// query string. Paths are compared exactly.
pub open spec fn route_of(method: Method, path: Seq<char>) -> Route {
    if method == Method::Get && path == root_path() {
        Route::Root
    } else if method == Method::Post && path == users_path() {
        Route::CreateUser
    } else {
        Route::NotFound
    }
}

/// The outcome of reading a request body as a `CreateUser`, as a
/// mathematical value.
pub open spec fn payload_view(payload: Result<CreateUser, Rejection>) -> Result<
    CreateUserView,
    RejectionView,
> {
    match payload {
        Ok(request) => Ok(request@),
        Err(rejection) => Err(rejection@),
    }
}

/// The reply owed to a request, as a function of its method, its path and
/// the outcome of reading its body, and of nothing else.
pub open spec fn reply_of(
    method: Method,
    path: Seq<char>,
    payload: Result<CreateUserView, RejectionView>,
) -> ResponseView {
    match route_of(method, path) {
        Route::Root => ResponseView { status: OK, body: BodyView::Text(greeting()) },
        Route::CreateUser => match payload {
            Ok(request) => ResponseView {
                status: CREATED,
                body: BodyView::Json(created_user(request)),
            },
            Err(rejection) => rejection_reply(rejection),
        },
        Route::NotFound => not_found_reply(),
    }
}

/// Looks a request up in the routing table.
pub fn route(method: Method, path: &str) -> (found: Route)
    ensures
        found == route_of(method, path@),
{
    match method {
        Method::Get => if str_eq(path, "/") {
            Route::Root
        } else {
            Route::NotFound
        },
        Method::Post => if str_eq(path, "/users") {
            Route::CreateUser
        } else {
            Route::NotFound
        },
        Method::Other => Route::NotFound,
    }
}

/// Answers one request.
///
/// `path` is the path of the request target without its query string, and
/// `payload` is what reading the body as JSON gave. Headers and query string
/// are no parameters: no reply depends on them. The payload is looked at only
/// on the user endpoint.
pub fn handle(method: Method, path: &str, payload: Result<CreateUser, Rejection>) -> (reply:
    Response)
    ensures
        reply@ == reply_of(method, path@, payload_view(payload)),
{
    match route(method, path) {
        Route::Root => Response { status: OK, body: Body::Text(root().to_owned()) },
        Route::CreateUser => match payload {
            Ok(request) => {
                let (status, user) = create_user(request);
                Response { status, body: Body::Json(user) }
            },
            Err(rejection) => reject(rejection),
        },
        Route::NotFound => not_found(),
    }
}

} // verus!
