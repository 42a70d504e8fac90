//! What holds of every request, proved over the reply function.

use vstd::prelude::*;
use crate::handlers::{greeting, not_found_reply};
use crate::http::{is_client_error, BodyView, Method, RejectionView, ResponseView, CREATED, NOT_FOUND, OK};
use crate::model::{CreateUserView, UserView, PLACEHOLDER_ID};
use crate::router::{reply_of, root_path, route_of, users_path, Route};

verus! {

/// The greeting, letter by letter.
pub proof fn lemma_greeting_text()
    ensures
        greeting() == seq!['H', 'e', 'l', 'l', 'o', ',', ' ', 'W', 'o', 'r', 'l', 'd', '!'],
{
    reveal_strlit("Hello, World!");
    assert(greeting() =~= seq![
        'H',
        'e',
        'l',
        'l',
        'o',
        ',',
        ' ',
        'W',
        'o',
        'r',
        'l',
        'd',
        '!',
    ]);
}

/// The two paths of the routing table, letter by letter.
pub proof fn lemma_route_paths()
    ensures
        root_path() == seq!['/'],
        users_path() == seq!['/', 'u', 's', 'e', 'r', 's'],
        root_path() != users_path(),
{
    reveal_strlit("/");
    reveal_strlit("/users");
    assert(root_path() =~= seq!['/']);
    assert(users_path() =~= seq!['/', 'u', 's', 'e', 'r', 's']);
    assert(root_path().len() != users_path().len());
}

/// `GET /` is answered 200 with the greeting as text, whatever came with the
/// request.
pub proof fn lemma_root_always_greets(payload: Result<CreateUserView, RejectionView>)
    ensures
        reply_of(Method::Get, root_path(), payload) == (ResponseView {
            status: OK,
            body: BodyView::Text(greeting()),
        }),
{
}

/// `POST /users` with a body that was read as a user request is answered 201
/// with a user that holds the placeholder identifier and the very name that
/// was sent.
pub proof fn lemma_create_user_echoes(username: Seq<char>)
    ensures
        reply_of(Method::Post, users_path(), Ok(CreateUserView { username })) == (ResponseView {
            status: CREATED,
            body: BodyView::Json(UserView { id: 1337, username }),
        }),
{
}

/// `POST /users` with a body that was turned down is answered with a client
/// error that carries the explanation as text, and never a user.
pub proof fn lemma_rejected_body_is_client_error(rejection: RejectionView)
    ensures
        is_client_error(reply_of(Method::Post, users_path(), Err(rejection)).status),
        reply_of(Method::Post, users_path(), Err(rejection)).body == BodyView::Text(
            rejection.message,
        ),
        !(reply_of(Method::Post, users_path(), Err(rejection)).body is Json),
        is_client_error(rejection.status) ==> reply_of(
            Method::Post,
            users_path(),
            Err(rejection),
        ).status == rejection.status,
{
}

/// A request is routed to a handler only as `GET /` or `POST /users`; every
/// other pair of method and path is answered 404 with an empty body,
/// whatever its payload.
pub proof fn lemma_unrouted_is_not_found(
    method: Method,
    path: Seq<char>,
    payload: Result<CreateUserView, RejectionView>,
)
    requires
        !(method == Method::Get && path == root_path()),
        !(method == Method::Post && path == users_path()),
    ensures
        route_of(method, path) == Route::NotFound,
        reply_of(method, path, payload) == not_found_reply(),
        reply_of(method, path, payload).status == NOT_FOUND,
{
}

/// A path that is neither `/` nor `/users` is answered 404 under every
/// method.
pub proof fn lemma_unknown_path_is_not_found(
    method: Method,
    path: Seq<char>,
    payload: Result<CreateUserView, RejectionView>,
)
    requires
        path != root_path(),
        path != users_path(),
    ensures
        reply_of(method, path, payload).status == NOT_FOUND,
        reply_of(method, path, payload).body == BodyView::Empty,
{
}

/// Requests do not interfere: the reply to a user request names that
/// request's own user, whatever other request is served beside it, and two
/// requests with different names get different replies.
pub proof fn lemma_replies_are_independent(first: Seq<char>, second: Seq<char>)
    ensures
        reply_of(Method::Post, users_path(), Ok(CreateUserView { username: first })).body
            == BodyView::Json(UserView { id: PLACEHOLDER_ID, username: first }),
        reply_of(Method::Post, users_path(), Ok(CreateUserView { username: second })).body
            == BodyView::Json(UserView { id: PLACEHOLDER_ID, username: second }),
        first != second ==> reply_of(
            Method::Post,
            users_path(),
            Ok(CreateUserView { username: first }),
        ) != reply_of(Method::Post, users_path(), Ok(CreateUserView { username: second })),
{
}

} // verus!
