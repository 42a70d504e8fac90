use user_api::text::str_eq;
use user_api::{handle, route};
use user_api::{Body, CreateUser, Method, Rejection, Response, Route, User};

fn named(name: &str) -> Result<CreateUser, Rejection> {
    Ok(CreateUser { username: name.to_string() })
}

fn rejected(status: u16, message: &str) -> Result<CreateUser, Rejection> {
    Err(Rejection { status, message: message.to_string() })
}

fn greeting() -> Response {
    Response { status: 200, body: Body::Text("Hello, World!".to_string()) }
}

fn created(name: &str) -> Response {
    Response { status: 201, body: Body::Json(User { id: 1337, username: name.to_string() }) }
}

fn missing() -> Response {
    Response { status: 404, body: Body::Empty }
}

#[test]
fn str_eq_agrees_with_equality() {
    let samples = ["", "/", "/users", "/user", "/users/", "/Users", "users", "//", "/ü", "/u\u{308}", "é", "e"];
    for a in samples {
        for b in samples {
            assert_eq!(str_eq(a, b), a == b, "{a:?} against {b:?}");
        }
    }
}

#[test]
fn str_eq_tells_a_prefix_apart() {
    assert!(!str_eq("/users", "/"));
    assert!(!str_eq("/", "/users"));
    assert!(str_eq("/users", "/users"));
}

#[test]
fn route_table() {
    assert_eq!(route(Method::Get, "/"), Route::Root);
    assert_eq!(route(Method::Post, "/users"), Route::CreateUser);
    assert_eq!(route(Method::Post, "/"), Route::NotFound);
    assert_eq!(route(Method::Get, "/users"), Route::NotFound);
    assert_eq!(route(Method::Other, "/"), Route::NotFound);
    assert_eq!(route(Method::Other, "/users"), Route::NotFound);
}

#[test]
fn route_compares_paths_exactly() {
    for path in ["", "//", "/users/", "/Users", "/USERS", "/user", "/users ", " /", "/unknown", "users", "/users/1"] {
        assert_eq!(route(Method::Get, path), Route::NotFound, "GET {path:?}");
        assert_eq!(route(Method::Post, path), Route::NotFound, "POST {path:?}");
        assert_eq!(route(Method::Other, path), Route::NotFound, "other {path:?}");
    }
}

#[test]
fn get_root_greets() {
    assert_eq!(handle(Method::Get, "/", rejected(415, "no content type")), greeting());
}

#[test]
fn get_root_greets_whatever_the_payload() {
    assert_eq!(handle(Method::Get, "/", named("alice")), greeting());
    assert_eq!(handle(Method::Get, "/", rejected(400, "")), greeting());
    assert_eq!(handle(Method::Get, "/", rejected(500, "broken")), greeting());
}

#[test]
fn post_users_creates_the_user() {
    assert_eq!(handle(Method::Post, "/users", named("alice")), created("alice"));
}

#[test]
fn post_users_round_trips_any_name() {
    for name in ["", "bob", "Robert'); DROP TABLE", "quote\"d", "tab\t", "名前", "🙂"] {
        assert_eq!(handle(Method::Post, "/users", named(name)), created(name));
    }
}

#[test]
fn post_users_without_username_is_a_client_error() {
    let reply = handle(Method::Post, "/users", rejected(422, "missing field `username`"));
    assert_eq!(
        reply,
        Response { status: 422, body: Body::Text("missing field `username`".to_string()) }
    );
    assert!((400..500).contains(&reply.status));
}

#[test]
fn post_users_with_mistyped_username_is_a_client_error() {
    let reply = handle(Method::Post, "/users", rejected(422, "invalid type: integer `1`"));
    assert_eq!(reply.status, 422);
    assert!(!matches!(reply.body, Body::Json(_)));
}

#[test]
fn post_users_with_empty_body_is_a_client_error() {
    let reply = handle(Method::Post, "/users", rejected(400, "EOF while parsing a value"));
    assert_eq!(
        reply,
        Response { status: 400, body: Body::Text("EOF while parsing a value".to_string()) }
    );
}

#[test]
fn post_users_without_content_type_is_a_client_error() {
    let reply = handle(Method::Post, "/users", rejected(415, "expected json"));
    assert_eq!(reply.status, 415);
}

#[test]
fn post_users_rejection_outside_the_client_class_is_400() {
    let reply = handle(Method::Post, "/users", rejected(500, "could not read"));
    assert_eq!(reply, Response { status: 400, body: Body::Text("could not read".to_string()) });
}

#[test]
fn unknown_path_is_not_found() {
    assert_eq!(handle(Method::Get, "/unknown", rejected(415, "")), missing());
    assert_eq!(handle(Method::Post, "/unknown", named("alice")), missing());
    assert_eq!(handle(Method::Other, "/unknown", named("alice")), missing());
}

#[test]
fn known_path_under_another_method_is_not_found() {
    assert_eq!(handle(Method::Post, "/", named("alice")), missing());
    assert_eq!(handle(Method::Get, "/users", named("alice")), missing());
    assert_eq!(handle(Method::Other, "/", rejected(400, "")), missing());
    assert_eq!(handle(Method::Other, "/users", named("alice")), missing());
}

#[test]
fn near_misses_are_not_found() {
    for path in ["", "/users/", "/Users", "//", "/users?x=1", "/?"] {
        assert_eq!(handle(Method::Get, path, named("alice")), missing(), "GET {path:?}");
        assert_eq!(handle(Method::Post, path, named("alice")), missing(), "POST {path:?}");
    }
}

#[test]
fn replies_do_not_depend_on_other_requests() {
    let alone = handle(Method::Post, "/users", named("alice"));
    let names: Vec<String> = (0..50).map(|i| format!("user-{i}")).collect();
    let replies: Vec<Response> =
        names.iter().map(|name| handle(Method::Post, "/users", named(name))).collect();
    for (name, reply) in names.iter().zip(replies.iter()) {
        assert_eq!(*reply, created(name));
    }
    assert_eq!(handle(Method::Post, "/users", named("alice")), alone);
    assert_ne!(replies[0], replies[1]);
}
