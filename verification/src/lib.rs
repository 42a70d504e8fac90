//! A two-endpoint HTTP API, stated as pure functions from requests to replies.
//!
//! The crate holds the part of the service that decides: which handler a
//! request reaches, what each handler answers, and what a request with an
//! unusable body is told. Sockets, the JSON codec and the async runtime live
//! with the caller, which hands requests in as plain values and writes the
//! replies out.

pub mod handlers;
pub mod http;
pub mod laws;
pub mod model;
pub mod router;
pub mod text;

pub use handlers::{create_user, not_found, reject, root};
pub use http::{listen_address, Body, Method, Rejection, Response};
pub use model::{CreateUser, User};
pub use router::{handle, route, Route};
