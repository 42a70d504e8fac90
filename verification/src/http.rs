//! Requests and replies as plain values.
//!
//! A transport turns what it reads off the wire into these types and writes
//! a [`Response`] back out; nothing here touches a socket.

use vstd::prelude::*;
use crate::model::{User, UserView};

verus! {

/// 200 OK.
pub const OK: u16 = 200;

/// 201 Created.
pub const CREATED: u16 = 201;

/// 400 Bad Request.
pub const BAD_REQUEST: u16 = 400;

/// 404 Not Found.
pub const NOT_FOUND: u16 = 404;

/// The port the service listens on.
pub const PORT: u16 = 3000;

/// Where the service listens: the IPv4 loopback address, as its four octets,
/// and [`PORT`]. The address is fixed; nothing configures it.
pub fn listen_address() -> (address: ([u8; 4], u16))
    ensures
        address.0@ == seq![127u8, 0u8, 0u8, 1u8],
        address.1 == PORT,
{
    let octets: [u8; 4] = [127, 0, 0, 1];
    assert(octets@ =~= seq![127u8, 0u8, 0u8, 1u8]);
    (octets, PORT)
}

/// The request methods the routing table tells apart.
#[derive(Debug, Clone, Copy, PartialEq, Eq, Structural)]
pub enum Method {
    Get,
    Post,
    /// Any method but `GET` and `POST`.
    Other,
}

/// Whether a status code is in the client-error class, 400 to 499.
pub open spec fn is_client_error(status: u16) -> bool {
    400 <= status <= 499
}

/// Why a request body could not be turned into a `CreateUser`, as the JSON
/// layer reported it: the status it proposes and its explanation.
#[derive(Debug, Clone, PartialEq, Eq)]
pub struct Rejection {
    pub status: u16,
    pub message: String,
}

/// A `Rejection` as a mathematical value.
pub struct RejectionView {
    pub status: u16,
    pub message: Seq<char>,
}

impl View for Rejection {
    type V = RejectionView;

    open spec fn view(&self) -> RejectionView {
        RejectionView { status: self.status, message: self.message@ }
    }
}

/// The payload of a reply. The variant fixes the content type: none,
/// `text/plain`, or `application/json`.
#[derive(Debug, Clone, PartialEq, Eq)]
pub enum Body {
    Empty,
    Text(String),
    Json(User),
}

/// A `Body` as a mathematical value.
pub enum BodyView {
    Empty,
    Text(Seq<char>),
    Json(UserView),
}

impl View for Body {
    type V = BodyView;

    open spec fn view(&self) -> BodyView {
        match self {
            Body::Empty => BodyView::Empty,
            Body::Text(text) => BodyView::Text(text@),
            Body::Json(user) => BodyView::Json(user@),
        }
    }
}

/// A complete reply: status code and payload.
#[derive(Debug, Clone, PartialEq, Eq)]
pub struct Response {
    pub status: u16,
    pub body: Body,
}

/// A `Response` as a mathematical value.
pub struct ResponseView {
    pub status: u16,
    pub body: BodyView,
}

impl View for Response {
    type V = ResponseView;

    open spec fn view(&self) -> ResponseView {
        ResponseView { status: self.status, body: self.body@ }
    }
}

} // verus!
