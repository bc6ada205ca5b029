//! HTTP-shaped plain values used throughout the router and handlers: the
//! request method, the response status code, and the `(status, body)` pair
//! every handler returns.
use vstd::prelude::*;

verus! {

/// The HTTP request methods the router distinguishes.
#[derive(Clone, Copy, PartialEq, Eq, Structural, Debug)]
pub enum Method {
    Get,
    Post,
    Put,
    Delete,
    Options,
}

/// The response status codes this core produces.
#[derive(Clone, Copy, PartialEq, Eq, Structural, Debug)]
pub enum Status {
    Okay,
    NoContent,
    BadRequest,
    Unauthorized,
    NotFound,
    MethodNotAllowed,
    InternalServerError,
}

impl Status {
    /// The numeric code of this status on the wire.
    pub open spec fn spec_code(self) -> u16 {
        match self {
            Status::Okay => 200,
            Status::NoContent => 204,
            Status::BadRequest => 400,
            Status::Unauthorized => 401,
            Status::NotFound => 404,
            Status::MethodNotAllowed => 405,
            Status::InternalServerError => 500,
        }
    }

    /// Returns the numeric status code.
    pub fn code(&self) -> (r: u16)
        ensures
            r == self.spec_code(),
    {
        match self {
            Status::Okay => 200,
            Status::NoContent => 204,
            Status::BadRequest => 400,
            Status::Unauthorized => 401,
            Status::NotFound => 404,
            Status::MethodNotAllowed => 405,
            Status::InternalServerError => 500,
        }
    }
}

/// What a handler hands back to the chain executor: a status and an optional
/// body. A non-`Ok` status stops the chain.
pub struct Response {
    pub status: Status,
    pub body: Option<Vec<u8>>,
}

impl Response {
    /// Builds a response from its two parts.
    pub fn new(status: Status, body: Option<Vec<u8>>) -> (r: Response)
        ensures
            r.status == status,
            r.body == body,
    {
        Response { status, body }
    }

    /// A chain keeps running exactly while its handlers return `Ok`.
    pub open spec fn is_success(self) -> bool {
        self.status == Status::Okay
    }
}

} // verus!
