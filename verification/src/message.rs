//! The head of a response as the application hands it over, and the
//! settings that preparing it for the wire depends on.

use crate::dev::ContentEncoding;
use http::header::HeaderName;
use http::header::HeaderValue;
use vstd::prelude::*;

verus! {

/// Status `100 Continue`.
pub const CONTINUE: u16 = 100;

/// Status `101 Switching Protocols`.
pub const SWITCHING_PROTOCOLS: u16 = 101;

/// Status `102 Processing`.
pub const PROCESSING: u16 = 102;

/// Status `204 No Content`.
pub const NO_CONTENT: u16 = 204;

/// A response status code: a number from 100 to 999.
#[derive(Clone, Copy, Debug, PartialEq, Eq, Structural)]
pub struct StatusCode {
    code: u16,
}

impl StatusCode {
    #[verifier::type_invariant]
    spec fn in_range(self) -> bool {
        100 <= self.code < 1000
    }

    /// The number of the status.
    pub closed spec fn value(self) -> u16 {
        self.code
    }

    /// The status with the given number, if the number is one that a status
    /// can have.
    pub fn from_u16(code: u16) -> (status: Option<StatusCode>)
        ensures
            status is Some <==> 100 <= code < 1000,
            status matches Some(s) ==> s.value() == code,
    {
        if 100 <= code && code < 1000 {
            Some(StatusCode { code })
        } else {
            None
        }
    }

    /// The number of the status, which lies from 100 to 999.
    pub fn as_u16(&self) -> (code: u16)
        ensures
            code == self.value(),
            100 <= code < 1000,
    {
        proof {
            use_type_invariant(self);
        }
        self.code
    }
}

/// The protocol version that a transport announces in every response.
#[derive(Clone, Copy, Debug, PartialEq, Eq, Structural)]
pub enum Version {
    /// HTTP/2.
    Http2,
    /// HTTP/3.
    Http3,
}

/// The head of a response before it is prepared for the wire.
pub struct ResponseHead {
    /// The status of the response.
    pub status: StatusCode,
    /// The headers in the order in which the application set them; a name
    /// may occur more than once.
    pub headers: Vec<(HeaderName, HeaderValue)>,
}

/// A response: its head, its body, and the encoding that was asked for its
/// body, if one was.
pub struct Response<B> {
    /// The head.
    pub head: ResponseHead,
    /// The body.
    pub body: B,
    /// The encoding to send the body with, where one was set.
    pub encoding: Option<ContentEncoding>,
}

impl<B> Response<B> {
    /// A response with this head and body, and no encoding set.
    pub fn new(head: ResponseHead, body: B) -> (response: Response<B>)
        ensures
            response.head == head,
            response.body == body,
            response.encoding is None,
    {
        Response { head, body, encoding: None }
    }

    /// Takes the body out and puts `body` in its place.
    pub fn replace_body<B2>(self, body: B2) -> (parts: (Response<B2>, B))
        ensures
            parts.0.head == self.head,
            parts.0.body == body,
            parts.0.encoding == self.encoding,
            parts.1 == self.body,
    {
        (Response { head: self.head, body, encoding: self.encoding }, self.body)
    }
}

/// Settings shared by every response of a connection.
pub struct ServiceConfig {
    /// The current time as the value of a `date` header. Whoever owns the
    /// clock refreshes it.
    pub date: HeaderValue,
}

impl Clone for ServiceConfig {
    /// Settings with the same `date` value.
    fn clone(&self) -> (copy: ServiceConfig)
        ensures
            crate::wire::header::header_value_bytes(copy.date)
                == crate::wire::header::header_value_bytes(self.date),
    {
        ServiceConfig { date: self.date.clone() }
    }
}

impl ServiceConfig {
    /// Settings with the given `date` value.
    pub fn new(date: HeaderValue) -> (config: ServiceConfig)
        ensures
            config.date == date,
    {
        ServiceConfig { date }
    }

    /// The value that a synthesized `date` header gets.
    pub fn date_header(&self) -> (value: HeaderValue)
        ensures
            crate::wire::header::header_value_bytes(value)
                == crate::wire::header::header_value_bytes(self.date),
    {
        self.date.clone()
    }
}

} // verus!
