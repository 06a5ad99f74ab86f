//! Errors of the client side: of a WebSocket handshake and of reading a JSON
//! payload.

use crate::message::StatusCode;
use http::header::HeaderValue;
use std::fmt::Display;
use vstd::prelude::*;
use vstd::std_specs::convert::FromSpecImpl;
use vstd::string::StringExecFns;

verus! {

/// The type `http::Error`: a failure to put a request or a response
/// together. Verified code only carries it.
#[verifier::external_type_specification]
#[verifier::external_body]
pub struct ExHttpError(http::Error);

/// The type `serde_json::Error`: a failure to read or write JSON. Verified
/// code only carries it.
#[verifier::external_type_specification]
#[verifier::external_body]
pub struct ExJsonError(serde_json::Error);

/// Why a URL cannot be requested.
#[derive(Debug)]
pub enum InvalidUrl {
    /// The URL has no scheme.
    MissingScheme,
    /// The scheme of the URL is not one that can be requested.
    UnknownScheme,
    /// The URL has no host.
    MissingHost,
    /// The URL could not be parsed.
    HttpError(http::Error),
}

/// The failure of a WebSocket handshake. `P` is a failure of the WebSocket
/// protocol, `R` a failure to send the request.
#[derive(Debug)]
pub enum WsClientError<P, R> {
    /// The response has a status other than the one that switches protocols.
    InvalidResponseStatus(StatusCode),
    /// The response has no `upgrade` header that names WebSocket.
    InvalidUpgradeHeader,
    /// The `connection` header of the response does not ask for an upgrade.
    InvalidConnectionHeader(HeaderValue),
    /// The response has no `connection` header.
    MissingConnectionHeader,
    /// The response has no `sec-websocket-accept` header.
    MissingWebSocketAcceptHeader,
    /// The response answers the challenge wrongly: what was expected, and
    /// what came.
    InvalidChallengeResponse([u8; 28], HeaderValue),
    /// The WebSocket protocol was violated.
    Protocol(P),
    /// The request could not be sent.
    SendRequest(R),
}

impl<P, R> From<StatusCode> for WsClientError<P, R> {
    fn from(status: StatusCode) -> (error: Self) {
        WsClientError::InvalidResponseStatus(status)
    }
}

impl<P, R> FromSpecImpl<StatusCode> for WsClientError<P, R> {
    open spec fn obeys_from_spec() -> bool {
        true
    }

    open spec fn from_spec(status: StatusCode) -> Self {
        WsClientError::InvalidResponseStatus(status)
    }
}

impl<P, R> From<HeaderValue> for WsClientError<P, R> {
    fn from(value: HeaderValue) -> (error: Self) {
        WsClientError::InvalidConnectionHeader(value)
    }
}

impl<P, R> FromSpecImpl<HeaderValue> for WsClientError<P, R> {
    open spec fn obeys_from_spec() -> bool {
        true
    }

    open spec fn from_spec(value: HeaderValue) -> Self {
        WsClientError::InvalidConnectionHeader(value)
    }
}

impl<P, R> From<([u8; 28], HeaderValue)> for WsClientError<P, R> {
    fn from(challenge: ([u8; 28], HeaderValue)) -> (error: Self) {
        WsClientError::InvalidChallengeResponse(challenge.0, challenge.1)
    }
}

impl<P, R> FromSpecImpl<([u8; 28], HeaderValue)> for WsClientError<P, R> {
    open spec fn obeys_from_spec() -> bool {
        true
    }

    open spec fn from_spec(challenge: ([u8; 28], HeaderValue)) -> Self {
        WsClientError::InvalidChallengeResponse(challenge.0, challenge.1)
    }
}

impl<P, R: From<InvalidUrl>> From<InvalidUrl> for WsClientError<P, R> {
    fn from(err: InvalidUrl) -> (error: Self) {
        WsClientError::SendRequest(R::from(err))
    }
}

impl<P, R: From<InvalidUrl>> FromSpecImpl<InvalidUrl> for WsClientError<P, R> {
    open spec fn obeys_from_spec() -> bool {
        <R as vstd::std_specs::convert::FromSpec<InvalidUrl>>::obeys_from_spec()
    }

    open spec fn from_spec(err: InvalidUrl) -> Self {
        WsClientError::SendRequest(
            <R as vstd::std_specs::convert::FromSpec<InvalidUrl>>::from_spec(err),
        )
    }
}

impl<P, R: From<http::Error>> From<http::Error> for WsClientError<P, R> {
    fn from(err: http::Error) -> (error: Self) {
        WsClientError::SendRequest(R::from(err))
    }
}

impl<P, R: From<http::Error>> FromSpecImpl<http::Error> for WsClientError<P, R> {
    open spec fn obeys_from_spec() -> bool {
        <R as vstd::std_specs::convert::FromSpec<http::Error>>::obeys_from_spec()
    }

    open spec fn from_spec(err: http::Error) -> Self {
        WsClientError::SendRequest(
            <R as vstd::std_specs::convert::FromSpec<http::Error>>::from_spec(err),
        )
    }
}

impl<P: Display, R: Display> WsClientError<P, R> {
    /// Whether `text` describes this error: a fixed sentence for each kind,
    /// and for a failure of the protocol or of sending the request what that
    /// failure displays as.
    pub open spec fn described_by(&self, text: String) -> bool {
        match self {
            WsClientError::InvalidResponseStatus(_) => text@ == "Invalid response status"@,
            WsClientError::InvalidUpgradeHeader => text@ == "Invalid upgrade header"@,
            WsClientError::InvalidConnectionHeader(_) => text@ == "Invalid connection header"@,
            WsClientError::MissingConnectionHeader => text@ == "Missing Connection header"@,
            WsClientError::MissingWebSocketAcceptHeader => text@
                == "Missing Sec-Websocket-Accept header"@,
            WsClientError::InvalidChallengeResponse(_, _) => text@
                == "Invalid challenge response"@,
            WsClientError::Protocol(err) => vstd::string::to_string_from_display_ensures::<P>(
                err,
                text,
            ),
            WsClientError::SendRequest(err) => vstd::string::to_string_from_display_ensures::<R>(
                err,
                text,
            ),
        }
    }

    /// The description of the error.
    pub fn message(&self) -> (text: String)
        ensures
            self.described_by(text),
    {
        match self {
            WsClientError::InvalidResponseStatus(_) => String::from_str("Invalid response status"),
            WsClientError::InvalidUpgradeHeader => String::from_str("Invalid upgrade header"),
            WsClientError::InvalidConnectionHeader(_) => String::from_str(
                "Invalid connection header",
            ),
            WsClientError::MissingConnectionHeader => String::from_str("Missing Connection header"),
            WsClientError::MissingWebSocketAcceptHeader => String::from_str(
                "Missing Sec-Websocket-Accept header",
            ),
            WsClientError::InvalidChallengeResponse(_, _) => String::from_str(
                "Invalid challenge response",
            ),
            WsClientError::Protocol(err) => err.to_string(),
            WsClientError::SendRequest(err) => err.to_string(),
        }
    }
}

/// The failure to read a JSON payload. `P` is a failure to read the payload
/// itself.
#[derive(Debug)]
pub enum JsonPayloadError<P> {
    /// The content type is not one of JSON.
    ContentType,
    /// The payload is not the JSON that was asked for.
    Deserialize(serde_json::Error),
    /// The payload could not be read.
    Payload(P),
}

impl<P> From<serde_json::Error> for JsonPayloadError<P> {
    fn from(err: serde_json::Error) -> (error: Self) {
        JsonPayloadError::Deserialize(err)
    }
}

impl<P> FromSpecImpl<serde_json::Error> for JsonPayloadError<P> {
    open spec fn obeys_from_spec() -> bool {
        true
    }

    open spec fn from_spec(err: serde_json::Error) -> Self {
        JsonPayloadError::Deserialize(err)
    }
}

impl<P: Display> JsonPayloadError<P> {
    /// Whether `text` describes this error: a fixed sentence for a wrong
    /// content type, else a fixed beginning followed by what the failure
    /// inside displays as.
    pub open spec fn described_by(&self, text: String) -> bool {
        match self {
            JsonPayloadError::ContentType => text@ == "Content type error"@,
            JsonPayloadError::Deserialize(err) => exists|shown: String|
                #![auto]
                vstd::string::to_string_from_display_ensures::<serde_json::Error>(err, shown)
                    && text@ == "Json deserialize error: "@ + shown@,
            JsonPayloadError::Payload(err) => exists|shown: String|
                #![auto]
                vstd::string::to_string_from_display_ensures::<P>(err, shown) && text@
                    == "Error that occur during reading payload: "@ + shown@,
        }
    }

    /// The description of the error.
    pub fn message(&self) -> (text: String)
        ensures
            self.described_by(text),
    {
        match self {
            JsonPayloadError::ContentType => String::from_str("Content type error"),
            JsonPayloadError::Deserialize(err) => {
                let shown = err.to_string();
                String::from_str("Json deserialize error: ").concat(shown.as_str())
            },
            JsonPayloadError::Payload(err) => {
                let shown = err.to_string();
                String::from_str("Error that occur during reading payload: ").concat(
                    shown.as_str(),
                )
            },
        }
    }
}

} // verus!
