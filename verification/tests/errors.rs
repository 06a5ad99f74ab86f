use std::fmt;

use actix_dispatch::error::InvalidUrl;
use actix_dispatch::error::JsonPayloadError;
use actix_dispatch::error::WsClientError;
use actix_dispatch::message::StatusCode;
use http::header::HeaderValue;

#[derive(Debug, PartialEq)]
struct Protocol(&'static str);

impl fmt::Display for Protocol {
    fn fmt(&self, f: &mut fmt::Formatter<'_>) -> fmt::Result {
        f.write_str(self.0)
    }
}

#[derive(Debug)]
enum SendRequest {
    Url(InvalidUrl),
    Http(http::Error),
}

impl fmt::Display for SendRequest {
    fn fmt(&self, f: &mut fmt::Formatter<'_>) -> fmt::Result {
        match self {
            SendRequest::Url(_) => f.write_str("invalid url"),
            SendRequest::Http(err) => err.fmt(f),
        }
    }
}

impl From<InvalidUrl> for SendRequest {
    fn from(err: InvalidUrl) -> Self {
        SendRequest::Url(err)
    }
}

impl From<http::Error> for SendRequest {
    fn from(err: http::Error) -> Self {
        SendRequest::Http(err)
    }
}

type WsError = WsClientError<Protocol, SendRequest>;

fn http_error() -> http::Error {
    http::Request::builder()
        .method("not a method")
        .body(())
        .unwrap_err()
}

fn json_error() -> serde_json::Error {
    serde_json::from_str::<u8>("{").unwrap_err()
}

#[test]
fn handshake_errors_describe_themselves() {
    let status = StatusCode::from_u16(500).unwrap();
    let value = HeaderValue::from_static("close");
    let cases: Vec<(WsError, &str)> = vec![
        (
            WsClientError::InvalidResponseStatus(status),
            "Invalid response status",
        ),
        (WsClientError::InvalidUpgradeHeader, "Invalid upgrade header"),
        (
            WsClientError::InvalidConnectionHeader(value.clone()),
            "Invalid connection header",
        ),
        (
            WsClientError::MissingConnectionHeader,
            "Missing Connection header",
        ),
        (
            WsClientError::MissingWebSocketAcceptHeader,
            "Missing Sec-Websocket-Accept header",
        ),
        (
            WsClientError::InvalidChallengeResponse([0; 28], value),
            "Invalid challenge response",
        ),
        (WsClientError::Protocol(Protocol("bad opcode")), "bad opcode"),
        (
            WsClientError::SendRequest(SendRequest::Url(InvalidUrl::MissingHost)),
            "invalid url",
        ),
    ];
    for (error, text) in cases {
        assert_eq!(error.message(), text);
    }
}

#[test]
fn handshake_errors_come_from_what_they_hold() {
    let status = StatusCode::from_u16(404).unwrap();
    assert!(matches!(
        WsError::from(status),
        WsClientError::InvalidResponseStatus(s) if s.as_u16() == 404
    ));
    assert!(matches!(
        WsError::from(HeaderValue::from_static("close")),
        WsClientError::InvalidConnectionHeader(v) if v == "close"
    ));
    assert!(matches!(
        WsError::from(([7u8; 28], HeaderValue::from_static("key"))),
        WsClientError::InvalidChallengeResponse(expected, got)
            if expected == [7u8; 28] && got == "key"
    ));
}

#[test]
fn url_and_http_errors_become_send_request_errors() {
    assert!(matches!(
        WsError::from(InvalidUrl::MissingScheme),
        WsClientError::SendRequest(SendRequest::Url(InvalidUrl::MissingScheme))
    ));
    assert!(matches!(
        WsError::from(InvalidUrl::UnknownScheme),
        WsClientError::SendRequest(SendRequest::Url(InvalidUrl::UnknownScheme))
    ));
    assert!(matches!(
        WsError::from(InvalidUrl::HttpError(http_error())),
        WsClientError::SendRequest(SendRequest::Url(InvalidUrl::HttpError(_)))
    ));
    let shown = http_error().to_string();
    let error = WsError::from(http_error());
    assert!(matches!(
        error,
        WsClientError::SendRequest(SendRequest::Http(_))
    ));
    assert_eq!(error.message(), shown);
}

#[test]
fn json_errors_describe_themselves() {
    let content_type: JsonPayloadError<Protocol> = JsonPayloadError::ContentType;
    assert_eq!(content_type.message(), "Content type error");

    let shown = json_error().to_string();
    let deserialize: JsonPayloadError<Protocol> = JsonPayloadError::from(json_error());
    assert!(matches!(deserialize, JsonPayloadError::Deserialize(_)));
    assert_eq!(
        deserialize.message(),
        format!("Json deserialize error: {}", shown)
    );

    let payload = JsonPayloadError::Payload(Protocol("overflow"));
    assert_eq!(
        payload.message(),
        "Error that occur during reading payload: overflow"
    );
}
