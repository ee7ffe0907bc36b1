//! What can go wrong between the caller, the client and the camera.

use vstd::prelude::*;
use vstd::string::*;

verus! {

/// The failures that the client reports. Variants that stem from another
/// layer carry that layer's description of the failure.
#[derive(Debug)]
pub enum LimelightError {
    /// The request did not reach the camera, timed out, or was answered with
    /// a status outside the 2xx range.
    HttpError(String),
    /// A WebSocket connection failed.
    WebSocketError(String),
    /// A response body is not JSON, or not JSON of the expected shape.
    JsonError(String),
    /// An address could not be parsed as a URL.
    UrlError(String),
    /// The caller passed a value that the client refuses.
    ConfigError(String),
    /// The camera did not answer in time.
    TimeoutError,
    /// The operation needs a running client.
    NotRunning,
}

/// An error as a mathematical value.
pub ghost enum ErrorView {
    HttpError(Seq<char>),
    WebSocketError(Seq<char>),
    JsonError(Seq<char>),
    UrlError(Seq<char>),
    ConfigError(Seq<char>),
    TimeoutError,
    NotRunning,
}

impl View for LimelightError {
    type V = ErrorView;

    open spec fn view(&self) -> ErrorView {
        match self {
            LimelightError::HttpError(s) => ErrorView::HttpError(s@),
            LimelightError::WebSocketError(s) => ErrorView::WebSocketError(s@),
            LimelightError::JsonError(s) => ErrorView::JsonError(s@),
            LimelightError::UrlError(s) => ErrorView::UrlError(s@),
            LimelightError::ConfigError(s) => ErrorView::ConfigError(s@),
            LimelightError::TimeoutError => ErrorView::TimeoutError,
            LimelightError::NotRunning => ErrorView::NotRunning,
        }
    }
}

impl ErrorView {
    /// The one-line description of the error.
    pub open spec fn message(self) -> Seq<char> {
        match self {
            ErrorView::HttpError(s) => "HTTP request failed: "@ + s,
            ErrorView::WebSocketError(s) => "WebSocket error: "@ + s,
            ErrorView::JsonError(s) => "JSON parsing error: "@ + s,
            ErrorView::UrlError(s) => "Invalid URL: "@ + s,
            ErrorView::ConfigError(s) => "Configuration error: "@ + s,
            ErrorView::TimeoutError => "Connection timeout"@,
            ErrorView::NotRunning => "Client not running"@,
        }
    }
}

impl LimelightError {
    /// The one-line description of the error.
    pub fn message(&self) -> (r: String)
        ensures
            r@ == self@.message(),
    {
        match self {
            LimelightError::HttpError(s) => String::from_str("HTTP request failed: ").concat(
                s.as_str(),
            ),
            LimelightError::WebSocketError(s) => String::from_str("WebSocket error: ").concat(
                s.as_str(),
            ),
            LimelightError::JsonError(s) => String::from_str("JSON parsing error: ").concat(
                s.as_str(),
            ),
            LimelightError::UrlError(s) => String::from_str("Invalid URL: ").concat(s.as_str()),
            LimelightError::ConfigError(s) => String::from_str("Configuration error: ").concat(
                s.as_str(),
            ),
            LimelightError::TimeoutError => String::from_str("Connection timeout"),
            LimelightError::NotRunning => String::from_str("Client not running"),
        }
    }
}

} // verus!
