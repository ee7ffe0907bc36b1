//! Answers of the camera as plain values, and what the client makes of them.

use vstd::prelude::*;
use vstd::string::*;
use crate::decode::{decoded, parse, parse_document, Decode};
use crate::error::{ErrorView, LimelightError};
use crate::json::{json_of, parse_json, Json};
use crate::models::{LimelightResult, ResultView};
use crate::text::{decimal, decimal_string};

verus! {

/// One answer of the camera: the HTTP status and the body as text.
#[derive(Debug)]
pub struct Response {
    pub status: u16,
    pub body: String,
}

/// Whether a status lies in the 2xx range.
pub open spec fn is_success(status: u16) -> bool {
    200 <= status < 300
}

/// The error that reports a status outside the 2xx range.
pub open spec fn status_error(status: u16) -> ErrorView {
    ErrorView::HttpError("unexpected status "@ + decimal(status as nat))
}

/// What a poll of the results endpoint yields: the snapshot, or the error.
/// An error is fixed here only as far as the client decides it.
pub open spec fn poll_outcome(status: u16, document: Option<Json>) -> Option<ResultView> {
    if is_success(status) {
        decoded::<LimelightResult>(document)
    } else {
        None
    }
}

impl Response {
    /// Whether the camera accepted the request: the status is in the 2xx
    /// range, whatever the body holds.
    pub fn succeeded(&self) -> (r: bool)
        ensures
            r == is_success(self.status),
    {
        200 <= self.status && self.status < 300
    }

    /// The body as a JSON document, whatever the status.
    pub fn json(&self) -> (r: Result<serde_json::Value, LimelightError>)
        ensures
            match r {
                Ok(v) => parse_json(self.body@) == Some(json_of(v)),
                Err(e) => e is JsonError && parse_json(self.body@) is None,
            },
    {
        parse_document(self.body.as_str())
    }

    /// The body as a value of type `T`, whatever the status.
    pub fn decode<T: Decode>(&self) -> (r: Result<T, LimelightError>)
        ensures
            match r {
                Ok(x) => decoded::<T>(parse_json(self.body@)) == Some(x.deep_view()),
                Err(e) => e is JsonError && decoded::<T>(parse_json(self.body@)) is None,
            },
    {
        parse::<T>(self.body.as_str())
    }

    /// The snapshot that an answer of the results endpoint holds. A status
    /// outside the 2xx range is an `HttpError`, whatever the body; a body that
    /// is no snapshot is a `JsonError`.
    pub fn results(&self) -> (r: Result<LimelightResult, LimelightError>)
        ensures
            match r {
                Ok(x) => poll_outcome(self.status, parse_json(self.body@)) == Some(x@),
                Err(e) => poll_outcome(self.status, parse_json(self.body@)) is None && if is_success(
                    self.status,
                ) {
                    e is JsonError
                } else {
                    e@ == status_error(self.status)
                },
            },
    {
        if self.succeeded() {
            parse::<LimelightResult>(self.body.as_str())
        } else {
            let digits = decimal_string(self.status as u64);
            Err(
                LimelightError::HttpError(
                    String::from_str("unexpected status ").concat(digits.as_str()),
                ),
            )
        }
    }
}

} // verus!
