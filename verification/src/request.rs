//! Requests to the camera as plain values: what is to be sent, to which URL
//! and within what time. Sending them is left to the caller.

use vstd::prelude::*;
use vstd::string::*;
use crate::config::{ConfigView, LimelightConfig};
use crate::double::Double;
use crate::json::{json_of, Json};
use crate::text::{decimal, decimal_string};

verus! {

/// The time that the camera is given to answer one request, in milliseconds.
pub const REQUEST_TIMEOUT_MS: u64 = 100;

/// The HTTP methods that the camera's API uses.
#[derive(Clone, Copy, Debug, PartialEq, Eq, Structural)]
pub enum Method {
    Get,
    Post,
    Delete,
}

/// What a request carries.
#[derive(Debug)]
pub enum Body {
    /// Nothing.
    Empty,
    /// The JSON document `null`.
    JsonNull,
    /// A JSON array of numbers.
    Numbers(Vec<Double>),
    /// A JSON document.
    Json(serde_json::Value),
    /// Bytes, sent as they are.
    Bytes(Vec<u8>),
    /// Text, sent as it is.
    Text(String),
}

/// A body as a mathematical value.
pub ghost enum BodyView {
    Empty,
    JsonNull,
    Numbers(Seq<Double>),
    Json(Json),
    Bytes(Seq<u8>),
    Text(Seq<char>),
}

impl View for Body {
    type V = BodyView;

    open spec fn view(&self) -> BodyView {
        match self {
            Body::Empty => BodyView::Empty,
            Body::JsonNull => BodyView::JsonNull,
            Body::Numbers(n) => BodyView::Numbers(n@),
            Body::Json(j) => BodyView::Json(json_of(*j)),
            Body::Bytes(b) => BodyView::Bytes(b@),
            Body::Text(t) => BodyView::Text(t@),
        }
    }
}

/// One request to the camera.
#[derive(Debug)]
pub struct Request {
    pub method: Method,
    pub url: String,
    pub body: Body,
    pub timeout_ms: u64,
}

/// A request as a mathematical value.
pub ghost struct RequestView {
    pub method: Method,
    pub url: Seq<char>,
    pub body: BodyView,
    pub timeout_ms: u64,
}

impl View for Request {
    type V = RequestView;

    open spec fn view(&self) -> RequestView {
        RequestView {
            method: self.method,
            url: self.url@,
            body: self.body@,
            timeout_ms: self.timeout_ms,
        }
    }
}

/// The URL of an endpoint of the camera at `config`.
pub open spec fn url_of(config: ConfigView, endpoint: Seq<char>) -> Seq<char> {
    "http://"@ + config.host + ":"@ + decimal(config.port as nat) + "/"@ + endpoint
}

/// The request that reads an endpoint.
pub open spec fn get_of(config: ConfigView, endpoint: Seq<char>) -> RequestView {
    RequestView {
        method: Method::Get,
        url: url_of(config, endpoint),
        body: BodyView::Empty,
        timeout_ms: REQUEST_TIMEOUT_MS,
    }
}

/// The request that posts a body to an endpoint.
pub open spec fn post_of(config: ConfigView, endpoint: Seq<char>, body: BodyView) -> RequestView {
    RequestView {
        method: Method::Post,
        url: url_of(config, endpoint),
        body,
        timeout_ms: REQUEST_TIMEOUT_MS,
    }
}

/// The request that deletes what an endpoint names.
pub open spec fn delete_of(config: ConfigView, endpoint: Seq<char>) -> RequestView {
    RequestView {
        method: Method::Delete,
        url: url_of(config, endpoint),
        body: BodyView::Empty,
        timeout_ms: REQUEST_TIMEOUT_MS,
    }
}

/// An endpoint with one query parameter.
pub open spec fn with_query(path: Seq<char>, name: Seq<char>, value: Seq<char>) -> Seq<char> {
    path + "?"@ + name + "="@ + value
}

/// An endpoint with one more query parameter.
pub open spec fn and_query(endpoint: Seq<char>, name: Seq<char>, value: Seq<char>) -> Seq<char> {
    endpoint + "&"@ + name + "="@ + value
}

/// An endpoint with the query parameter `index`, where one is given.
pub open spec fn with_index(path: Seq<char>, index: Option<u32>) -> Seq<char> {
    match index {
        Some(i) => with_query(path, "index"@, decimal(i as nat)),
        None => path,
    }
}

/// Builds the URL of an endpoint of the camera at `config`.
pub fn build_url(config: &LimelightConfig, endpoint: &str) -> (url: String)
    ensures
        url@ == url_of(config@, endpoint@),
{
    let port = decimal_string(config.port as u64);
    String::from_str("http://").concat(config.host.as_str()).concat(":").concat(
        port.as_str(),
    ).concat("/").concat(endpoint)
}

/// Appends the first query parameter to a path.
pub fn add_query(path: &str, name: &str, value: &str) -> (endpoint: String)
    ensures
        endpoint@ == with_query(path@, name@, value@),
{
    String::from_str(path).concat("?").concat(name).concat("=").concat(value)
}

/// Appends one more query parameter to an endpoint.
pub fn add_more_query(endpoint: String, name: &str, value: &str) -> (r: String)
    ensures
        r@ == and_query(endpoint@, name@, value@),
{
    endpoint.concat("&").concat(name).concat("=").concat(value)
}

/// Appends the query parameter `index` to a path, where one is given.
pub fn add_index(path: &str, index: Option<u32>) -> (endpoint: String)
    ensures
        endpoint@ == with_index(path@, index),
{
    match index {
        Some(i) => {
            let digits = decimal_string(i as u64);
            add_query(path, "index", digits.as_str())
        },
        None => String::from_str(path),
    }
}

impl Request {
    /// The request that reads an endpoint.
    pub fn get(config: &LimelightConfig, endpoint: &str) -> (r: Request)
        ensures
            r@ == get_of(config@, endpoint@),
    {
        Request {
            method: Method::Get,
            url: build_url(config, endpoint),
            body: Body::Empty,
            timeout_ms: REQUEST_TIMEOUT_MS,
        }
    }

    /// The request that posts a body to an endpoint.
    pub fn post(config: &LimelightConfig, endpoint: &str, body: Body) -> (r: Request)
        ensures
            r@ == post_of(config@, endpoint@, body@),
    {
        Request {
            method: Method::Post,
            url: build_url(config, endpoint),
            body,
            timeout_ms: REQUEST_TIMEOUT_MS,
        }
    }

    /// The request that deletes what an endpoint names.
    pub fn delete(config: &LimelightConfig, endpoint: &str) -> (r: Request)
        ensures
            r@ == delete_of(config@, endpoint@),
    {
        Request {
            method: Method::Delete,
            url: build_url(config, endpoint),
            body: Body::Empty,
            timeout_ms: REQUEST_TIMEOUT_MS,
        }
    }
}

} // verus!
