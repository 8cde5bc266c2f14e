//! The request and response envelopes and the error vocabulary.

use vstd::prelude::*;

verus! {

/// Error code of a message that is no request.
pub const INVALID_REQUEST: i32 = -32600;

/// Error code of a request that names no registered method.
pub const METHOD_NOT_FOUND: i32 = -32601;

/// Error code of a handler that failed.
pub const INTERNAL_ERROR: i32 = -32603;

/// The protocol version that this library speaks.
pub open spec fn supported_version() -> Seq<char> {
    "2.0"@
}

/// The correlation id of a response that answers no particular request.
pub open spec fn no_id() -> Seq<char> {
    "-1"@
}

pub open spec fn invalid_request_message() -> Seq<char> {
    "Invalid jsonrpc request"@
}

pub open spec fn method_not_found_message() -> Seq<char> {
    "Method not found"@
}

pub open spec fn internal_error_message() -> Seq<char> {
    "internal call error"@
}

pub open spec fn version_mismatch_text() -> Seq<char> {
    "Invalid jsonrpc version"@
}

/// The text of an optional string.
pub open spec fn opt_text(text: Option<String>) -> Option<Seq<char>> {
    match text {
        Some(t) => Some(t@),
        None => None,
    }
}

/// A copy of an optional text.
pub fn clone_opt_text(text: &Option<String>) -> (r: Option<String>)
    ensures
        r == *text,
{
    match text {
        Some(t) => Some(t.clone()),
        None => None,
    }
}

/// Whether two texts are the same.
pub fn same_text(a: &str, b: &str) -> (r: bool)
    ensures
        r == (a@ == b@),
{
    a.to_owned() == b.to_owned()
}

/// A request envelope. `protocol_version` travels under the key `jsonrpc`
/// and is `None` when the sender left it out.
#[derive(Debug, PartialEq, Eq)]
pub struct Request {
    pub protocol_version: Option<String>,
    pub id: String,
    pub method: String,
    pub params: String,
}

pub struct RequestView {
    pub protocol_version: Option<Seq<char>>,
    pub id: Seq<char>,
    pub method: Seq<char>,
    pub params: Seq<char>,
}

impl View for Request {
    type V = RequestView;

    open spec fn view(&self) -> RequestView {
        RequestView {
            protocol_version: opt_text(self.protocol_version),
            id: self.id@,
            method: self.method@,
            params: self.params@,
        }
    }
}

impl Clone for Request {
    fn clone(&self) -> (r: Self)
        ensures
            r == *self,
    {
        Request {
            protocol_version: clone_opt_text(&self.protocol_version),
            id: self.id.clone(),
            method: self.method.clone(),
            params: self.params.clone(),
        }
    }
}

impl RequestView {
    /// Whether the request speaks the supported protocol version.
    pub open spec fn has_supported_version(self) -> bool {
        self.protocol_version == Some(supported_version())
    }
}

impl Request {
    /// A request in the supported protocol version.
    pub fn new(id: &str, method: &str, params: &str) -> (r: Request)
        ensures
            r@ == (RequestView {
                protocol_version: Some(supported_version()),
                id: id@,
                method: method@,
                params: params@,
            }),
    {
        Request {
            protocol_version: Some("2.0".to_owned()),
            id: id.to_owned(),
            method: method.to_owned(),
            params: params.to_owned(),
        }
    }

    /// Whether the request speaks the supported protocol version. A request
    /// without a version does not.
    pub fn has_supported_version(&self) -> (r: bool)
        ensures
            r == self@.has_supported_version(),
    {
        match &self.protocol_version {
            Some(v) => same_text(v.as_str(), "2.0"),
            None => false,
        }
    }
}

/// The error of a response.
#[derive(Debug, PartialEq, Eq)]
pub struct RpcError {
    pub code: i32,
    pub message: String,
}

pub struct RpcErrorView {
    pub code: i32,
    pub message: Seq<char>,
}

impl View for RpcError {
    type V = RpcErrorView;

    open spec fn view(&self) -> RpcErrorView {
        RpcErrorView { code: self.code, message: self.message@ }
    }
}

impl Clone for RpcError {
    fn clone(&self) -> (r: Self)
        ensures
            r == *self,
    {
        RpcError { code: self.code, message: self.message.clone() }
    }
}

pub open spec fn opt_error(error: Option<RpcError>) -> Option<RpcErrorView> {
    match error {
        Some(e) => Some(e@),
        None => None,
    }
}

/// A response envelope. One that this library builds carries exactly one of
/// `result` and `error`; one that was read from a peer may carry both or
/// neither.
#[derive(Debug, PartialEq, Eq)]
pub struct Response {
    pub protocol_version: String,
    pub id: String,
    pub result: Option<String>,
    pub error: Option<RpcError>,
}

pub struct ResponseView {
    pub protocol_version: Seq<char>,
    pub id: Seq<char>,
    pub result: Option<Seq<char>>,
    pub error: Option<RpcErrorView>,
}

impl View for Response {
    type V = ResponseView;

    open spec fn view(&self) -> ResponseView {
        ResponseView {
            protocol_version: self.protocol_version@,
            id: self.id@,
            result: opt_text(self.result),
            error: opt_error(self.error),
        }
    }
}

impl Clone for Response {
    fn clone(&self) -> (r: Self)
        ensures
            r == *self,
    {
        Response {
            protocol_version: self.protocol_version.clone(),
            id: self.id.clone(),
            result: clone_opt_text(&self.result),
            error: match &self.error {
                Some(e) => Some(e.clone()),
                None => None,
            },
        }
    }
}

impl ResponseView {
    /// Exactly one of `result` and `error` is there.
    pub open spec fn well_formed(self) -> bool {
        self.result is Some != self.error is Some
    }

    /// The response that carries a result.
    pub open spec fn success(id: Seq<char>, text: Seq<char>) -> ResponseView {
        ResponseView {
            protocol_version: supported_version(),
            id,
            result: Some(text),
            error: None,
        }
    }

    /// The response that carries an error.
    pub open spec fn failure(id: Seq<char>, code: i32, message: Seq<char>) -> ResponseView {
        ResponseView {
            protocol_version: supported_version(),
            id,
            result: None,
            error: Some(RpcErrorView { code, message }),
        }
    }

    pub open spec fn invalid_request() -> ResponseView {
        Self::failure(no_id(), INVALID_REQUEST, invalid_request_message())
    }

    pub open spec fn version_mismatch(id: Seq<char>) -> ResponseView {
        Self::success(id, version_mismatch_text())
    }

    pub open spec fn method_not_found(id: Seq<char>) -> ResponseView {
        Self::failure(id, METHOD_NOT_FOUND, method_not_found_message())
    }

    pub open spec fn internal_error() -> ResponseView {
        Self::failure(no_id(), INTERNAL_ERROR, internal_error_message())
    }
}

impl Response {
    /// The response that carries `text` as its result.
    pub fn success(id: String, text: String) -> (r: Response)
        ensures
            r@ == ResponseView::success(id@, text@),
            r@.well_formed(),
    {
        Response { protocol_version: "2.0".to_owned(), id, result: Some(text), error: None }
    }

    /// The response that carries an error.
    pub fn failure(id: String, code: i32, message: String) -> (r: Response)
        ensures
            r@ == ResponseView::failure(id@, code, message@),
            r@.well_formed(),
    {
        Response {
            protocol_version: "2.0".to_owned(),
            id,
            result: None,
            error: Some(RpcError { code, message }),
        }
    }

    /// The answer to a message that is no request: there is no id to echo.
    pub fn invalid_request() -> (r: Response)
        ensures
            r@ == ResponseView::invalid_request(),
            r@.well_formed(),
    {
        Response::failure("-1".to_owned(), INVALID_REQUEST, "Invalid jsonrpc request".to_owned())
    }

    /// The answer to a request in another protocol version. It travels as a
    /// result, not as an error.
    pub fn version_mismatch(id: String) -> (r: Response)
        ensures
            r@ == ResponseView::version_mismatch(id@),
            r@.well_formed(),
    {
        Response::success(id, "Invalid jsonrpc version".to_owned())
    }

    /// The answer to a request that names no registered method.
    pub fn method_not_found(id: String) -> (r: Response)
        ensures
            r@ == ResponseView::method_not_found(id@),
            r@.well_formed(),
    {
        Response::failure(id, METHOD_NOT_FOUND, "Method not found".to_owned())
    }

    /// The answer to a request whose handler failed. It does not echo the
    /// request's id.
    pub fn internal_error() -> (r: Response)
        ensures
            r@ == ResponseView::internal_error(),
            r@.well_formed(),
    {
        Response::failure("-1".to_owned(), INTERNAL_ERROR, "internal call error".to_owned())
    }
}

} // verus!
