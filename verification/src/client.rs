//! The client's side of a call: the text to send, and what the reply means.

use crate::codec::{
    decode_response, encode_request, request_of_text, request_text, response_of_text,
};
use crate::message::{
    clone_opt_text, opt_text, same_text, supported_version, Request, RequestView, Response,
    ResponseView,
};
use vstd::prelude::*;

verus! {

/// Why a call gave no result.
#[derive(Debug, PartialEq, Eq)]
pub enum CallError {
    /// The reply carried an error and no result.
    Remote { id: String, code: i32, message: String },
    /// The reply was no response, or a response with neither a result nor
    /// an error. `reply_id` is the id of the response where there was one.
    Malformed { reply_id: Option<String> },
}

pub enum CallErrorView {
    Remote { id: Seq<char>, code: i32, message: Seq<char> },
    Malformed { reply_id: Option<Seq<char>> },
}

impl View for CallError {
    type V = CallErrorView;

    open spec fn view(&self) -> CallErrorView {
        match self {
            CallError::Remote { id, code, message } => CallErrorView::Remote {
                id: id@,
                code: *code,
                message: message@,
            },
            CallError::Malformed { reply_id } => CallErrorView::Malformed {
                reply_id: opt_text(*reply_id),
            },
        }
    }
}

impl Clone for CallError {
    fn clone(&self) -> (r: Self)
        ensures
            r == *self,
    {
        match self {
            CallError::Remote { id, code, message } => CallError::Remote {
                id: id.clone(),
                code: *code,
                message: message.clone(),
            },
            CallError::Malformed { reply_id } => CallError::Malformed {
                reply_id: clone_opt_text(reply_id),
            },
        }
    }
}

impl CallErrorView {
    /// The words for an error.
    pub open spec fn message(self) -> Seq<char> {
        match self {
            CallErrorView::Remote { .. } => "json rpc error raised"@,
            CallErrorView::Malformed { .. } => "failed to parse result"@,
        }
    }
}

impl CallError {
    /// The words for an error.
    pub fn message(&self) -> (r: &'static str)
        ensures
            r@ == self@.message(),
    {
        match self {
            CallError::Remote { .. } => "json rpc error raised",
            CallError::Malformed { .. } => "failed to parse result",
        }
    }
}

/// What a call returns, as texts.
pub open spec fn call_result_view(result: Result<String, CallError>) -> Result<
    Seq<char>,
    CallErrorView,
> {
    match result {
        Ok(text) => Ok(text@),
        Err(e) => Err(e@),
    }
}

/// What a response means to the caller. A result is returned, also beside
/// an error; an error without a result fails the call; a response with
/// neither is malformed.
pub open spec fn call_result_of(response: ResponseView) -> Result<Seq<char>, CallErrorView> {
    match response.result {
        Some(text) => Ok(text),
        None => match response.error {
            Some(e) => Err(
                CallErrorView::Remote { id: response.id, code: e.code, message: e.message },
            ),
            None => Err(CallErrorView::Malformed { reply_id: Some(response.id) }),
        },
    }
}

/// What a reply text means to the caller.
pub open spec fn call_result_of_text(reply: Seq<char>) -> Result<Seq<char>, CallErrorView> {
    match response_of_text(reply) {
        Some(response) => call_result_of(response),
        None => Err(CallErrorView::Malformed { reply_id: None }),
    }
}

impl ResponseView {
    /// Whether the response is in the supported protocol version.
    pub open spec fn has_supported_version(self) -> bool {
        self.protocol_version == supported_version()
    }
}

impl Response {
    /// Whether the response is in the supported protocol version. A caller
    /// may warn where it is not; the response still counts.
    pub fn has_supported_version(&self) -> (r: bool)
        ensures
            r == self@.has_supported_version(),
    {
        same_text(self.protocol_version.as_str(), "2.0")
    }

    /// Turns a response into what the call returns.
    pub fn into_call_result(self) -> (r: Result<String, CallError>)
        ensures
            call_result_view(r) == call_result_of(self@),
    {
        let Response { id, result, error, .. } = self;
        match result {
            Some(text) => Ok(text),
            None => match error {
                Some(e) => Err(CallError::Remote { id, code: e.code, message: e.message }),
                None => Err(CallError::Malformed { reply_id: Some(id) }),
            },
        }
    }
}

/// The message text of a call: a request in the supported version. Decoding
/// the text gives that request.
pub fn call_text(id: &str, method: &str, params: &str) -> (text: String)
    ensures
        text@ == request_text(
            RequestView {
                protocol_version: Some(supported_version()),
                id: id@,
                method: method@,
                params: params@,
            },
        ),
        request_of_text(text@) == Some(
            RequestView {
                protocol_version: Some(supported_version()),
                id: id@,
                method: method@,
                params: params@,
            },
        ),
{
    encode_request(&Request::new(id, method, params))
}

/// Reads the reply to a call: the result, or why there is none.
pub fn read_reply(reply: &str) -> (r: Result<String, CallError>)
    ensures
        call_result_view(r) == call_result_of_text(reply@),
{
    match decode_response(reply) {
        Some(response) => response.into_call_result(),
        None => Err(CallError::Malformed { reply_id: None }),
    }
}

} // verus!
