//! The wire format: one JSON object per message.
//!
//! A request is `{"jsonrpc", "id", "method", "params"}`, a response is
//! `{"jsonrpc", "id"}` with `"result"` or `"error": {"code", "message"}`.
//! All members but `code` are strings.

use crate::json::{
    distinct_keys, doc_is_envelope, doc_member, json_doc, json_parse, json_render, member,
    members_of, int_value, object_value, parse, render, text_value, JsonDoc,
};
use crate::message::{
    opt_error, opt_text, Request, RequestView, Response, ResponseView, RpcError, RpcErrorView,
};
use serde_json::Value;
use vstd::prelude::*;
use vstd::utf8::{decode_utf8, valid_utf8};

verus! {

/// Calls `String::from_utf8`: the text that the bytes encode, `None` where
/// they are not UTF-8.
#[verifier::external_body]
pub(crate) fn text_of_bytes(bytes: Vec<u8>) -> (r: Option<String>)
    ensures
        match r {
            Some(text) => valid_utf8(bytes@) && text@ == decode_utf8(bytes@),
            None => !valid_utf8(bytes@),
        },
{
    match String::from_utf8(bytes) {
        Ok(text) => Some(text),
        Err(_) => None,
    }
}

/// The text of a string member; `None` where the member is missing or is no
/// string.
pub open spec fn text_member(doc: JsonDoc, key: Seq<char>) -> Option<Seq<char>> {
    match doc_member(doc, key) {
        Some(JsonDoc::Text(t)) => Some(t),
        _ => None,
    }
}

/// The request that a JSON value stands for. `id`, `method` and `params` must
/// be strings. `jsonrpc` may be missing; where it is there it must be a
/// string.
pub open spec fn request_of_doc(doc: JsonDoc) -> Option<RequestView> {
    let version = doc_member(doc, "jsonrpc"@);
    if text_member(doc, "id"@) is Some && text_member(doc, "method"@) is Some && text_member(
        doc,
        "params"@,
    ) is Some && (version is None || version->0 is Text) {
        Some(
            RequestView {
                protocol_version: text_member(doc, "jsonrpc"@),
                id: text_member(doc, "id"@)->0,
                method: text_member(doc, "method"@)->0,
                params: text_member(doc, "params"@)->0,
            },
        )
    } else {
        None
    }
}

/// The request that a message text stands for; `None` where the text is no
/// JSON or the value is no request.
pub open spec fn request_of_text(text: Seq<char>) -> Option<RequestView> {
    match json_parse(text) {
        Some(doc) => request_of_doc(doc),
        None => None,
    }
}

/// Reads a string member of a value.
fn read_text(value: &Value, key: &str) -> (r: Option<String>)
    ensures
        opt_text(r) == text_member(json_doc(*value), key@),
{
    match member(value, key) {
        Some(m) => match m.as_str() {
            Some(s) => Some(s.to_owned()),
            None => None,
        },
        None => None,
    }
}

/// Whether a value has a member under a key.
fn has_member(value: &Value, key: &str) -> (r: bool)
    ensures
        r == (doc_member(json_doc(*value), key@) is Some),
{
    member(value, key).is_some()
}

/// Takes a request out of a parsed value.
fn request_of_value(value: &Value) -> (r: Option<Request>)
    ensures
        match r {
            Some(request) => request_of_doc(json_doc(*value)) == Some(request@),
            None => request_of_doc(json_doc(*value)) is None,
        },
{
    let protocol_version = read_text(value, "jsonrpc");
    if protocol_version.is_none() && has_member(value, "jsonrpc") {
        return None;
    }
    let id = match read_text(value, "id") {
        Some(t) => t,
        None => return None,
    };
    let method = match read_text(value, "method") {
        Some(t) => t,
        None => return None,
    };
    let params = match read_text(value, "params") {
        Some(t) => t,
        None => return None,
    };
    Some(Request { protocol_version, id, method, params })
}

/// Decodes a request. The text must be one JSON object with string members
/// `id`, `method` and `params`; `jsonrpc` is optional, other members are
/// ignored.
pub fn decode_request(text: &str) -> (r: Option<Request>)
    ensures
        match r {
            Some(request) => request_of_text(text@) == Some(request@),
            None => request_of_text(text@) is None,
        },
{
    match parse(text) {
        Ok(value) => request_of_value(&value),
        Err(_) => None,
    }
}

/// The JSON value that stands for a request.
pub open spec fn request_doc(request: RequestView) -> JsonDoc {
    let required = Map::<Seq<char>, JsonDoc>::empty().insert(
        "id"@,
        JsonDoc::Text(request.id),
    ).insert("method"@, JsonDoc::Text(request.method)).insert(
        "params"@,
        JsonDoc::Text(request.params),
    );
    JsonDoc::Object(
        match request.protocol_version {
            Some(v) => required.insert("jsonrpc"@, JsonDoc::Text(v)),
            None => required,
        },
    )
}

/// The message text of a request.
pub open spec fn request_text(request: RequestView) -> Seq<char> {
    json_render(request_doc(request))
}

/// The member names of the wire format differ from each other.
pub proof fn lemma_keys_differ()
    ensures
        "id"@ != "method"@,
        "id"@ != "params"@,
        "id"@ != "jsonrpc"@,
        "id"@ != "result"@,
        "id"@ != "error"@,
        "method"@ != "params"@,
        "method"@ != "jsonrpc"@,
        "params"@ != "jsonrpc"@,
        "jsonrpc"@ != "result"@,
        "jsonrpc"@ != "error"@,
        "result"@ != "error"@,
        "code"@ != "message"@,
{
    reveal_strlit("id");
    reveal_strlit("method");
    reveal_strlit("params");
    reveal_strlit("jsonrpc");
    reveal_strlit("result");
    reveal_strlit("error");
    reveal_strlit("code");
    reveal_strlit("message");
    assert("id"@.len() == 2);
    assert("code"@.len() == 4);
    assert("error"@.len() == 5);
    assert("jsonrpc"@.len() == 7);
    assert("message"@.len() == 7);
    assert("method"@[0] == 'm' && "params"@[0] == 'p' && "result"@[0] == 'r');
}

/// Every key of a list of pairs is a member of what the list stands for.
proof fn lemma_members_hold_keys(pairs: Seq<(String, Value)>)
    ensures
        forall|i: int|
            0 <= i < pairs.len() ==> members_of(pairs).contains_key((#[trigger] pairs[i]).0@),
    decreases pairs.len(),
{
    if pairs.len() > 0 {
        lemma_members_hold_keys(pairs.drop_last());
        assert forall|i: int| 0 <= i < pairs.len() implies members_of(pairs).contains_key(
            (#[trigger] pairs[i]).0@,
        ) by {
            if i < pairs.len() - 1 {
                assert(pairs.drop_last()[i] == pairs[i]);
            }
        }
    }
}

/// Adds a member under a key that is not there yet.
fn push_member(pairs: &mut Vec<(String, Value)>, key: &str, value: Value)
    requires
        distinct_keys(old(pairs)@),
        !members_of(old(pairs)@).contains_key(key@),
    ensures
        distinct_keys(final(pairs)@),
        members_of(final(pairs)@) == members_of(old(pairs)@).insert(key@, json_doc(value)),
{
    let ghost before = pairs@;
    pairs.push((key.to_owned(), value));
    proof {
        assert(pairs@.drop_last() =~= before);
        lemma_members_hold_keys(before);
    }
}

/// Encodes a request. The text depends on the request alone, and decoding it
/// gives the request back.
pub fn encode_request(request: &Request) -> (text: String)
    ensures
        text@ == request_text(request@),
        request_of_text(text@) == Some(request@),
{
    proof {
        lemma_keys_differ();
    }
    let mut pairs: Vec<(String, Value)> = Vec::new();
    push_member(&mut pairs, "id", text_value(request.id.clone()));
    push_member(&mut pairs, "method", text_value(request.method.clone()));
    push_member(&mut pairs, "params", text_value(request.params.clone()));
    match &request.protocol_version {
        Some(v) => {
            push_member(&mut pairs, "jsonrpc", text_value(v.clone()));
        },
        None => {},
    }
    let value = object_value(pairs);
    proof {
        assert(json_doc(value) == request_doc(request@));
        lemma_request_doc_round_trip(request@);
    }
    render(&value)
}

/// A request can be read back from the JSON value that stands for it.
pub proof fn lemma_request_doc_round_trip(request: RequestView)
    ensures
        doc_is_envelope(request_doc(request)),
        request_of_doc(request_doc(request)) == Some(request),
{
    lemma_keys_differ();
}

/// The JSON value that stands for an error.
pub open spec fn error_doc(error: RpcErrorView) -> JsonDoc {
    JsonDoc::Object(
        Map::<Seq<char>, JsonDoc>::empty().insert(
            "code"@,
            JsonDoc::Int(error.code as i64),
        ).insert("message"@, JsonDoc::Text(error.message)),
    )
}

/// The JSON value that stands for a response: `result` and `error` are
/// members only where the response carries them.
pub open spec fn response_doc(response: ResponseView) -> JsonDoc {
    let head = Map::<Seq<char>, JsonDoc>::empty().insert(
        "jsonrpc"@,
        JsonDoc::Text(response.protocol_version),
    ).insert("id"@, JsonDoc::Text(response.id));
    let body = match response.result {
        Some(t) => head.insert("result"@, JsonDoc::Text(t)),
        None => head,
    };
    JsonDoc::Object(
        match response.error {
            Some(e) => body.insert("error"@, error_doc(e)),
            None => body,
        },
    )
}

/// The message text of a response.
pub open spec fn response_text(response: ResponseView) -> Seq<char> {
    json_render(response_doc(response))
}

/// The error that a JSON value stands for: an object with an integer `code`
/// that fits `i32` and a string `message`.
pub open spec fn error_of_doc(doc: JsonDoc) -> Option<RpcErrorView> {
    match (doc_member(doc, "code"@), text_member(doc, "message"@)) {
        (Some(JsonDoc::Int(n)), Some(message)) => if i32::MIN <= n <= i32::MAX {
            Some(RpcErrorView { code: n as i32, message })
        } else {
            None
        },
        _ => None,
    }
}

/// Whether a member that may be left out is missing or `null`.
pub open spec fn absent(member: Option<JsonDoc>) -> bool {
    member is None || member == Some(JsonDoc::Null)
}

/// The response that a JSON value stands for. `jsonrpc` and `id` must be
/// strings. `result` is a string, `error` an error; each may be missing or
/// `null`.
pub open spec fn response_of_doc(doc: JsonDoc) -> Option<ResponseView> {
    let result = doc_member(doc, "result"@);
    let error = doc_member(doc, "error"@);
    if text_member(doc, "jsonrpc"@) is Some && text_member(doc, "id"@) is Some && (absent(result)
        || result->0 is Text) && (absent(error) || error_of_doc(error->0) is Some) {
        Some(
            ResponseView {
                protocol_version: text_member(doc, "jsonrpc"@)->0,
                id: text_member(doc, "id"@)->0,
                result: text_member(doc, "result"@),
                error: if absent(error) {
                    None
                } else {
                    error_of_doc(error->0)
                },
            },
        )
    } else {
        None
    }
}

/// The response that a message text stands for; `None` where the text is no
/// JSON or the value is no response.
pub open spec fn response_of_text(text: Seq<char>) -> Option<ResponseView> {
    match json_parse(text) {
        Some(doc) => response_of_doc(doc),
        None => None,
    }
}

/// A response can be read back from the JSON value that stands for it.
pub proof fn lemma_response_doc_round_trip(response: ResponseView)
    ensures
        doc_is_envelope(response_doc(response)),
        response_of_doc(response_doc(response)) == Some(response),
{
    lemma_keys_differ();
    match response.error {
        Some(e) => {
            assert(error_of_doc(error_doc(e)) == Some(e));
        },
        None => {},
    }
}

/// Builds the JSON value of an error.
fn error_value(error: &RpcError) -> (r: Value)
    ensures
        json_doc(r) == error_doc(error@),
{
    proof {
        lemma_keys_differ();
    }
    let mut pairs: Vec<(String, Value)> = Vec::new();
    push_member(&mut pairs, "code", int_value(error.code as i64));
    push_member(&mut pairs, "message", text_value(error.message.clone()));
    object_value(pairs)
}

/// Encodes a response. The text depends on the response alone, and decoding
/// it gives the response back.
pub fn encode_response(response: &Response) -> (text: String)
    ensures
        text@ == response_text(response@),
        response_of_text(text@) == Some(response@),
{
    proof {
        lemma_keys_differ();
    }
    let mut pairs: Vec<(String, Value)> = Vec::new();
    push_member(&mut pairs, "jsonrpc", text_value(response.protocol_version.clone()));
    push_member(&mut pairs, "id", text_value(response.id.clone()));
    match &response.result {
        Some(t) => {
            push_member(&mut pairs, "result", text_value(t.clone()));
        },
        None => {},
    }
    match &response.error {
        Some(e) => {
            push_member(&mut pairs, "error", error_value(e));
        },
        None => {},
    }
    let value = object_value(pairs);
    proof {
        assert(json_doc(value) == response_doc(response@));
        lemma_response_doc_round_trip(response@);
    }
    render(&value)
}

/// Takes an error out of a parsed value.
fn error_of_value(value: &Value) -> (r: Option<RpcError>)
    ensures
        opt_error(r) == error_of_doc(json_doc(*value)),
{
    let code: i64 = match member(value, "code") {
        Some(m) => match m.as_i64() {
            Some(n) => n,
            None => return None,
        },
        None => return None,
    };
    if code < -2147483648 || code > 2147483647 {
        return None;
    }
    match read_text(value, "message") {
        Some(message) => Some(RpcError { code: code as i32, message }),
        None => None,
    }
}

/// Takes a response out of a parsed value.
fn response_of_value(value: &Value) -> (r: Option<Response>)
    ensures
        match r {
            Some(response) => response_of_doc(json_doc(*value)) == Some(response@),
            None => response_of_doc(json_doc(*value)) is None,
        },
{
    let protocol_version = match read_text(value, "jsonrpc") {
        Some(t) => t,
        None => return None,
    };
    let id = match read_text(value, "id") {
        Some(t) => t,
        None => return None,
    };
    let result = match member(value, "result") {
        Some(m) => if m.is_null() {
            None
        } else {
            match m.as_str() {
                Some(t) => Some(t.to_owned()),
                None => return None,
            }
        },
        None => None,
    };
    let error = match member(value, "error") {
        Some(m) => if m.is_null() {
            None
        } else {
            match error_of_value(m) {
                Some(e) => Some(e),
                None => return None,
            }
        },
        None => None,
    };
    Some(Response { protocol_version, id, result, error })
}

/// Decodes a response. The text must be one JSON object with string members
/// `jsonrpc` and `id`; `result` and `error` may be missing or `null`, other
/// members are ignored.
pub fn decode_response(text: &str) -> (r: Option<Response>)
    ensures
        match r {
            Some(response) => response_of_text(text@) == Some(response@),
            None => response_of_text(text@) is None,
        },
{
    match parse(text) {
        Ok(value) => response_of_value(&value),
        Err(_) => None,
    }
}

} // verus!
