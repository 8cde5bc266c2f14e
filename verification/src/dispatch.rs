//! The dispatcher: from one message text to one reply text.
//!
//! A message is decoded, checked for its protocol version and routed to the
//! handler that is registered under its method. Every failure on the way has
//! its own reply; none is retried.

use crate::codec::{
    decode_request, encode_response, request_of_text, response_of_text, response_text,
    text_of_bytes,
};
use crate::message::{
    no_id, supported_version, Request, RequestView, Response, ResponseView, INVALID_REQUEST,
    METHOD_NOT_FOUND,
};
use crate::registry::Registry;
use vstd::prelude::*;
use vstd::utf8::{decode_utf8, valid_utf8};

verus! {

/// What a handler gave back: a text, nothing, or a failure of any cause.
pub enum Outcome {
    Text(Seq<char>),
    Nothing,
    Failure,
}

/// The outcome that a handler's return value stands for.
pub open spec fn outcome_of<E>(returned: Result<Option<String>, E>) -> Outcome {
    match returned {
        Ok(Some(text)) => Outcome::Text(text@),
        Ok(None) => Outcome::Nothing,
        Err(_) => Outcome::Failure,
    }
}

/// The reply to a request whose handler ran. A text is the result, nothing
/// is the empty result, both under the request's id. A failure is an
/// internal error, which does not echo the id.
pub open spec fn reply_to_outcome(id: Seq<char>, outcome: Outcome) -> ResponseView {
    match outcome {
        Outcome::Text(text) => ResponseView::success(id, text),
        Outcome::Nothing => ResponseView::success(id, Seq::<char>::empty()),
        Outcome::Failure => ResponseView::internal_error(),
    }
}

/// Where a decoded message goes: it is answered at once, or its handler is
/// invoked.
#[derive(Debug, PartialEq, Eq)]
pub enum Route {
    Reply(Response),
    Invoke(Request),
}

pub enum RouteView {
    Reply(ResponseView),
    Invoke(RequestView),
}

impl View for Route {
    type V = RouteView;

    open spec fn view(&self) -> RouteView {
        match self {
            Route::Reply(response) => RouteView::Reply(response@),
            Route::Invoke(request) => RouteView::Invoke(request@),
        }
    }
}

/// Where a message goes, given the names that have a handler. What could
/// not be decoded is an invalid request; then the version is checked; then
/// the method is looked up.
pub open spec fn route_of(names: Set<Seq<char>>, request: Option<RequestView>) -> RouteView {
    match request {
        None => RouteView::Reply(ResponseView::invalid_request()),
        Some(r) => if !r.has_supported_version() {
            RouteView::Reply(ResponseView::version_mismatch(r.id))
        } else if !names.contains(r.method) {
            RouteView::Reply(ResponseView::method_not_found(r.id))
        } else {
            RouteView::Invoke(r)
        },
    }
}

/// The reply to a message, given the names that have a handler and what the
/// handler gives back if it is invoked.
pub open spec fn reply_of(
    names: Set<Seq<char>>,
    request: Option<RequestView>,
    outcome: Outcome,
) -> ResponseView {
    match route_of(names, request) {
        RouteView::Reply(response) => response,
        RouteView::Invoke(r) => reply_to_outcome(r.id, outcome),
    }
}

pub open spec fn opt_request(request: Option<Request>) -> Option<RequestView> {
    match request {
        Some(r) => Some(r@),
        None => None,
    }
}

/// Decides where a decoded message goes.
pub fn route<H>(methods: &Registry<H>, request: Option<Request>) -> (r: Route)
    ensures
        r@ == route_of(methods@.dom(), opt_request(request)),
{
    match request {
        None => Route::Reply(Response::invalid_request()),
        Some(request) => {
            if !request.has_supported_version() {
                Route::Reply(Response::version_mismatch(request.id))
            } else if !methods.contains(request.method.as_str()) {
                Route::Reply(Response::method_not_found(request.id))
            } else {
                Route::Invoke(request)
            }
        },
    }
}

/// Builds the reply to a request whose handler ran.
pub fn answer<E>(id: String, returned: Result<Option<String>, E>) -> (r: Response)
    ensures
        r@ == reply_to_outcome(id@, outcome_of(returned)),
        r@.well_formed(),
{
    match returned {
        Ok(Some(text)) => Response::success(id, text),
        Ok(None) => Response::success(id, String::new()),
        Err(_) => Response::internal_error(),
    }
}

/// Every handler of a registry may be called on every parameter text.
pub open spec fn handlers_accept_all<E, H: Fn(String) -> Result<Option<String>, E>>(
    methods: Map<Seq<char>, H>,
) -> bool {
    forall|name: Seq<char>, params: String|
        methods.contains_key(name) ==> #[trigger] call_requires(methods[name], (params,))
}

/// Whether a handler, called on a parameter text, can have given an outcome.
pub open spec fn handler_gives<E, H: Fn(String) -> Result<Option<String>, E>>(
    handler: H,
    params: Seq<char>,
    outcome: Outcome,
) -> bool {
    exists|text: String, returned: Result<Option<String>, E>|
        text@ == params && call_ensures(handler, (text,), returned) && outcome_of(returned)
            == outcome
}

/// Whether a reply text answers a message text over a registry: it is the
/// text of `reply_of` for an outcome that the invoked handler gave.
pub open spec fn answers<E, H: Fn(String) -> Result<Option<String>, E>>(
    methods: Map<Seq<char>, H>,
    message: Seq<char>,
    reply: Seq<char>,
) -> bool {
    exists|outcome: Outcome|
        {
            &&& reply == response_text(
                #[trigger] reply_of(methods.dom(), request_of_text(message), outcome),
            )
            &&& response_of_text(reply) == Some(
                reply_of(methods.dom(), request_of_text(message), outcome),
            )
            &&& route_of(methods.dom(), request_of_text(message)) matches RouteView::Invoke(r)
                ==> handler_gives(methods[r.method], r.params, outcome)
        }
}

/// Answers one message: the reply text for a message text.
///
/// The reply is the text of `reply_of` for the decoded message. A handler is
/// invoked only for a request in the supported version whose method is
/// registered, once, on the request's `params`; the outcome in the reply is
/// one that this call gave.
pub fn handle_message<E, H: Fn(String) -> Result<Option<String>, E>>(
    methods: &Registry<H>,
    message: &str,
) -> (reply: String)
    requires
        handlers_accept_all(methods@),
    ensures
        answers(methods@, message@, reply@),
{
    let response = match route(methods, decode_request(message)) {
        Route::Reply(response) => {
            assert(response@ == reply_of(
                methods@.dom(),
                request_of_text(message@),
                Outcome::Nothing,
            ));
            response
        },
        Route::Invoke(request) => {
            let Request { id, method, params, .. } = request;
            let ghost asked = params;
            match methods.lookup(method.as_str()) {
                Some(handler) => {
                    let returned = handler(params);
                    assert(handler_gives(*handler, asked@, outcome_of(returned)));
                    let response = answer(id, returned);
                    assert(response@ == reply_of(
                        methods@.dom(),
                        request_of_text(message@),
                        outcome_of(returned),
                    ));
                    response
                },
                None => Response::method_not_found(id),
            }
        },
    };
    encode_response(&response)
}

/// Serves what one read of a connection brought. Bytes that are not UTF-8
/// are a failure of the transport: the connection gets no reply. Any text
/// gets one.
pub fn serve<E, H: Fn(String) -> Result<Option<String>, E>>(
    methods: &Registry<H>,
    received: Vec<u8>,
) -> (reply: Option<String>)
    requires
        handlers_accept_all(methods@),
    ensures
        match reply {
            Some(text) => valid_utf8(received@) && answers(
                methods@,
                decode_utf8(received@),
                text@,
            ),
            None => !valid_utf8(received@),
        },
{
    match text_of_bytes(received) {
        Some(message) => Some(handle_message(methods, message.as_str())),
        None => None,
    }
}

/// A request in the supported version whose method is registered, and whose
/// handler gives a text, is answered with that text as the result, under the
/// request's id.
pub proof fn law_result_is_echoed(names: Set<Seq<char>>, request: RequestView, text: Seq<char>)
    requires
        request.has_supported_version(),
        names.contains(request.method),
    ensures
        reply_of(names, Some(request), Outcome::Text(text)).result == Some(text),
        reply_of(names, Some(request), Outcome::Text(text)).error is None,
        reply_of(names, Some(request), Outcome::Text(text)).id == request.id,
{
}

/// A request in the supported version whose method is not registered is
/// answered with the error "method not found", under the request's id,
/// whatever a handler would give.
pub proof fn law_unknown_method(names: Set<Seq<char>>, request: RequestView, outcome: Outcome)
    requires
        request.has_supported_version(),
        !names.contains(request.method),
    ensures
        reply_of(names, Some(request), outcome) == ResponseView::method_not_found(request.id),
        reply_of(names, Some(request), outcome).error is Some,
        reply_of(names, Some(request), outcome).error->0.code == METHOD_NOT_FOUND,
        reply_of(names, Some(request), outcome).result is None,
        reply_of(names, Some(request), outcome).id == request.id,
{
}

/// A message that cannot be decoded is answered with the error "invalid
/// request" under the id `-1`, whatever is registered.
pub proof fn law_undecodable_message(names: Set<Seq<char>>, message: Seq<char>, outcome: Outcome)
    requires
        request_of_text(message) is None,
    ensures
        reply_of(names, request_of_text(message), outcome) == ResponseView::invalid_request(),
        reply_of(names, request_of_text(message), outcome).error is Some,
        reply_of(names, request_of_text(message), outcome).error->0.code == INVALID_REQUEST,
        reply_of(names, request_of_text(message), outcome).result is None,
        reply_of(names, request_of_text(message), outcome).id == no_id(),
{
}

/// A request in another protocol version, or in none, is answered with a
/// result and no error, under the request's id, whether or not its method
/// is registered.
pub proof fn law_version_mismatch(names: Set<Seq<char>>, request: RequestView, outcome: Outcome)
    requires
        request.protocol_version != Some(supported_version()),
    ensures
        reply_of(names, Some(request), outcome) == ResponseView::version_mismatch(request.id),
        reply_of(names, Some(request), outcome).result is Some,
        reply_of(names, Some(request), outcome).error is None,
        reply_of(names, Some(request), outcome).id == request.id,
{
}

/// The id of a request decides nothing but the id of the reply: two requests
/// that differ in their ids only, answered over the same names with the same
/// outcome of the handler, get replies that differ in their ids at most, and
/// the same reply where the ids are the same.
pub proof fn law_same_request_same_reply(
    names: Set<Seq<char>>,
    first: RequestView,
    second: RequestView,
    outcome: Outcome,
)
    requires
        first.protocol_version == second.protocol_version,
        first.method == second.method,
        first.params == second.params,
    ensures
        reply_of(names, Some(first), outcome).protocol_version == reply_of(
            names,
            Some(second),
            outcome,
        ).protocol_version,
        reply_of(names, Some(first), outcome).result == reply_of(
            names,
            Some(second),
            outcome,
        ).result,
        reply_of(names, Some(first), outcome).error == reply_of(
            names,
            Some(second),
            outcome,
        ).error,
        first.id == second.id ==> reply_of(names, Some(first), outcome) == reply_of(
            names,
            Some(second),
            outcome,
        ),
{
}

/// Every reply carries exactly one of a result and an error, in the
/// supported protocol version.
pub proof fn law_reply_is_well_formed(
    names: Set<Seq<char>>,
    request: Option<RequestView>,
    outcome: Outcome,
)
    ensures
        reply_of(names, request, outcome).well_formed(),
        reply_of(names, request, outcome).protocol_version == supported_version(),
{
}

} // verus!
