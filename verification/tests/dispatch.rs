use ljsonrpc_over_tcp::client::{call_text, read_reply, CallError};
use ljsonrpc_over_tcp::codec::{decode_response, encode_request};
use ljsonrpc_over_tcp::dispatch::{answer, handle_message, route, serve, Route};
use ljsonrpc_over_tcp::message::{Request, Response};
use ljsonrpc_over_tcp::registry::Registry;

type Handler = Box<dyn Fn(String) -> Result<Option<String>, String>>;

fn registry() -> Registry<Handler> {
    let mut r: Registry<Handler> = Registry::new();
    r.register("echo", Box::new(|p| Ok(Some(p))));
    r.register("quiet", Box::new(|_| Ok(None)));
    r.register("boom", Box::new(|_| Err("no".to_string())));
    r.register("shout", Box::new(|p| Ok(Some(p.to_uppercase()))));
    r
}

#[test]
fn scenario_echo() {
    let methods = registry();
    let reply = handle_message(&methods, &call_text("1", "echo", "hi"));
    assert_eq!(reply, r#"{"id":"1","jsonrpc":"2.0","result":"hi"}"#);
    let response = decode_response(&reply).unwrap();
    assert_eq!(response.id, "1");
    assert_eq!(response.result.as_deref(), Some("hi"));
    assert_eq!(response.error, None);
    assert_eq!(read_reply(&reply), Ok("hi".to_string()));
}

#[test]
fn scenario_unregistered_method() {
    let methods = registry();
    let reply = handle_message(&methods, &call_text("17", "ghost", "x"));
    assert_eq!(
        reply,
        r#"{"error":{"code":-32601,"message":"Method not found"},"id":"17","jsonrpc":"2.0"}"#
    );
    let response = decode_response(&reply).unwrap();
    assert_eq!(response.id, "17");
    assert_eq!(response.result, None);
    let error = response.error.unwrap();
    assert_eq!(error.code, -32601);
    assert_eq!(error.message, "Method not found");
}

#[test]
fn scenario_failing_handler_does_not_echo_the_id() {
    let methods = registry();
    let reply = handle_message(&methods, &call_text("5", "boom", "x"));
    assert_eq!(
        reply,
        r#"{"error":{"code":-32603,"message":"internal call error"},"id":"-1","jsonrpc":"2.0"}"#
    );
    let response = decode_response(&reply).unwrap();
    assert_eq!(response.id, "-1");
    let error = response.error.unwrap();
    assert_eq!(error.code, -32603);
    assert_eq!(error.message, "internal call error");
}

#[test]
fn scenario_malformed_bytes() {
    let methods = registry();
    for message in ["not json at all", "", "{\"id\":", "[1,2,3]", "\u{0}\u{1}"] {
        let reply = handle_message(&methods, message);
        assert_eq!(
            reply,
            r#"{"error":{"code":-32600,"message":"Invalid jsonrpc request"},"id":"-1","jsonrpc":"2.0"}"#
        );
    }
}

#[test]
fn handler_without_result_gives_the_empty_result() {
    let methods = registry();
    let reply = handle_message(&methods, &call_text("2", "quiet", "x"));
    assert_eq!(reply, r#"{"id":"2","jsonrpc":"2.0","result":""}"#);
}

#[test]
fn wrong_version_is_answered_by_a_result() {
    let methods = registry();
    let mut request = Request::new("3", "echo", "hi");
    request.protocol_version = Some("1.0".to_string());
    let reply = handle_message(&methods, &encode_request(&request));
    assert_eq!(reply, r#"{"id":"3","jsonrpc":"2.0","result":"Invalid jsonrpc version"}"#);
    let response = decode_response(&reply).unwrap();
    assert_eq!(response.error, None);
    assert_eq!(response.id, "3");
}

#[test]
fn missing_version_is_answered_like_a_wrong_one() {
    let methods = registry();
    let reply = handle_message(&methods, r#"{"id":"8","method":"echo","params":"hi"}"#);
    assert_eq!(reply, r#"{"id":"8","jsonrpc":"2.0","result":"Invalid jsonrpc version"}"#);
}

#[test]
fn version_is_checked_before_the_method() {
    let methods = registry();
    let mut request = Request::new("3", "ghost", "hi");
    request.protocol_version = Some("2".to_string());
    let reply = handle_message(&methods, &encode_request(&request));
    assert_eq!(reply, r#"{"id":"3","jsonrpc":"2.0","result":"Invalid jsonrpc version"}"#);
}

#[test]
fn handler_gets_the_params_unchanged() {
    let methods = registry();
    let params = "a \"b\" \\ \n {\"k\":1} ü";
    let reply = handle_message(&methods, &call_text("1", "echo", params));
    assert_eq!(read_reply(&reply), Ok(params.to_string()));
    let reply = handle_message(&methods, &call_text("1", "shout", "abc"));
    assert_eq!(read_reply(&reply), Ok("ABC".to_string()));
}

#[test]
fn same_request_twice_gives_the_same_reply() {
    let methods = registry();
    let message = call_text("1", "echo", "hi");
    let first = handle_message(&methods, &message);
    let second = handle_message(&methods, &message);
    assert_eq!(first, second);
    let other_id = handle_message(&methods, &call_text("2", "echo", "hi"));
    let a = decode_response(&first).unwrap();
    let b = decode_response(&other_id).unwrap();
    assert_eq!(a.result, b.result);
    assert_eq!(a.error, b.error);
    assert_eq!(a.protocol_version, b.protocol_version);
    assert_eq!(a.id, "1");
    assert_eq!(b.id, "2");
}

#[test]
fn route_decides_before_any_handler_runs() {
    let methods = registry();
    assert_eq!(route(&methods, None), Route::Reply(Response::invalid_request()));
    let mut old = Request::new("1", "echo", "p");
    old.protocol_version = None;
    assert_eq!(
        route(&methods, Some(old)),
        Route::Reply(Response::version_mismatch("1".to_string()))
    );
    assert_eq!(
        route(&methods, Some(Request::new("1", "ghost", "p"))),
        Route::Reply(Response::method_not_found("1".to_string()))
    );
    assert_eq!(
        route(&methods, Some(Request::new("1", "echo", "p"))),
        Route::Invoke(Request::new("1", "echo", "p"))
    );
}

#[test]
fn answer_for_each_outcome() {
    let text: Result<Option<String>, ()> = Ok(Some("t".to_string()));
    assert_eq!(answer("1".to_string(), text), Response::success("1".to_string(), "t".to_string()));
    let nothing: Result<Option<String>, ()> = Ok(None);
    assert_eq!(answer("1".to_string(), nothing), Response::success("1".to_string(), String::new()));
    let failed: Result<Option<String>, ()> = Err(());
    assert_eq!(answer("1".to_string(), failed), Response::internal_error());
}

#[test]
fn serve_answers_text_and_drops_other_bytes() {
    let methods = registry();
    let reply = serve(&methods, call_text("1", "echo", "hi").into_bytes());
    assert_eq!(reply.as_deref(), Some(r#"{"id":"1","jsonrpc":"2.0","result":"hi"}"#));
    assert_eq!(serve(&methods, vec![0xff, 0xfe, 0x00]), None);
    assert_eq!(serve(&methods, vec![b'{', 0xc3]), None);
    let reply = serve(&methods, Vec::new());
    assert_eq!(
        reply.as_deref(),
        Some(r#"{"error":{"code":-32600,"message":"Invalid jsonrpc request"},"id":"-1","jsonrpc":"2.0"}"#)
    );
    let reply = serve(&methods, "{\"id\":\"é\",\"jsonrpc\":\"2.0\",\"method\":\"echo\",\"params\":\"ß\"}".as_bytes().to_vec());
    assert_eq!(reply.as_deref(), Some("{\"id\":\"é\",\"jsonrpc\":\"2.0\",\"result\":\"ß\"}"));
}

#[test]
fn empty_registry_knows_no_method() {
    let methods: Registry<Handler> = Registry::new();
    let reply = handle_message(&methods, &call_text("1", "echo", "hi"));
    assert_eq!(
        read_reply(&reply),
        Err(CallError::Remote {
            id: "1".to_string(),
            code: -32601,
            message: "Method not found".to_string()
        })
    );
}
