use ljsonrpc_over_tcp::client::{call_text, read_reply, CallError};
use ljsonrpc_over_tcp::codec::{decode_request, decode_response};
use ljsonrpc_over_tcp::message::{Request, Response, RpcError};

#[test]
fn call_text_is_a_request_in_the_supported_version() {
    let text = call_text("1", "echo", "hi");
    assert_eq!(text, r#"{"id":"1","jsonrpc":"2.0","method":"echo","params":"hi"}"#);
    assert_eq!(decode_request(&text), Some(Request::new("1", "echo", "hi")));
}

#[test]
fn reply_with_result_is_ok() {
    assert_eq!(read_reply(r#"{"jsonrpc":"2.0","id":"1","result":"hi"}"#), Ok("hi".to_string()));
    assert_eq!(read_reply(r#"{"jsonrpc":"2.0","id":"1","result":""}"#), Ok(String::new()));
}

#[test]
fn reply_in_another_version_still_counts() {
    let text = r#"{"jsonrpc":"1.0","id":"1","result":"hi"}"#;
    let response = decode_response(text).unwrap();
    assert!(!response.has_supported_version());
    assert_eq!(read_reply(text), Ok("hi".to_string()));
    let response = decode_response(r#"{"jsonrpc":"2.0","id":"1","result":"hi"}"#).unwrap();
    assert!(response.has_supported_version());
}

#[test]
fn reply_with_error_fails_the_call() {
    let text = r#"{"jsonrpc":"2.0","id":"4","error":{"code":-32601,"message":"Method not found"}}"#;
    let e = read_reply(text).unwrap_err();
    assert_eq!(
        e,
        CallError::Remote {
            id: "4".to_string(),
            code: -32601,
            message: "Method not found".to_string()
        }
    );
    assert_eq!(e.message(), "json rpc error raised");
}

#[test]
fn result_wins_over_error() {
    let text = r#"{"jsonrpc":"2.0","id":"4","result":"r","error":{"code":1,"message":"m"}}"#;
    assert_eq!(read_reply(text), Ok("r".to_string()));
}

#[test]
fn reply_with_neither_is_malformed() {
    let e = read_reply(r#"{"jsonrpc":"2.0","id":"4"}"#).unwrap_err();
    assert_eq!(e, CallError::Malformed { reply_id: Some("4".to_string()) });
    assert_eq!(e.message(), "failed to parse result");
    let e = read_reply(r#"{"jsonrpc":"2.0","id":"4","result":null,"error":null}"#).unwrap_err();
    assert_eq!(e, CallError::Malformed { reply_id: Some("4".to_string()) });
}

#[test]
fn reply_that_is_no_response_is_malformed() {
    for text in ["", "garbage", "{}", r#"{"id":"4","result":"r"}"#, r#"{"jsonrpc":"2.0","id":"4","result":7}"#] {
        let e = read_reply(text).unwrap_err();
        assert_eq!(e, CallError::Malformed { reply_id: None }, "{text:?}");
        assert_eq!(e.message(), "failed to parse result");
    }
}

#[test]
fn into_call_result_on_each_shape() {
    let ok = Response::success("1".to_string(), "t".to_string());
    assert_eq!(ok.into_call_result(), Ok("t".to_string()));
    let failed = Response::internal_error();
    assert_eq!(
        failed.into_call_result(),
        Err(CallError::Remote {
            id: "-1".to_string(),
            code: -32603,
            message: "internal call error".to_string()
        })
    );
    let both = Response {
        protocol_version: "2.0".to_string(),
        id: "1".to_string(),
        result: Some("t".to_string()),
        error: Some(RpcError { code: 1, message: "m".to_string() }),
    };
    assert_eq!(both.into_call_result(), Ok("t".to_string()));
    let neither = Response {
        protocol_version: "2.0".to_string(),
        id: "1".to_string(),
        result: None,
        error: None,
    };
    assert_eq!(neither.into_call_result(), Err(CallError::Malformed { reply_id: Some("1".to_string()) }));
}
