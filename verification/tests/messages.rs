use ljsonrpc_over_tcp::message::{Request, Response, INTERNAL_ERROR, INVALID_REQUEST, METHOD_NOT_FOUND};

#[test]
fn error_codes_are_fixed() {
    assert_eq!(INVALID_REQUEST, -32600);
    assert_eq!(METHOD_NOT_FOUND, -32601);
    assert_eq!(INTERNAL_ERROR, -32603);
}

#[test]
fn new_request_speaks_the_supported_version() {
    let r = Request::new("1", "echo", "hi");
    assert_eq!(r.protocol_version.as_deref(), Some("2.0"));
    assert_eq!(r.id, "1");
    assert_eq!(r.method, "echo");
    assert_eq!(r.params, "hi");
    assert!(r.has_supported_version());
}

#[test]
fn request_without_version_is_not_supported() {
    let mut r = Request::new("1", "echo", "");
    r.protocol_version = None;
    assert!(!r.has_supported_version());
    r.protocol_version = Some("1.0".to_string());
    assert!(!r.has_supported_version());
}

#[test]
fn fixed_responses() {
    let r = Response::invalid_request();
    assert_eq!(r.id, "-1");
    assert_eq!(r.protocol_version, "2.0");
    assert!(r.result.is_none());
    let e = r.error.unwrap();
    assert_eq!(e.code, -32600);
    assert_eq!(e.message, "Invalid jsonrpc request");

    let r = Response::internal_error();
    assert_eq!(r.id, "-1");
    let e = r.error.unwrap();
    assert_eq!(e.code, -32603);
    assert_eq!(e.message, "internal call error");

    let r = Response::method_not_found("7".to_string());
    assert_eq!(r.id, "7");
    let e = r.error.unwrap();
    assert_eq!(e.code, -32601);
    assert_eq!(e.message, "Method not found");

    let r = Response::version_mismatch("9".to_string());
    assert_eq!(r.id, "9");
    assert!(r.error.is_none());
    assert_eq!(r.result.as_deref(), Some("Invalid jsonrpc version"));
}
