use webboard::json::{JsonNumber, JsonValue};
use webboard::message::{JsonRpcErrorResponse, JsonRpcRequest, JsonRpcResponse};
use webboard::error_code::JsonRpcErrorCode;

fn message_number(n: u64) -> JsonValue {
    JsonValue::Number(JsonNumber::PosInt(n))
}

fn message_object(name: &str, value: &str) -> JsonValue {
    JsonValue::Object(vec![(name.to_string(), JsonValue::String(value.to_string()))])
}

#[test]
fn message_test_request_validation() {
    let valid_req = JsonRpcRequest::new(
        "test.method".to_string(),
        Some(message_object("param", "value")),
        Some(message_number(1)),
    );
    assert!(valid_req.validate().is_ok());

    let invalid_version = JsonRpcRequest {
        jsonrpc: "1.0".to_string(),
        method: "test".to_string(),
        params: None,
        id: Some(message_number(1)),
    };
    assert!(invalid_version.validate().is_err());

    let reserved_method =
        JsonRpcRequest::new("rpc.reserved".to_string(), None, Some(message_number(1)));
    assert!(reserved_method.validate().is_err());
}

#[test]
fn message_test_notification() {
    let notification = JsonRpcRequest::new(
        "notify".to_string(),
        Some(message_object("message", "hello")),
        None,
    );
    assert!(notification.is_notification());

    let request = JsonRpcRequest::new("call".to_string(), None, Some(message_number(1)));
    assert!(!request.is_notification());
}

#[test]
fn jsonrpc_test_request_validation() {
    let valid_req = JsonRpcRequest::new(
        "test.method".to_string(),
        Some(message_object("param", "value")),
        Some(message_number(1)),
    );
    assert!(valid_req.validate().is_ok());

    let invalid_version = JsonRpcRequest {
        jsonrpc: "1.0".to_string(),
        method: "test".to_string(),
        params: None,
        id: Some(message_number(1)),
    };
    assert!(invalid_version.validate().is_err());

    let reserved_method =
        JsonRpcRequest::new("rpc.reserved".to_string(), None, Some(message_number(1)));
    assert!(reserved_method.validate().is_err());
}

#[test]
fn jsonrpc_test_notification() {
    let notification = JsonRpcRequest::new(
        "notify".to_string(),
        Some(message_object("message", "hello")),
        None,
    );
    assert!(notification.is_notification());

    let request = JsonRpcRequest::new("call".to_string(), None, Some(message_number(1)));
    assert!(!request.is_notification());
}

#[test]
fn validation_says_what_is_wrong() {
    let version = JsonRpcRequest {
        jsonrpc: "2".to_string(),
        method: "ping".to_string(),
        params: None,
        id: None,
    };
    assert_eq!(
        version.validate(),
        Err("Invalid JSON-RPC version. Must be '2.0'".to_string())
    );
    let empty = JsonRpcRequest::new(String::new(), None, None);
    assert_eq!(empty.validate(), Err("Method name cannot be empty".to_string()));
    let reserved = JsonRpcRequest::new("rpc.".to_string(), None, None);
    assert_eq!(
        reserved.validate(),
        Err("Method names starting with 'rpc.' are reserved".to_string())
    );
}

#[test]
fn the_version_is_looked_at_first() {
    let request = JsonRpcRequest {
        jsonrpc: "1.0".to_string(),
        method: String::new(),
        params: None,
        id: None,
    };
    assert_eq!(
        request.validate(),
        Err("Invalid JSON-RPC version. Must be '2.0'".to_string())
    );
}

#[test]
fn names_near_the_reserved_prefix_are_in_order() {
    for name in ["rpc", "rpcx", "Rpc.x", "xrpc.", "r", "rp.c."] {
        let request = JsonRpcRequest::new(name.to_string(), None, None);
        assert_eq!(request.validate(), Ok(()), "{}", name);
    }
}

#[test]
fn a_null_identifier_is_an_identifier() {
    let request = JsonRpcRequest::new("call".to_string(), None, Some(JsonValue::Null));
    assert!(!request.is_notification());
}

#[test]
fn new_request_is_version_two() {
    let request = JsonRpcRequest::new("m".to_string(), None, None);
    assert_eq!(request.jsonrpc, "2.0");
    assert_eq!(request.method, "m");
    assert_eq!(request.params, None);
    assert_eq!(request.id, None);
}

#[test]
fn responses_are_version_two_and_keep_what_they_are_given() {
    let response = JsonRpcResponse::new(message_number(5), message_number(7));
    assert_eq!(response.jsonrpc, "2.0");
    assert_eq!(response.result, message_number(5));
    assert_eq!(response.id, message_number(7));

    let failed = JsonRpcErrorResponse::from_code(JsonRpcErrorCode::InternalError, JsonValue::Null);
    assert_eq!(failed.jsonrpc, "2.0");
    assert_eq!(failed.error.code, -32603);
    assert_eq!(failed.error.message, "Internal error");
    assert_eq!(failed.error.data, None);
    assert_eq!(failed.id, JsonValue::Null);

    let custom = JsonRpcErrorResponse::custom(
        JsonRpcErrorCode::ParseError,
        "bad".to_string(),
        JsonValue::String("a".to_string()),
    );
    assert_eq!(custom.error.code, -32700);
    assert_eq!(custom.error.message, "bad");
    assert_eq!(custom.id, JsonValue::String("a".to_string()));
}
