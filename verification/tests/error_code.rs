use webboard::error_code::{JsonRpcErrorCode, JsonRpcErrorObject};
use webboard::json::{JsonNumber, JsonValue};

#[test]
fn error_code_test_error_codes() {
    assert_eq!(JsonRpcErrorCode::ParseError.code(), -32700);
    assert_eq!(JsonRpcErrorCode::InvalidRequest.code(), -32600);
    assert_eq!(JsonRpcErrorCode::MethodNotFound.code(), -32601);
    assert_eq!(JsonRpcErrorCode::InvalidParams.code(), -32602);
    assert_eq!(JsonRpcErrorCode::InternalError.code(), -32603);
    assert_eq!(JsonRpcErrorCode::ServerError.code(), -32000);
}

#[test]
fn test_error_messages() {
    assert_eq!(JsonRpcErrorCode::ParseError.message(), "Parse error");
    assert_eq!(JsonRpcErrorCode::MethodNotFound.message(), "Method not found");
}

#[test]
fn jsonrpc_test_error_codes() {
    assert_eq!(JsonRpcErrorCode::ParseError.code(), -32700);
    assert_eq!(JsonRpcErrorCode::MethodNotFound.code(), -32601);
}

#[test]
fn every_code_has_its_message() {
    assert_eq!(JsonRpcErrorCode::InvalidRequest.message(), "Invalid Request");
    assert_eq!(JsonRpcErrorCode::InvalidParams.message(), "Invalid params");
    assert_eq!(JsonRpcErrorCode::InternalError.message(), "Internal error");
    assert_eq!(JsonRpcErrorCode::ServerError.message(), "Server error");
}

#[test]
fn error_object_new_takes_the_standard_message() {
    let error = JsonRpcErrorObject::new(JsonRpcErrorCode::InternalError, None);
    assert_eq!(error.code, -32603);
    assert_eq!(error.message, "Internal error");
    assert_eq!(error.data, None);
}

#[test]
fn error_object_custom_keeps_message_and_data() {
    let data = JsonValue::Number(JsonNumber::PosInt(9));
    let error = JsonRpcErrorObject::custom(
        JsonRpcErrorCode::InvalidParams,
        "no good".to_string(),
        Some(data.clone()),
    );
    assert_eq!(error.code, -32602);
    assert_eq!(error.message, "no good");
    assert_eq!(error.data, Some(data));
}
