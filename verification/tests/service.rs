use webboard::builtin::{self, Sum};
use webboard::error_code::{JsonRpcErrorCode, JsonRpcErrorObject};
use webboard::json::{JsonNumber, JsonValue};
use webboard::message::{JsonRpcErrorResponse, JsonRpcRequest, JsonRpcResponse};
use webboard::service::{complete, contain, Handled, JsonRpcService, Work};

type Handler = fn(Option<JsonValue>) -> Result<JsonValue, JsonRpcErrorObject>;

fn number(n: u64) -> JsonValue {
    JsonValue::Number(JsonNumber::PosInt(n))
}

fn text(s: &str) -> JsonValue {
    JsonValue::String(s.to_string())
}

fn object(members: Vec<(&str, JsonValue)>) -> JsonValue {
    JsonValue::Object(
        members
            .into_iter()
            .map(|(name, value)| (name.to_string(), value))
            .collect(),
    )
}

fn call(method: &str, params: Option<JsonValue>, id: JsonValue) -> JsonRpcRequest {
    JsonRpcRequest::new(method.to_string(), params, Some(id))
}

fn done(handled: Handled<'_, Handler>) -> Option<Result<JsonRpcResponse, JsonRpcErrorResponse>> {
    match handled {
        Handled::Done(answer) => answer,
        Handled::Pending { .. } => panic!("work is pending"),
    }
}

fn failed(handled: Handled<'_, Handler>) -> JsonRpcErrorResponse {
    match done(handled) {
        Some(Err(response)) => response,
        other => panic!("no error response: {:?}", other),
    }
}

fn succeeded(handled: Handled<'_, Handler>) -> JsonRpcResponse {
    match done(handled) {
        Some(Ok(response)) => response,
        other => panic!("no response: {:?}", other),
    }
}

fn shout(params: Option<JsonValue>) -> Result<JsonValue, JsonRpcErrorObject> {
    match params {
        Some(JsonValue::String(s)) => Ok(JsonValue::String(s.to_uppercase())),
        _ => Err(JsonRpcErrorObject::custom(
            JsonRpcErrorCode::InvalidParams,
            "a string, please".to_string(),
            Some(number(1)),
        )),
    }
}

fn whisper(params: Option<JsonValue>) -> Result<JsonValue, JsonRpcErrorObject> {
    match params {
        Some(JsonValue::String(s)) => Ok(JsonValue::String(s.to_lowercase())),
        _ => Ok(JsonValue::Null),
    }
}

#[test]
fn test_echo_method() {
    let service: JsonRpcService<Handler> = JsonRpcService::new();

    let request = JsonRpcRequest::new(
        "echo".to_string(),
        Some(object(vec![("message", text("hello"))])),
        Some(number(1)),
    );

    let response = done(service.handle_request(request));
    assert!(response.is_some());

    if let Some(Ok(resp)) = response {
        assert_eq!(resp.result, object(vec![("message", text("hello"))]));
    } else {
        panic!("echo did not answer");
    }
}

#[test]
fn test_method_not_found() {
    let service: JsonRpcService<Handler> = JsonRpcService::new();

    let request = JsonRpcRequest::new("nonexistent_method".to_string(), None, Some(number(1)));

    let response = done(service.handle_request(request));
    assert!(response.is_some());

    if let Some(Err(err)) = response {
        assert_eq!(err.error.code, JsonRpcErrorCode::MethodNotFound.code());
    } else {
        panic!("no error response");
    }
}

#[test]
fn test_notification_no_response() {
    let service: JsonRpcService<Handler> = JsonRpcService::new();

    let notification = JsonRpcRequest::new(
        "echo".to_string(),
        Some(object(vec![("message", text("notify"))])),
        None,
    );

    let response = done(service.handle_request(notification));
    assert!(response.is_none());
}

#[test]
fn a_new_service_offers_the_four_builtin_methods() {
    let service: JsonRpcService<Handler> = JsonRpcService::new();
    let mut names = service.list_methods();
    names.sort();
    assert_eq!(names, vec!["add", "echo", "getServerInfo", "ping"]);
    let by_default: JsonRpcService<Handler> = JsonRpcService::default();
    assert_eq!(by_default.list_methods().len(), 4);
}

#[test]
fn echo_without_parameters_answers_null() {
    let service: JsonRpcService<Handler> = JsonRpcService::new();
    let response = succeeded(service.handle_request_at(call("echo", None, number(1)), 0));
    assert_eq!(response.result, JsonValue::Null);
    assert_eq!(response.id, number(1));
    assert_eq!(response.jsonrpc, "2.0");
    assert_eq!(builtin::echo(None), JsonValue::Null);
    assert_eq!(builtin::echo(Some(number(4))), number(4));
}

#[test]
fn ping_answers_with_the_time_it_is_given() {
    let service: JsonRpcService<Handler> = JsonRpcService::new();
    let response =
        succeeded(service.handle_request_at(call("ping", None, number(1)), 1699564800));
    assert_eq!(
        response.result,
        object(vec![("pong", JsonValue::Bool(true)), ("timestamp", number(1699564800))])
    );
    assert_eq!(
        builtin::ping(-5),
        object(vec![
            ("pong", JsonValue::Bool(true)),
            ("timestamp", JsonValue::Number(JsonNumber::NegInt(-5)))
        ])
    );
}

#[test]
fn ping_reads_the_clock() {
    let service: JsonRpcService<Handler> = JsonRpcService::new();
    let response = succeeded(service.handle_request(call("ping", None, number(1))));
    match response.result {
        JsonValue::Object(members) => {
            assert_eq!(members[0], ("pong".to_string(), JsonValue::Bool(true)));
            assert_eq!(members[1].0, "timestamp");
            match members[1].1 {
                JsonValue::Number(JsonNumber::PosInt(seconds)) => {
                    assert!(seconds > 1_600_000_000)
                }
                ref other => panic!("no time: {:?}", other),
            }
        }
        other => panic!("no object: {:?}", other),
    }
}

#[test]
fn server_info_names_the_service_and_its_methods() {
    let service: JsonRpcService<Handler> = JsonRpcService::new();
    let response = succeeded(service.handle_request_at(
        call("getServerInfo", Some(number(3)), text("info")),
        0,
    ));
    assert_eq!(response.id, text("info"));
    assert_eq!(
        response.result,
        object(vec![
            (
                "capabilities",
                JsonValue::Array(vec![
                    text("echo"),
                    text("ping"),
                    text("add"),
                    text("getServerInfo")
                ])
            ),
            ("jsonrpc_version", text("2.0")),
            ("name", text("webboard")),
            ("version", text("0.1.0")),
        ])
    );
}

#[test]
fn add_two_and_three_is_five() {
    let service: JsonRpcService<Handler> = JsonRpcService::new();
    let params = JsonValue::Array(vec![number(2), number(3)]);
    let response = succeeded(service.handle_request_at(call("add", Some(params), number(7)), 0));
    assert_eq!(response, JsonRpcResponse::new(number(5), number(7)));
}

#[test]
fn add_with_one_number_is_refused() {
    let service: JsonRpcService<Handler> = JsonRpcService::new();
    let params = JsonValue::Array(vec![number(2)]);
    let response = failed(service.handle_request_at(call("add", Some(params), number(7)), 0));
    assert_eq!(response.error.code, -32602);
    assert_eq!(response.error.message, "Exactly two numbers required");
    assert_eq!(response.error.data, None);
    assert_eq!(response.id, number(7));
}

#[test]
fn add_says_which_parameter_is_wrong() {
    let message = |params: Option<JsonValue>| match builtin::add(params) {
        Err(error) => {
            assert_eq!(error.code, -32602);
            assert_eq!(error.data, None);
            error.message
        }
        Ok(total) => panic!("added: {:?}", total),
    };
    assert_eq!(message(None), "Parameters required");
    assert_eq!(message(Some(number(1))), "Parameters must be an array of numbers");
    assert_eq!(
        message(Some(object(vec![("a", number(1))]))),
        "Parameters must be an array of numbers"
    );
    assert_eq!(message(Some(JsonValue::Array(vec![]))), "Exactly two numbers required");
    assert_eq!(
        message(Some(JsonValue::Array(vec![number(1), number(2), number(3)]))),
        "Exactly two numbers required"
    );
    assert_eq!(
        message(Some(JsonValue::Array(vec![text("1"), text("2")]))),
        "First parameter must be a number"
    );
    assert_eq!(
        message(Some(JsonValue::Array(vec![number(1), JsonValue::Null]))),
        "Second parameter must be a number"
    );
}

#[test]
fn add_is_exact_on_integers() {
    let pos = JsonNumber::PosInt;
    let neg = JsonNumber::NegInt;
    assert_eq!(builtin::sum(pos(2), pos(3)), Sum::Exact(pos(5)));
    assert_eq!(builtin::sum(pos(2), neg(-3)), Sum::Exact(neg(-1)));
    assert_eq!(builtin::sum(neg(-2), pos(2)), Sum::Exact(pos(0)));
    assert_eq!(builtin::sum(neg(-2), neg(-3)), Sum::Exact(neg(-5)));
    assert_eq!(
        builtin::sum(pos(9007199254740993), pos(0)),
        Sum::Exact(pos(9007199254740993))
    );
    assert_eq!(builtin::sum(pos(u64::MAX), neg(-1)), Sum::Exact(pos(u64::MAX - 1)));
    assert_eq!(builtin::sum(pos(u64::MAX), neg(i64::MIN)), Sum::Exact(pos(i64::MAX as u64)));
    assert_eq!(builtin::sum(neg(i64::MIN), pos(0)), Sum::Exact(neg(i64::MIN)));
}

#[test]
fn add_leaves_what_it_cannot_write_to_floating_point() {
    let pos = JsonNumber::PosInt;
    let neg = JsonNumber::NegInt;
    let half = JsonNumber::Float(0.5f64.to_bits());
    assert_eq!(builtin::sum(pos(u64::MAX), pos(1)), Sum::Inexact(pos(u64::MAX), pos(1)));
    assert_eq!(
        builtin::sum(neg(i64::MIN), neg(-1)),
        Sum::Inexact(neg(i64::MIN), neg(-1))
    );
    assert_eq!(builtin::sum(half, pos(1)), Sum::Inexact(half, pos(1)));
    assert_eq!(builtin::sum(pos(1), half), Sum::Inexact(pos(1), half));

    let service: JsonRpcService<Handler> = JsonRpcService::new();
    let params = JsonValue::Array(vec![JsonValue::Number(half), number(2)]);
    match service.handle_request_at(call("add", Some(params.clone()), number(7)), 0) {
        Handled::Pending { work: Work::Sum { left, right }, reply_to } => {
            assert_eq!(left, half);
            assert_eq!(right, pos(2));
            assert_eq!(reply_to, Some(number(7)));
            let total = f64::from_bits(0.5f64.to_bits()) + 2.0;
            let answer = complete(reply_to, Ok(JsonValue::Number(JsonNumber::Float(total.to_bits()))));
            assert_eq!(
                answer,
                Some(Ok(JsonRpcResponse::new(
                    JsonValue::Number(JsonNumber::Float(2.5f64.to_bits())),
                    number(7)
                )))
            );
        }
        _ => panic!("the sum was not left to floating point"),
    }
    let notification = JsonRpcRequest::new("add".to_string(), Some(params), None);
    assert_eq!(done(service.handle_request_at(notification, 0)), None);
}

#[test]
fn a_wrong_version_is_an_invalid_request() {
    let service: JsonRpcService<Handler> = JsonRpcService::new();
    let request = JsonRpcRequest {
        jsonrpc: "1.0".to_string(),
        method: "ping".to_string(),
        params: None,
        id: Some(number(1)),
    };
    let response = failed(service.handle_request_at(request, 0));
    assert_eq!(
        response,
        JsonRpcErrorResponse::custom(
            JsonRpcErrorCode::InvalidRequest,
            "Invalid JSON-RPC version. Must be '2.0'".to_string(),
            number(1)
        )
    );
    assert_eq!(response.error.code, -32600);
}

#[test]
fn a_reserved_method_name_is_an_invalid_request() {
    let service: JsonRpcService<Handler> = JsonRpcService::new();
    let response =
        failed(service.handle_request_at(call("rpc.internal", None, number(1)), 0));
    assert_eq!(response.error.code, -32600);
    assert_eq!(
        response.error.message,
        "Method names starting with 'rpc.' are reserved"
    );
    assert_eq!(response.id, number(1));
}

#[test]
fn an_invalid_request_without_identifier_is_answered_under_null() {
    let service: JsonRpcService<Handler> = JsonRpcService::new();
    let request = JsonRpcRequest::new(String::new(), None, None);
    let response = failed(service.handle_request_at(request, 0));
    assert_eq!(response.error.code, -32600);
    assert_eq!(response.error.message, "Method name cannot be empty");
    assert_eq!(response.id, JsonValue::Null);
}

#[test]
fn an_unknown_method_is_reported_under_the_identifier_of_the_call() {
    let service: JsonRpcService<Handler> = JsonRpcService::new();
    for id in [JsonValue::Null, number(1), text("abc"), JsonValue::Number(JsonNumber::NegInt(-4))] {
        let response = failed(service.handle_request_at(call("foo", None, id.clone()), 0));
        assert_eq!(
            response,
            JsonRpcErrorResponse::custom(
                JsonRpcErrorCode::MethodNotFound,
                "Method 'foo' not found".to_string(),
                id
            )
        );
    }
}

#[test]
fn method_names_are_matched_exactly() {
    let service: JsonRpcService<Handler> = JsonRpcService::new();
    for name in ["Echo", "echo ", "ech", "echoo", "PING"] {
        let response = failed(service.handle_request_at(call(name, None, number(1)), 0));
        assert_eq!(response.error.code, -32601);
        assert_eq!(response.error.message, format!("Method '{}' not found", name));
    }
}

#[test]
fn a_notification_to_an_unknown_method_is_passed_over() {
    let service: JsonRpcService<Handler> = JsonRpcService::new();
    let notification = JsonRpcRequest::new("foo".to_string(), Some(number(1)), None);
    assert_eq!(done(service.handle_request_at(notification, 0)), None);
}

#[test]
fn a_notification_is_not_answered_even_where_the_method_fails() {
    let mut service: JsonRpcService<Handler> = JsonRpcService::new();
    service.register_method("shout".to_string(), shout);
    let notification = JsonRpcRequest::new("add".to_string(), None, None);
    assert_eq!(done(service.handle_request_at(notification, 0)), None);
    let notification = JsonRpcRequest::new("shout".to_string(), None, None);
    match service.handle_request_at(notification, 0) {
        Handled::Pending { work: Work::Invoke { handler, params }, reply_to } => {
            assert_eq!(reply_to, None);
            let outcome = handler(params);
            assert!(outcome.is_err());
            assert_eq!(complete(reply_to, outcome), None);
        }
        _ => panic!("the handler was not asked for"),
    }
}

#[test]
fn a_registered_handler_is_handed_back_with_the_parameters() {
    let mut service: JsonRpcService<Handler> = JsonRpcService::new();
    service.register_method("shout".to_string(), shout);
    match service.handle_request_at(call("shout", Some(text("hi")), number(9)), 0) {
        Handled::Pending { work: Work::Invoke { handler, params }, reply_to } => {
            assert_eq!(params, Some(text("hi")));
            assert_eq!(reply_to, Some(number(9)));
            let answer = complete(reply_to, handler(params));
            assert_eq!(answer, Some(Ok(JsonRpcResponse::new(text("HI"), number(9)))));
        }
        _ => panic!("the handler was not asked for"),
    }
}

#[test]
fn an_error_of_the_handler_goes_out_as_it_is() {
    let mut service: JsonRpcService<Handler> = JsonRpcService::new();
    service.register_method("shout".to_string(), shout);
    match service.handle_request_at(call("shout", None, text("x")), 0) {
        Handled::Pending { work: Work::Invoke { handler, params }, reply_to } => {
            let answer = complete(reply_to, handler(params));
            let expected = JsonRpcErrorObject {
                code: -32602,
                message: "a string, please".to_string(),
                data: Some(number(1)),
            };
            assert_eq!(answer, Some(Err(JsonRpcErrorResponse::new(expected, text("x")))));
        }
        _ => panic!("the handler was not asked for"),
    }
    let odd = JsonRpcErrorObject { code: 12345, message: "odd".to_string(), data: None };
    assert_eq!(
        complete(Some(JsonValue::Null), Err(odd.clone())),
        Some(Err(JsonRpcErrorResponse::new(odd, JsonValue::Null)))
    );
}

#[test]
fn registering_twice_leaves_the_second_handler() {
    let mut service: JsonRpcService<Handler> = JsonRpcService::new();
    service.register_method("voice".to_string(), shout);
    service.register_method("voice".to_string(), whisper);
    let mut names = service.list_methods();
    names.sort();
    assert_eq!(names, vec!["add", "echo", "getServerInfo", "ping", "voice"]);
    match service.handle_request_at(call("voice", Some(text("Hi")), number(1)), 0) {
        Handled::Pending { work: Work::Invoke { handler, params }, .. } => {
            assert_eq!(handler(params), Ok(text("hi")));
        }
        _ => panic!("the handler was not asked for"),
    }
}

#[test]
fn a_builtin_method_can_be_replaced() {
    let mut service: JsonRpcService<Handler> = JsonRpcService::new();
    service.register_method("echo".to_string(), shout);
    assert_eq!(service.list_methods().len(), 4);
    match service.handle_request_at(call("echo", Some(text("hi")), number(1)), 0) {
        Handled::Pending { work: Work::Invoke { handler, params }, .. } => {
            assert_eq!(handler(params), Ok(text("HI")));
        }
        _ => panic!("the handler was not asked for"),
    }
}

#[test]
fn a_method_can_be_registered_at_any_time() {
    let mut service: JsonRpcService<Handler> = JsonRpcService::new();
    let response = failed(service.handle_request_at(call("late", None, number(1)), 0));
    assert_eq!(response.error.code, -32601);
    service.register_method("late".to_string(), whisper);
    assert!(matches!(
        service.handle_request_at(call("late", None, number(1)), 0),
        Handled::Pending { .. }
    ));
}

#[test]
fn complete_says_nothing_to_a_notification() {
    assert_eq!(complete(None, Ok(number(1))), None);
    assert_eq!(
        complete(
            None,
            Err(JsonRpcErrorObject::new(JsonRpcErrorCode::InternalError, None))
        ),
        None
    );
}

#[test]
fn a_method_that_does_not_come_back_is_an_internal_error() {
    assert_eq!(contain(Some(Ok(number(1)))), Ok(number(1)));
    let error = JsonRpcErrorObject::custom(JsonRpcErrorCode::ServerError, "busy".to_string(), None);
    assert_eq!(contain(Some(Err(error.clone()))), Err(error));
    assert_eq!(
        contain(None),
        Err(JsonRpcErrorObject {
            code: -32603,
            message: "Internal error".to_string(),
            data: None
        })
    );
}
