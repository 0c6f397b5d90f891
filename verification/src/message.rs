//! The messages of JSON-RPC 2.0: requests, responses and error responses.

use vstd::prelude::*;
use crate::error_code::{ErrorObject, JsonRpcErrorCode, JsonRpcErrorObject};
use crate::json::{option_view, Json, JsonValue};
use crate::text::{same_text, starts_with};

verus! {

/// A request: the protocol version, the name of a method, the parameters for
/// it, and the identifier under which the answer is expected. A request
/// without an identifier is a notification and is never answered.
#[derive(Debug, Clone, PartialEq, Eq)]
pub struct JsonRpcRequest {
    pub jsonrpc: String,
    pub method: String,
    pub params: Option<JsonValue>,
    pub id: Option<JsonValue>,
}

/// The mathematical value of a `JsonRpcRequest`.
pub struct Request {
    pub jsonrpc: Seq<char>,
    pub method: Seq<char>,
    pub params: Option<Json>,
    pub id: Option<Json>,
}

impl View for JsonRpcRequest {
    type V = Request;

    open spec fn view(&self) -> Request {
        Request {
            jsonrpc: self.jsonrpc@,
            method: self.method@,
            params: option_view(self.params),
            id: option_view(self.id),
        }
    }
}

impl Request {
    /// Whether the request asks for no answer: it has no identifier. An
    /// identifier that is `null` is an identifier.
    pub open spec fn is_notification(self) -> bool {
        self.id is None
    }

    /// What is wrong with the request's structure, if anything: the first of
    /// a version other than 2.0, an empty method name, and a method name in
    /// the reserved `rpc.` space.
    pub open spec fn validation_error(self) -> Option<Seq<char>> {
        if self.jsonrpc != "2.0"@ {
            Some("Invalid JSON-RPC version. Must be '2.0'"@)
        } else if self.method.len() == 0 {
            Some("Method name cannot be empty"@)
        } else if "rpc."@.is_prefix_of(self.method) {
            Some("Method names starting with 'rpc.' are reserved"@)
        } else {
            None
        }
    }

    /// Whether the request's structure is in order.
    pub open spec fn is_valid(self) -> bool {
        &&& self.jsonrpc == "2.0"@
        &&& self.method.len() > 0
        &&& !"rpc."@.is_prefix_of(self.method)
    }
}

impl JsonRpcRequest {
    /// A request of version 2.0.
    pub fn new(method: String, params: Option<JsonValue>, id: Option<JsonValue>) -> (request:
        Self)
        ensures
            request@ == (Request {
                jsonrpc: "2.0"@,
                method: method@,
                params: option_view(params),
                id: option_view(id),
            }),
    {
        JsonRpcRequest { jsonrpc: "2.0".to_owned(), method, params, id }
    }

    /// Whether the request is a notification.
    pub fn is_notification(&self) -> (yes: bool)
        ensures
            yes == self@.is_notification(),
    {
        self.id.is_none()
    }

    /// Checks the request's structure. The parameters are not looked at: they
    /// are the method's business.
    pub fn validate(&self) -> (verdict: Result<(), String>)
        ensures
            verdict is Ok <==> self@.is_valid(),
            match verdict {
                Ok(_) => self@.validation_error() is None,
                Err(reason) => self@.validation_error() == Some(reason@),
            },
    {
        if !same_text(self.jsonrpc.as_str(), "2.0") {
            return Err("Invalid JSON-RPC version. Must be '2.0'".to_owned());
        }
        if self.method.as_str().is_empty() {
            return Err("Method name cannot be empty".to_owned());
        }
        if starts_with(self.method.as_str(), "rpc.") {
            return Err("Method names starting with 'rpc.' are reserved".to_owned());
        }
        Ok(())
    }
}

/// The answer to a call that succeeded.
#[derive(Debug, Clone, PartialEq, Eq)]
pub struct JsonRpcResponse {
    pub jsonrpc: String,
    pub result: JsonValue,
    pub id: JsonValue,
}

/// The mathematical value of a `JsonRpcResponse`.
pub struct Response {
    pub jsonrpc: Seq<char>,
    pub result: Json,
    pub id: Json,
}

impl View for JsonRpcResponse {
    type V = Response;

    open spec fn view(&self) -> Response {
        Response { jsonrpc: self.jsonrpc@, result: self.result@, id: self.id@ }
    }
}

impl Response {
    /// The version 2.0 answer that carries `result` to the call `id`.
    pub open spec fn new(result: Json, id: Json) -> Response {
        Response { jsonrpc: "2.0"@, result, id }
    }
}

impl JsonRpcResponse {
    /// The answer that carries `result` to the call `id`.
    pub fn new(result: JsonValue, id: JsonValue) -> (response: Self)
        ensures
            response@ == Response::new(result@, id@),
    {
        JsonRpcResponse { jsonrpc: "2.0".to_owned(), result, id }
    }
}

/// The answer to a call that failed. The identifier is `null` where the
/// call's own could not be made out.
#[derive(Debug, Clone, PartialEq, Eq)]
pub struct JsonRpcErrorResponse {
    pub jsonrpc: String,
    pub error: JsonRpcErrorObject,
    pub id: JsonValue,
}

/// The mathematical value of a `JsonRpcErrorResponse`.
pub struct ErrorResponse {
    pub jsonrpc: Seq<char>,
    pub error: ErrorObject,
    pub id: Json,
}

impl View for JsonRpcErrorResponse {
    type V = ErrorResponse;

    open spec fn view(&self) -> ErrorResponse {
        ErrorResponse { jsonrpc: self.jsonrpc@, error: self.error@, id: self.id@ }
    }
}

impl ErrorResponse {
    /// The version 2.0 answer that carries `error` to the call `id`.
    pub open spec fn new(error: ErrorObject, id: Json) -> ErrorResponse {
        ErrorResponse { jsonrpc: "2.0"@, error, id }
    }

    /// The answer to `id` that carries `code` with a text of the caller's.
    pub open spec fn custom(code: JsonRpcErrorCode, message: Seq<char>, id: Json) -> ErrorResponse {
        ErrorResponse::new(ErrorObject::custom(code, message, None), id)
    }

    /// The answer to `id` that carries `code` with the text that goes with it.
    pub open spec fn from_code(code: JsonRpcErrorCode, id: Json) -> ErrorResponse {
        ErrorResponse::new(ErrorObject::standard(code, None), id)
    }
}

impl JsonRpcErrorResponse {
    /// The answer that carries `error` to the call `id`.
    pub fn new(error: JsonRpcErrorObject, id: JsonValue) -> (response: Self)
        ensures
            response@ == ErrorResponse::new(error@, id@),
    {
        JsonRpcErrorResponse { jsonrpc: "2.0".to_owned(), error, id }
    }

    /// The answer to `id` that carries `code` with the text that goes with it.
    pub fn from_code(code: JsonRpcErrorCode, id: JsonValue) -> (response: Self)
        ensures
            response@ == ErrorResponse::from_code(code, id@),
    {
        JsonRpcErrorResponse::new(JsonRpcErrorObject::new(code, None), id)
    }

    /// The answer to `id` that carries `code` with a text of the caller's.
    pub fn custom(code: JsonRpcErrorCode, message: String, id: JsonValue) -> (response: Self)
        ensures
            response@ == ErrorResponse::custom(code, message@, id@),
    {
        JsonRpcErrorResponse::new(JsonRpcErrorObject::custom(code, message, None), id)
    }
}

/// Any one message.
#[derive(Debug, Clone, PartialEq, Eq)]
pub enum JsonRpcMessage {
    Request(JsonRpcRequest),
    Response(JsonRpcResponse),
    Error(JsonRpcErrorResponse),
}

/// The mathematical value of a `JsonRpcMessage`.
pub enum Message {
    Request(Request),
    Response(Response),
    Error(ErrorResponse),
}

impl View for JsonRpcMessage {
    type V = Message;

    open spec fn view(&self) -> Message {
        match self {
            JsonRpcMessage::Request(request) => Message::Request(request@),
            JsonRpcMessage::Response(response) => Message::Response(response@),
            JsonRpcMessage::Error(response) => Message::Error(response@),
        }
    }
}

} // verus!
