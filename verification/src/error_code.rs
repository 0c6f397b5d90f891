//! The standard JSON-RPC 2.0 error codes, and the error object that carries one.

use vstd::prelude::*;
use crate::json::{option_view, Json, JsonValue};

verus! {

/// The error conditions that JSON-RPC 2.0 reserves a code for.
#[derive(Debug, Clone, Copy, PartialEq, Eq, Structural)]
pub enum JsonRpcErrorCode {
    /// The text received was not JSON.
    ParseError,
    /// The JSON received was not a request.
    InvalidRequest,
    /// No method is registered under the name asked for.
    MethodNotFound,
    /// The method rejected its parameters.
    InvalidParams,
    /// The method failed in a way it did not report itself.
    InternalError,
    /// A condition that the server defines.
    ServerError,
}

impl JsonRpcErrorCode {
    /// The number that stands for the code on the wire.
    pub open spec fn spec_code(self) -> int {
        match self {
            JsonRpcErrorCode::ParseError => -32700,
            JsonRpcErrorCode::InvalidRequest => -32600,
            JsonRpcErrorCode::MethodNotFound => -32601,
            JsonRpcErrorCode::InvalidParams => -32602,
            JsonRpcErrorCode::InternalError => -32603,
            JsonRpcErrorCode::ServerError => -32000,
        }
    }

    /// The number that stands for the code on the wire.
    pub fn code(&self) -> (n: i32)
        ensures
            n == self.spec_code(),
    {
        match self {
            JsonRpcErrorCode::ParseError => -32700,
            JsonRpcErrorCode::InvalidRequest => -32600,
            JsonRpcErrorCode::MethodNotFound => -32601,
            JsonRpcErrorCode::InvalidParams => -32602,
            JsonRpcErrorCode::InternalError => -32603,
            JsonRpcErrorCode::ServerError => -32000,
        }
    }

    /// The short text that goes with the code.
    pub open spec fn spec_message(self) -> Seq<char> {
        match self {
            JsonRpcErrorCode::ParseError => "Parse error"@,
            JsonRpcErrorCode::InvalidRequest => "Invalid Request"@,
            JsonRpcErrorCode::MethodNotFound => "Method not found"@,
            JsonRpcErrorCode::InvalidParams => "Invalid params"@,
            JsonRpcErrorCode::InternalError => "Internal error"@,
            JsonRpcErrorCode::ServerError => "Server error"@,
        }
    }

    /// The short text that goes with the code.
    pub fn message(&self) -> (text: &'static str)
        ensures
            text@ == self.spec_message(),
    {
        match self {
            JsonRpcErrorCode::ParseError => "Parse error",
            JsonRpcErrorCode::InvalidRequest => "Invalid Request",
            JsonRpcErrorCode::MethodNotFound => "Method not found",
            JsonRpcErrorCode::InvalidParams => "Invalid params",
            JsonRpcErrorCode::InternalError => "Internal error",
            JsonRpcErrorCode::ServerError => "Server error",
        }
    }
}

/// What went wrong with a request: a code, a short text, and optional detail.
#[derive(Debug, Clone, PartialEq, Eq)]
pub struct JsonRpcErrorObject {
    pub code: i32,
    pub message: String,
    pub data: Option<JsonValue>,
}

/// The mathematical value of a `JsonRpcErrorObject`.
pub struct ErrorObject {
    pub code: i32,
    pub message: Seq<char>,
    pub data: Option<Json>,
}

impl View for JsonRpcErrorObject {
    type V = ErrorObject;

    open spec fn view(&self) -> ErrorObject {
        ErrorObject { code: self.code, message: self.message@, data: option_view(self.data) }
    }
}

impl ErrorObject {
    /// The error object of `code` with the text `message`.
    pub open spec fn custom(code: JsonRpcErrorCode, message: Seq<char>, data: Option<
        Json,
    >) -> ErrorObject {
        ErrorObject { code: code.spec_code() as i32, message, data }
    }

    /// The error object of `code` with the text that goes with the code.
    pub open spec fn standard(code: JsonRpcErrorCode, data: Option<Json>) -> ErrorObject {
        ErrorObject::custom(code, code.spec_message(), data)
    }
}

impl JsonRpcErrorObject {
    /// An error object of `code` with the text that goes with the code.
    pub fn new(code: JsonRpcErrorCode, data: Option<JsonValue>) -> (error: Self)
        ensures
            error@ == ErrorObject::standard(code, option_view(data)),
    {
        JsonRpcErrorObject { code: code.code(), message: code.message().to_owned(), data }
    }

    /// An error object of `code` with a text of the caller's.
    pub fn custom(code: JsonRpcErrorCode, message: String, data: Option<JsonValue>) -> (error:
        Self)
        ensures
            error@ == ErrorObject::custom(code, message@, option_view(data)),
    {
        JsonRpcErrorObject { code: code.code(), message, data }
    }
}

} // verus!
