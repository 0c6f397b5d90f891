//! The methods that every service offers: `echo`, `ping`, `add` and
//! `getServerInfo`.

use vstd::prelude::*;
use crate::error_code::{ErrorObject, JsonRpcErrorCode, JsonRpcErrorObject};
use crate::json::{items_view, lemma_view_unfolds, members_view, option_view, Json, JsonNumber, JsonValue};

verus! {

/// The name under which the service makes itself known.
pub const SERVER_NAME: &'static str = "webboard";

/// The version of the service.
pub const SERVER_VERSION: &'static str = "0.1.0";

/// The version of JSON-RPC that the service speaks.
pub const PROTOCOL_VERSION: &'static str = "2.0";

/// One of the built-in methods.
#[derive(Debug, Clone, Copy, PartialEq, Eq, Structural)]
pub enum Builtin {
    Echo,
    Ping,
    Add,
    GetServerInfo,
}

impl Builtin {
    /// The name under which the method is registered.
    pub open spec fn spec_name(self) -> Seq<char> {
        match self {
            Builtin::Echo => "echo"@,
            Builtin::Ping => "ping"@,
            Builtin::Add => "add"@,
            Builtin::GetServerInfo => "getServerInfo"@,
        }
    }

    /// The name under which the method is registered.
    pub fn name(&self) -> (name: &'static str)
        ensures
            name@ == self.spec_name(),
    {
        match self {
            Builtin::Echo => "echo",
            Builtin::Ping => "ping",
            Builtin::Add => "add",
            Builtin::GetServerInfo => "getServerInfo",
        }
    }
}

/// The sum that `add` found: the number itself where both operands are
/// integers and their sum can be written as one; otherwise the two operands,
/// which are left to be added in binary floating point.
#[derive(Debug, Clone, Copy, PartialEq, Eq, Structural)]
pub enum Sum {
    Exact(JsonNumber),
    Inexact(JsonNumber, JsonNumber),
}

/// What `echo` answers: its parameters, or `null` where it has none.
pub open spec fn echo_result(params: Option<Json>) -> Json {
    match params {
        Some(value) => value,
        None => Json::Null,
    }
}

/// What `ping` answers at the time `now`, in seconds since 1970.
pub open spec fn ping_result(now: i64) -> Json {
    Json::Object(
        seq![
            ("pong"@, Json::Bool(true)),
            ("timestamp"@, Json::Number(JsonNumber::of_i64(now))),
        ],
    )
}

/// What `getServerInfo` answers.
pub open spec fn server_info() -> Json {
    Json::Object(
        seq![
            (
                "capabilities"@,
                Json::Array(
                    seq![
                        Json::String("echo"@),
                        Json::String("ping"@),
                        Json::String("add"@),
                        Json::String("getServerInfo"@),
                    ],
                ),
            ),
            ("jsonrpc_version"@, Json::String(PROTOCOL_VERSION@)),
            ("name"@, Json::String(SERVER_NAME@)),
            ("version"@, Json::String(SERVER_VERSION@)),
        ],
    )
}

/// The error with which `add` turns its parameters down.
pub open spec fn invalid_params(message: Seq<char>) -> ErrorObject {
    ErrorObject::custom(JsonRpcErrorCode::InvalidParams, message, None)
}

/// The sum of two numbers.
pub open spec fn sum_of(left: JsonNumber, right: JsonNumber) -> Sum {
    match (left.integer(), right.integer()) {
        (Some(a), Some(b)) => match JsonNumber::of_integer(a + b) {
            Some(total) => Sum::Exact(total),
            None => Sum::Inexact(left, right),
        },
        _ => Sum::Inexact(left, right),
    }
}

/// What `add` makes of its parameters: they have to be an array of exactly
/// two numbers.
pub open spec fn add_result(params: Option<Json>) -> Result<Sum, ErrorObject> {
    match params {
        None => Err(invalid_params("Parameters required"@)),
        Some(Json::Array(items)) => if items.len() != 2 {
            Err(invalid_params("Exactly two numbers required"@))
        } else {
            match items[0] {
                Json::Number(left) => match items[1] {
                    Json::Number(right) => Ok(sum_of(left, right)),
                    _ => Err(invalid_params("Second parameter must be a number"@)),
                },
                _ => Err(invalid_params("First parameter must be a number"@)),
            }
        },
        Some(_) => Err(invalid_params("Parameters must be an array of numbers"@)),
    }
}

/// Answers with the parameters it was given.
pub fn echo(params: Option<JsonValue>) -> (result: JsonValue)
    ensures
        result@ == echo_result(option_view(params)),
{
    match params {
        Some(value) => value,
        None => JsonValue::Null,
    }
}

/// Answers that the service is alive at the time `now`.
pub fn ping(now: i64) -> (result: JsonValue)
    ensures
        result@ == ping_result(now),
{
    let mut members: Vec<(String, JsonValue)> = Vec::new();
    members.push(("pong".to_owned(), JsonValue::Bool(true)));
    members.push(("timestamp".to_owned(), JsonValue::integer(now)));
    let result = JsonValue::object(members);
    assert(members_view(members@) =~= ping_result(now)->Object_0);
    result
}

/// Answers with what the service is and what it can do.
pub fn get_server_info() -> (result: JsonValue)
    ensures
        result@ == server_info(),
{
    let mut capabilities: Vec<JsonValue> = Vec::new();
    capabilities.push(JsonValue::text("echo"));
    capabilities.push(JsonValue::text("ping"));
    capabilities.push(JsonValue::text("add"));
    capabilities.push(JsonValue::text("getServerInfo"));
    let ghost names = capabilities@;
    let list = JsonValue::array(capabilities);
    assert(items_view(names) =~= server_info()->Object_0[0].1->Array_0);
    let mut members: Vec<(String, JsonValue)> = Vec::new();
    members.push(("capabilities".to_owned(), list));
    members.push(("jsonrpc_version".to_owned(), JsonValue::text(PROTOCOL_VERSION)));
    members.push(("name".to_owned(), JsonValue::text(SERVER_NAME)));
    members.push(("version".to_owned(), JsonValue::text(SERVER_VERSION)));
    let result = JsonValue::object(members);
    assert(members_view(members@) =~= server_info()->Object_0);
    result
}

/// Adds two numbers as exactly as JSON can write the sum.
pub fn sum(left: JsonNumber, right: JsonNumber) -> (total: Sum)
    ensures
        total == sum_of(left, right),
{
    let a: i128 = match left {
        JsonNumber::PosInt(n) => n as i128,
        JsonNumber::NegInt(n) => n as i128,
        JsonNumber::Float(_) => {
            return Sum::Inexact(left, right);
        },
    };
    let b: i128 = match right {
        JsonNumber::PosInt(n) => n as i128,
        JsonNumber::NegInt(n) => n as i128,
        JsonNumber::Float(_) => {
            return Sum::Inexact(left, right);
        },
    };
    let total: i128 = a + b;
    if 0 <= total && total <= u64::MAX as i128 {
        Sum::Exact(JsonNumber::PosInt(total as u64))
    } else if i64::MIN as i128 <= total && total < 0 {
        Sum::Exact(JsonNumber::NegInt(total as i64))
    } else {
        Sum::Inexact(left, right)
    }
}

fn reject(message: &str) -> (error: JsonRpcErrorObject)
    ensures
        error@ == invalid_params(message@),
{
    JsonRpcErrorObject::custom(JsonRpcErrorCode::InvalidParams, message.to_owned(), None)
}

/// Adds the two numbers that its parameters hold.
pub fn add(params: Option<JsonValue>) -> (result: Result<Sum, JsonRpcErrorObject>)
    ensures
        match result {
            Ok(total) => add_result(option_view(params)) == Ok::<Sum, ErrorObject>(total),
            Err(error) => add_result(option_view(params)) == Err::<Sum, ErrorObject>(error@),
        },
{
    let value = match params {
        Some(value) => value,
        None => {
            return Err(reject("Parameters required"));
        },
    };
    proof {
        lemma_view_unfolds(value);
    }
    let numbers = match &value {
        JsonValue::Array(items) => items,
        _ => {
            return Err(reject("Parameters must be an array of numbers"));
        },
    };
    if numbers.len() != 2 {
        return Err(reject("Exactly two numbers required"));
    }
    let left = match &numbers[0] {
        JsonValue::Number(n) => *n,
        _ => {
            return Err(reject("First parameter must be a number"));
        },
    };
    let right = match &numbers[1] {
        JsonValue::Number(n) => *n,
        _ => {
            return Err(reject("Second parameter must be a number"));
        },
    };
    Ok(sum(left, right))
}

} // verus!
