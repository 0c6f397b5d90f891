//! The shape that the messages have on the wire: each message as a JSON
//! object, and each such object read back as a message.

use vstd::prelude::*;
use vstd::string::*;
use crate::error_code::{ErrorObject, JsonRpcErrorObject};
use crate::json::{find_member, lemma_find_elsewhere, lemma_view_unfolds, members_view, option_view, take_member, Json, JsonNumber, JsonValue};
use crate::message::{ErrorResponse, JsonRpcErrorResponse, JsonRpcMessage, JsonRpcRequest, JsonRpcResponse, Message, Request, Response};

verus! {

/// The members that the messages are made of.
#[derive(Debug, Clone, Copy, PartialEq, Eq, Structural)]
pub enum Field {
    Jsonrpc,
    Method,
    Params,
    Id,
    Result,
    Error,
    Code,
    Message,
    Data,
}

/// Why a JSON value is not the message it was taken for.
#[derive(Debug, Clone, Copy, PartialEq, Eq, Structural)]
pub enum DecodeError {
    /// The value is not an object.
    NotAnObject,
    /// The object lacks a member that the message must have.
    Missing(Field),
    /// The member is not of the kind that the message asks for.
    Malformed(Field),
    /// The value is none of the messages there are.
    NoMessage,
}

impl Field {
    /// The name of the member.
    pub open spec fn spec_name(self) -> Seq<char> {
        match self {
            Field::Jsonrpc => "jsonrpc"@,
            Field::Method => "method"@,
            Field::Params => "params"@,
            Field::Id => "id"@,
            Field::Result => "result"@,
            Field::Error => "error"@,
            Field::Code => "code"@,
            Field::Message => "message"@,
            Field::Data => "data"@,
        }
    }

    /// The name of the member.
    pub fn name(&self) -> (name: &'static str)
        ensures
            name@ == self.spec_name(),
    {
        match self {
            Field::Jsonrpc => "jsonrpc",
            Field::Method => "method",
            Field::Params => "params",
            Field::Id => "id",
            Field::Result => "result",
            Field::Error => "error",
            Field::Code => "code",
            Field::Message => "message",
            Field::Data => "data",
        }
    }
}

/// No two members share a name.
pub proof fn lemma_field_names_differ(a: Field, b: Field)
    requires
        a != b,
    ensures
        a.spec_name() != b.spec_name(),
{
    reveal_strlit("jsonrpc");
    reveal_strlit("method");
    reveal_strlit("params");
    reveal_strlit("id");
    reveal_strlit("result");
    reveal_strlit("error");
    reveal_strlit("code");
    reveal_strlit("message");
    reveal_strlit("data");
    if a.spec_name().len() == b.spec_name().len() {
        assert(a.spec_name()[0] != b.spec_name()[0] || a.spec_name()[1] != b.spec_name()[1]);
    }
}

impl DecodeError {
    /// The complaint in words.
    pub open spec fn spec_describe(self) -> Seq<char> {
        match self {
            DecodeError::NotAnObject => "expected an object"@,
            DecodeError::Missing(field) => "missing field `"@ + field.spec_name() + "`"@,
            DecodeError::Malformed(field) => "invalid type for field `"@ + field.spec_name()
                + "`"@,
            DecodeError::NoMessage => "data did not match any kind of message"@,
        }
    }

    /// The complaint in words.
    pub fn describe(&self) -> (text: String)
        ensures
            text@ == self.spec_describe(),
    {
        match self {
            DecodeError::NotAnObject => "expected an object".to_owned(),
            DecodeError::Missing(field) => "missing field `".to_owned().concat(field.name()).concat(
                "`",
            ),
            DecodeError::Malformed(field) => "invalid type for field `".to_owned().concat(
                field.name(),
            ).concat("`"),
            DecodeError::NoMessage => "data did not match any kind of message".to_owned(),
        }
    }
}

/// The number that writes an error code.
pub open spec fn code_number(code: i32) -> JsonNumber {
    JsonNumber::of_i64(code as i64)
}

/// The error code that a number writes, if it writes one: an integer that
/// fits in 32 bits.
pub open spec fn number_code(number: JsonNumber) -> Option<i32> {
    match number.integer() {
        Some(n) => if i32::MIN <= n <= i32::MAX {
            Some(n as i32)
        } else {
            None
        },
        None => None,
    }
}

/// An error object on the wire: `code`, `message`, and `data` where there is any.
pub open spec fn error_object_json(error: ErrorObject) -> Json {
    let head = seq![
        (Field::Code.spec_name(), Json::Number(code_number(error.code))),
        (Field::Message.spec_name(), Json::String(error.message)),
    ];
    match error.data {
        Some(data) => Json::Object(head.push((Field::Data.spec_name(), data))),
        None => Json::Object(head),
    }
}

/// A response on the wire: `jsonrpc`, `result`, `id`.
pub open spec fn response_json(response: Response) -> Json {
    Json::Object(
        seq![
            (Field::Jsonrpc.spec_name(), Json::String(response.jsonrpc)),
            (Field::Result.spec_name(), response.result),
            (Field::Id.spec_name(), response.id),
        ],
    )
}

/// An error response on the wire: `jsonrpc`, `error`, `id`.
pub open spec fn error_response_json(response: ErrorResponse) -> Json {
    Json::Object(
        seq![
            (Field::Jsonrpc.spec_name(), Json::String(response.jsonrpc)),
            (Field::Error.spec_name(), error_object_json(response.error)),
            (Field::Id.spec_name(), response.id),
        ],
    )
}

/// A request on the wire: `jsonrpc`, `method`, and `params` and `id` where
/// there are any.
pub open spec fn request_json(request: Request) -> Json {
    let head = seq![
        (Field::Jsonrpc.spec_name(), Json::String(request.jsonrpc)),
        (Field::Method.spec_name(), Json::String(request.method)),
    ];
    let body = match request.params {
        Some(params) => head.push((Field::Params.spec_name(), params)),
        None => head,
    };
    match request.id {
        Some(id) => Json::Object(body.push((Field::Id.spec_name(), id))),
        None => Json::Object(body),
    }
}

/// An answer on the wire.
pub open spec fn answer_json(answer: Result<Response, ErrorResponse>) -> Json {
    match answer {
        Ok(response) => response_json(response),
        Err(response) => error_response_json(response),
    }
}

/// The text in the member `field`, which has to be there.
pub open spec fn text_member(members: Seq<(Seq<char>, Json)>, field: Field) -> Result<
    Seq<char>,
    DecodeError,
> {
    match find_member(members, field.spec_name()) {
        None => Err(DecodeError::Missing(field)),
        Some(Json::String(text)) => Ok(text),
        Some(_) => Err(DecodeError::Malformed(field)),
    }
}

/// The value in the member `field`, which has to be there.
pub open spec fn value_member(members: Seq<(Seq<char>, Json)>, field: Field) -> Result<
    Json,
    DecodeError,
> {
    match find_member(members, field.spec_name()) {
        None => Err(DecodeError::Missing(field)),
        Some(value) => Ok(value),
    }
}

/// The value in the member `field`, where there is one that is not `null`.
pub open spec fn optional_member(members: Seq<(Seq<char>, Json)>, field: Field) -> Option<Json> {
    match find_member(members, field.spec_name()) {
        None => None,
        Some(Json::Null) => None,
        Some(value) => Some(value),
    }
}

/// The error code in the member `code`, which has to be there.
pub open spec fn code_member(members: Seq<(Seq<char>, Json)>) -> Result<i32, DecodeError> {
    match find_member(members, Field::Code.spec_name()) {
        None => Err(DecodeError::Missing(Field::Code)),
        Some(Json::Number(number)) => match number_code(number) {
            Some(code) => Ok(code),
            None => Err(DecodeError::Malformed(Field::Code)),
        },
        Some(_) => Err(DecodeError::Malformed(Field::Code)),
    }
}

/// The request that a JSON value is. It has to be an object with the texts
/// `jsonrpc` and `method`. Parameters that are `null` count as none. An
/// identifier that is `null` is an identifier. Other members are passed over.
pub open spec fn decode_request(value: Json) -> Result<Request, DecodeError> {
    match value {
        Json::Object(members) => match text_member(members, Field::Jsonrpc) {
            Err(e) => Err(e),
            Ok(jsonrpc) => match text_member(members, Field::Method) {
                Err(e) => Err(e),
                Ok(method) => Ok(
                    Request {
                        jsonrpc,
                        method,
                        params: optional_member(members, Field::Params),
                        id: find_member(members, Field::Id.spec_name()),
                    },
                ),
            },
        },
        _ => Err(DecodeError::NotAnObject),
    }
}

/// The response that a JSON value is. It has to be an object with the text
/// `jsonrpc` and with `result` and `id`.
pub open spec fn decode_response(value: Json) -> Result<Response, DecodeError> {
    match value {
        Json::Object(members) => match text_member(members, Field::Jsonrpc) {
            Err(e) => Err(e),
            Ok(jsonrpc) => match value_member(members, Field::Result) {
                Err(e) => Err(e),
                Ok(result) => match value_member(members, Field::Id) {
                    Err(e) => Err(e),
                    Ok(id) => Ok(Response { jsonrpc, result, id }),
                },
            },
        },
        _ => Err(DecodeError::NotAnObject),
    }
}

/// The error object that a JSON value is. It has to be an object with the
/// integer `code` and the text `message`. Data that is `null` counts as none.
pub open spec fn decode_error_object(value: Json) -> Result<ErrorObject, DecodeError> {
    match value {
        Json::Object(members) => match code_member(members) {
            Err(e) => Err(e),
            Ok(code) => match text_member(members, Field::Message) {
                Err(e) => Err(e),
                Ok(message) => Ok(
                    ErrorObject { code, message, data: optional_member(members, Field::Data) },
                ),
            },
        },
        _ => Err(DecodeError::NotAnObject),
    }
}

/// The error response that a JSON value is. It has to be an object with the
/// text `jsonrpc`, the error object `error`, and `id`.
pub open spec fn decode_error_response(value: Json) -> Result<ErrorResponse, DecodeError> {
    match value {
        Json::Object(members) => match text_member(members, Field::Jsonrpc) {
            Err(e) => Err(e),
            Ok(jsonrpc) => match value_member(members, Field::Error) {
                Err(e) => Err(e),
                Ok(error_value) => match decode_error_object(error_value) {
                    Err(e) => Err(e),
                    Ok(error) => match value_member(members, Field::Id) {
                        Err(e) => Err(e),
                        Ok(id) => Ok(ErrorResponse { jsonrpc, error, id }),
                    },
                },
            },
        },
        _ => Err(DecodeError::NotAnObject),
    }
}

/// A message on the wire.
pub open spec fn message_json(message: Message) -> Json {
    match message {
        Message::Request(request) => request_json(request),
        Message::Response(response) => response_json(response),
        Message::Error(response) => error_response_json(response),
    }
}

/// The message that a JSON value is: a request if it can be read as one,
/// else a response if it can be read as one, else an error response.
pub open spec fn decode_message(value: Json) -> Result<Message, DecodeError> {
    match decode_request(value) {
        Ok(request) => Ok(Message::Request(request)),
        Err(_) => match decode_response(value) {
            Ok(response) => Ok(Message::Response(response)),
            Err(_) => match decode_error_response(value) {
                Ok(response) => Ok(Message::Error(response)),
                Err(_) => Err(DecodeError::NoMessage),
            },
        },
    }
}

/// Takes the member `field` out of `members`. The other members of a message
/// stay as they were.
fn take_field(members: &mut Vec<(String, JsonValue)>, field: Field) -> (found: Option<JsonValue>)
    ensures
        option_view(found) == find_member(members_view(old(members)@), field.spec_name()),
        forall|other: Field|
            other != field ==> #[trigger] find_member(
                members_view(final(members)@),
                other.spec_name(),
            ) == find_member(members_view(old(members)@), other.spec_name()),
{
    let found = take_member(members, field.name());
    proof {
        assert forall|other: Field| other != field implies #[trigger] find_member(
            members_view(members@),
            other.spec_name(),
        ) == find_member(members_view(old(members)@), other.spec_name()) by {
            lemma_field_names_differ(other, field);
            lemma_find_elsewhere(
                members_view(old(members)@),
                field.spec_name(),
                other.spec_name(),
            );
        }
    }
    found
}

/// Takes the text in the member `field` out of `members`.
fn take_text(members: &mut Vec<(String, JsonValue)>, field: Field) -> (found: Result<
    String,
    DecodeError,
>)
    ensures
        match found {
            Ok(text) => text_member(members_view(old(members)@), field) == Ok::<
                Seq<char>,
                DecodeError,
            >(text@),
            Err(e) => text_member(members_view(old(members)@), field) == Err::<
                Seq<char>,
                DecodeError,
            >(e),
        },
        forall|other: Field|
            other != field ==> #[trigger] find_member(
                members_view(final(members)@),
                other.spec_name(),
            ) == find_member(members_view(old(members)@), other.spec_name()),
{
    match take_field(members, field) {
        None => Err(DecodeError::Missing(field)),
        Some(JsonValue::String(text)) => Ok(text),
        Some(_) => Err(DecodeError::Malformed(field)),
    }
}

/// Takes the value in the member `field` out of `members`, where there is
/// one that is not `null`.
fn take_optional(members: &mut Vec<(String, JsonValue)>, field: Field) -> (found: Option<
    JsonValue,
>)
    ensures
        option_view(found) == optional_member(members_view(old(members)@), field),
        forall|other: Field|
            other != field ==> #[trigger] find_member(
                members_view(final(members)@),
                other.spec_name(),
            ) == find_member(members_view(old(members)@), other.spec_name()),
{
    match take_field(members, field) {
        None => None,
        Some(JsonValue::Null) => None,
        Some(value) => Some(value),
    }
}

/// The number that writes an error code.
fn code_to_number(code: i32) -> (number: JsonNumber)
    ensures
        number == code_number(code),
{
    JsonNumber::from_i64(code as i64)
}

/// The error code that a number writes.
fn number_to_code(number: JsonNumber) -> (code: Option<i32>)
    ensures
        code == number_code(number),
{
    match number {
        JsonNumber::PosInt(n) => if n <= i32::MAX as u64 {
            Some(n as i32)
        } else {
            None
        },
        JsonNumber::NegInt(n) => if i32::MIN as i64 <= n && n <= i32::MAX as i64 {
            Some(n as i32)
        } else {
            None
        },
        JsonNumber::Float(_) => None,
    }
}

impl JsonRpcErrorObject {
    /// The error object as it goes on the wire.
    pub fn to_json(self) -> (value: JsonValue)
        ensures
            value@ == error_object_json(self@),
    {
        let mut members: Vec<(String, JsonValue)> = Vec::new();
        members.push(
            (Field::Code.name().to_owned(), JsonValue::Number(code_to_number(self.code))),
        );
        members.push((Field::Message.name().to_owned(), JsonValue::String(self.message)));
        match self.data {
            Some(data) => {
                members.push((Field::Data.name().to_owned(), data));
            },
            None => {},
        }
        let value = JsonValue::object(members);
        assert(members_view(members@) =~= error_object_json(self@)->Object_0);
        value
    }

    /// The error object that `value` is.
    pub fn from_json(value: JsonValue) -> (decoded: Result<JsonRpcErrorObject, DecodeError>)
        ensures
            match decoded {
                Ok(error) => decode_error_object(value@) == Ok::<ErrorObject, DecodeError>(error@),
                Err(e) => decode_error_object(value@) == Err::<ErrorObject, DecodeError>(e),
            },
    {
        proof {
            lemma_view_unfolds(value);
        }
        let mut members = match value {
            JsonValue::Object(members) => members,
            _ => {
                return Err(DecodeError::NotAnObject);
            },
        };
        let code = match take_field(&mut members, Field::Code) {
            None => {
                return Err(DecodeError::Missing(Field::Code));
            },
            Some(JsonValue::Number(number)) => match number_to_code(number) {
                Some(code) => code,
                None => {
                    return Err(DecodeError::Malformed(Field::Code));
                },
            },
            Some(_) => {
                return Err(DecodeError::Malformed(Field::Code));
            },
        };
        let message = match take_text(&mut members, Field::Message) {
            Ok(text) => text,
            Err(e) => {
                return Err(e);
            },
        };
        let data = take_optional(&mut members, Field::Data);
        Ok(JsonRpcErrorObject { code, message, data })
    }
}

impl JsonRpcResponse {
    /// The response as it goes on the wire.
    pub fn to_json(self) -> (value: JsonValue)
        ensures
            value@ == response_json(self@),
    {
        let mut members: Vec<(String, JsonValue)> = Vec::new();
        members.push((Field::Jsonrpc.name().to_owned(), JsonValue::String(self.jsonrpc)));
        members.push((Field::Result.name().to_owned(), self.result));
        members.push((Field::Id.name().to_owned(), self.id));
        let value = JsonValue::object(members);
        assert(members_view(members@) =~= response_json(self@)->Object_0);
        value
    }

    /// The response that `value` is.
    pub fn from_json(value: JsonValue) -> (decoded: Result<JsonRpcResponse, DecodeError>)
        ensures
            match decoded {
                Ok(response) => decode_response(value@) == Ok::<Response, DecodeError>(response@),
                Err(e) => decode_response(value@) == Err::<Response, DecodeError>(e),
            },
    {
        proof {
            lemma_view_unfolds(value);
        }
        let mut members = match value {
            JsonValue::Object(members) => members,
            _ => {
                return Err(DecodeError::NotAnObject);
            },
        };
        let jsonrpc = match take_text(&mut members, Field::Jsonrpc) {
            Ok(text) => text,
            Err(e) => {
                return Err(e);
            },
        };
        let result = match take_field(&mut members, Field::Result) {
            Some(result) => result,
            None => {
                return Err(DecodeError::Missing(Field::Result));
            },
        };
        let id = match take_field(&mut members, Field::Id) {
            Some(id) => id,
            None => {
                return Err(DecodeError::Missing(Field::Id));
            },
        };
        Ok(JsonRpcResponse { jsonrpc, result, id })
    }
}

impl JsonRpcErrorResponse {
    /// The error response as it goes on the wire.
    pub fn to_json(self) -> (value: JsonValue)
        ensures
            value@ == error_response_json(self@),
    {
        let mut members: Vec<(String, JsonValue)> = Vec::new();
        members.push((Field::Jsonrpc.name().to_owned(), JsonValue::String(self.jsonrpc)));
        members.push((Field::Error.name().to_owned(), self.error.to_json()));
        members.push((Field::Id.name().to_owned(), self.id));
        let value = JsonValue::object(members);
        assert(members_view(members@) =~= error_response_json(self@)->Object_0);
        value
    }

    /// The error response that `value` is.
    pub fn from_json(value: JsonValue) -> (decoded: Result<JsonRpcErrorResponse, DecodeError>)
        ensures
            match decoded {
                Ok(response) => decode_error_response(value@) == Ok::<ErrorResponse, DecodeError>(
                    response@,
                ),
                Err(e) => decode_error_response(value@) == Err::<ErrorResponse, DecodeError>(e),
            },
    {
        proof {
            lemma_view_unfolds(value);
        }
        let mut members = match value {
            JsonValue::Object(members) => members,
            _ => {
                return Err(DecodeError::NotAnObject);
            },
        };
        let jsonrpc = match take_text(&mut members, Field::Jsonrpc) {
            Ok(text) => text,
            Err(e) => {
                return Err(e);
            },
        };
        let error = match take_field(&mut members, Field::Error) {
            Some(error_value) => match JsonRpcErrorObject::from_json(error_value) {
                Ok(error) => error,
                Err(e) => {
                    return Err(e);
                },
            },
            None => {
                return Err(DecodeError::Missing(Field::Error));
            },
        };
        let id = match take_field(&mut members, Field::Id) {
            Some(id) => id,
            None => {
                return Err(DecodeError::Missing(Field::Id));
            },
        };
        Ok(JsonRpcErrorResponse { jsonrpc, error, id })
    }
}

impl JsonRpcRequest {
    /// The request as it goes on the wire.
    pub fn to_json(self) -> (value: JsonValue)
        ensures
            value@ == request_json(self@),
    {
        let mut members: Vec<(String, JsonValue)> = Vec::new();
        members.push((Field::Jsonrpc.name().to_owned(), JsonValue::String(self.jsonrpc)));
        members.push((Field::Method.name().to_owned(), JsonValue::String(self.method)));
        match self.params {
            Some(params) => {
                members.push((Field::Params.name().to_owned(), params));
            },
            None => {},
        }
        match self.id {
            Some(id) => {
                members.push((Field::Id.name().to_owned(), id));
            },
            None => {},
        }
        let value = JsonValue::object(members);
        assert(members_view(members@) =~= request_json(self@)->Object_0);
        value
    }

    /// The request that `value` is.
    pub fn from_json(value: JsonValue) -> (decoded: Result<JsonRpcRequest, DecodeError>)
        ensures
            match decoded {
                Ok(request) => decode_request(value@) == Ok::<Request, DecodeError>(request@),
                Err(e) => decode_request(value@) == Err::<Request, DecodeError>(e),
            },
    {
        proof {
            lemma_view_unfolds(value);
        }
        let mut members = match value {
            JsonValue::Object(members) => members,
            _ => {
                return Err(DecodeError::NotAnObject);
            },
        };
        let jsonrpc = match take_text(&mut members, Field::Jsonrpc) {
            Ok(text) => text,
            Err(e) => {
                return Err(e);
            },
        };
        let method = match take_text(&mut members, Field::Method) {
            Ok(text) => text,
            Err(e) => {
                return Err(e);
            },
        };
        let params = take_optional(&mut members, Field::Params);
        let id = take_field(&mut members, Field::Id);
        Ok(JsonRpcRequest { jsonrpc, method, params, id })
    }
}

impl JsonRpcMessage {
    /// The message as it goes on the wire.
    pub fn to_json(self) -> (value: JsonValue)
        ensures
            value@ == message_json(self@),
    {
        match self {
            JsonRpcMessage::Request(request) => request.to_json(),
            JsonRpcMessage::Response(response) => response.to_json(),
            JsonRpcMessage::Error(response) => response.to_json(),
        }
    }

    /// The message that `value` is.
    pub fn from_json(value: JsonValue) -> (decoded: Result<JsonRpcMessage, DecodeError>)
        ensures
            match decoded {
                Ok(message) => decode_message(value@) == Ok::<Message, DecodeError>(message@),
                Err(e) => decode_message(value@) == Err::<Message, DecodeError>(e),
            },
    {
        let second = value.duplicate();
        match JsonRpcRequest::from_json(value) {
            Ok(request) => Ok(JsonRpcMessage::Request(request)),
            Err(_) => {
                let third = second.duplicate();
                match JsonRpcResponse::from_json(second) {
                    Ok(response) => Ok(JsonRpcMessage::Response(response)),
                    Err(_) => match JsonRpcErrorResponse::from_json(third) {
                        Ok(response) => Ok(JsonRpcMessage::Error(response)),
                        Err(_) => Err(DecodeError::NoMessage),
                    },
                }
            },
        }
    }
}

/// Writes an answer as it goes on the wire.
pub fn encode_answer(answer: Result<JsonRpcResponse, JsonRpcErrorResponse>) -> (value: JsonValue)
    ensures
        value@ == answer_json(
            match answer {
                Ok(response) => Ok(response@),
                Err(response) => Err(response@),
            },
        ),
{
    match answer {
        Ok(response) => response.to_json(),
        Err(response) => response.to_json(),
    }
}

/// An error code that is written as a number is read back as itself.
pub proof fn lemma_code_round_trip(code: i32)
    ensures
        number_code(code_number(code)) == Some(code),
{
}

/// A response that is written and read back is the response it was.
pub proof fn lemma_response_round_trip(response: Response)
    ensures
        decode_response(response_json(response)) == Ok::<Response, DecodeError>(response),
{
    reveal_with_fuel(find_member, 4);
    lemma_field_names_differ(Field::Jsonrpc, Field::Result);
    lemma_field_names_differ(Field::Jsonrpc, Field::Id);
    lemma_field_names_differ(Field::Result, Field::Id);
}

/// An error object that is written and read back is the error object it
/// was, but that data which is `null` is read back as no data.
pub proof fn lemma_error_object_round_trip(error: ErrorObject)
    ensures
        decode_error_object(error_object_json(error)) == Ok::<ErrorObject, DecodeError>(
            ErrorObject {
                data: if error.data == Some(Json::Null) {
                    None
                } else {
                    error.data
                },
                ..error
            },
        ),
{
    reveal_with_fuel(find_member, 4);
    lemma_field_names_differ(Field::Code, Field::Message);
    lemma_field_names_differ(Field::Code, Field::Data);
    lemma_field_names_differ(Field::Message, Field::Data);
    lemma_code_round_trip(error.code);
}

/// An error response that is written and read back is the error response it
/// was, but that data which is `null` is read back as no data.
pub proof fn lemma_error_response_round_trip(response: ErrorResponse)
    ensures
        decode_error_response(error_response_json(response)) == Ok::<ErrorResponse, DecodeError>(
            ErrorResponse {
                error: ErrorObject {
                    data: if response.error.data == Some(Json::Null) {
                        None
                    } else {
                        response.error.data
                    },
                    ..response.error
                },
                ..response
            },
        ),
{
    reveal_with_fuel(find_member, 4);
    lemma_field_names_differ(Field::Jsonrpc, Field::Error);
    lemma_field_names_differ(Field::Jsonrpc, Field::Id);
    lemma_field_names_differ(Field::Error, Field::Id);
    lemma_error_object_round_trip(response.error);
}

/// Whatever answer is written, reading it back gives an answer of the same
/// kind with the identifier it had: `null`, a number or a string, as it was.
pub proof fn lemma_answer_keeps_id(answer: Result<Response, ErrorResponse>)
    ensures
        match answer {
            Ok(response) => decode_response(answer_json(answer)) matches Ok(read) && read.id
                == response.id,
            Err(response) => decode_error_response(answer_json(answer)) matches Ok(read)
                && read.id == response.id,
        },
{
    match answer {
        Ok(response) => lemma_response_round_trip(response),
        Err(response) => lemma_error_response_round_trip(response),
    }
}

/// A request that is written and read back is the request it was, but that
/// parameters which are `null` are read back as no parameters.
pub proof fn lemma_request_round_trip(request: Request)
    ensures
        decode_request(request_json(request)) == Ok::<Request, DecodeError>(
            Request {
                params: if request.params == Some(Json::Null) {
                    None
                } else {
                    request.params
                },
                ..request
            },
        ),
{
    reveal_with_fuel(find_member, 5);
    lemma_field_names_differ(Field::Jsonrpc, Field::Method);
    lemma_field_names_differ(Field::Jsonrpc, Field::Params);
    lemma_field_names_differ(Field::Jsonrpc, Field::Id);
    lemma_field_names_differ(Field::Method, Field::Params);
    lemma_field_names_differ(Field::Method, Field::Id);
    lemma_field_names_differ(Field::Params, Field::Id);
}

} // verus!
