//! One connection: what to do about each frame that comes in, and when the
//! connection is over.
//!
//! The connection is read and written elsewhere. For each frame that was
//! read, `handle_frame` says what has to happen; where work is pending, its
//! outcome goes to `reply`; and `ConnectionState` follows whether the
//! connection is still open.

use vstd::prelude::*;
use vstd::string::*;
use crate::clock::unix_timestamp;
use crate::error_code::{ErrorObject, JsonRpcErrorCode, JsonRpcErrorObject};
use crate::json::{option_view, Json, JsonValue};
use crate::message::{ErrorResponse, JsonRpcErrorResponse, JsonRpcRequest};
use crate::service::{answer_for, complete, handle, outcome_view, Handled, Handling, JsonRpcService, Method, Work, WorkToDo};
use crate::wire::{answer_json, decode_request, encode_answer, error_response_json};

verus! {

/// The internal error as text, for when an answer cannot be written.
pub const INTERNAL_ERROR_TEXT: &'static str =
    "{\"jsonrpc\":\"2.0\",\"error\":{\"code\":-32603,\"message\":\"Internal error\"},\"id\":null}";

/// A frame that came in, or the news that none will.
pub enum Frame {
    /// A text frame: what it holds as JSON, or, where it does not hold JSON,
    /// what the reader of the text had to say about it.
    Text(Result<JsonValue, String>),
    /// A binary frame.
    Binary,
    /// A ping with its payload.
    Ping(Vec<u8>),
    /// A pong.
    Pong,
    /// The peer closes the connection.
    Close,
    /// The transport failed, or there is nothing more to read.
    Failed,
}

/// The mathematical value of a `Frame`.
pub enum FrameView {
    Text(Result<Json, Seq<char>>),
    Binary,
    Ping(Seq<u8>),
    Pong,
    Close,
    Failed,
}

impl View for Frame {
    type V = FrameView;

    open spec fn view(&self) -> FrameView {
        match self {
            Frame::Text(parsed) => FrameView::Text(parsed_view(*parsed)),
            Frame::Binary => FrameView::Binary,
            Frame::Ping(payload) => FrameView::Ping(payload@),
            Frame::Pong => FrameView::Pong,
            Frame::Close => FrameView::Close,
            Frame::Failed => FrameView::Failed,
        }
    }
}

/// A frame to send.
pub enum Outgoing {
    /// A text frame that holds this JSON value.
    Text(JsonValue),
    /// A pong with this payload.
    Pong(Vec<u8>),
}

/// The mathematical value of an `Outgoing`.
pub enum OutgoingView {
    Text(Json),
    Pong(Seq<u8>),
}

impl View for Outgoing {
    type V = OutgoingView;

    open spec fn view(&self) -> OutgoingView {
        match self {
            Outgoing::Text(value) => OutgoingView::Text(value@),
            Outgoing::Pong(payload) => OutgoingView::Pong(payload@),
        }
    }
}

/// What has to happen next on a connection.
pub enum Action<'a, H> {
    /// Nothing: read the next frame.
    Continue,
    /// Send the frame. Where that fails, the connection is over.
    Send(Outgoing),
    /// Send the frame, once; the connection is over whether that went well or not.
    SendAndClose(Outgoing),
    /// The connection is over.
    Close,
    /// Do the work, then hand its outcome and `reply_to` to `reply`.
    Pending { work: Work<'a, H>, reply_to: Option<JsonValue> },
}

/// The mathematical value of an `Action`.
pub enum ActionView<H> {
    Continue,
    Send(OutgoingView),
    SendAndClose(OutgoingView),
    Close,
    Pending { work: WorkToDo<H>, reply_to: Option<Json> },
}

impl<'a, H> View for Action<'a, H> {
    type V = ActionView<H>;

    open spec fn view(&self) -> ActionView<H> {
        match self {
            Action::Continue => ActionView::Continue,
            Action::Send(frame) => ActionView::Send(frame@),
            Action::SendAndClose(frame) => ActionView::SendAndClose(frame@),
            Action::Close => ActionView::Close,
            Action::Pending { work, reply_to } => ActionView::Pending {
                work: work@,
                reply_to: option_view(*reply_to),
            },
        }
    }
}

/// Whether a connection is still in use.
#[derive(Debug, Clone, Copy, PartialEq, Eq, Structural)]
pub enum ConnectionState {
    Open,
    Closed,
}

/// The mathematical value of what was read from a text frame.
pub open spec fn parsed_view(parsed: Result<JsonValue, String>) -> Result<Json, Seq<char>> {
    match parsed {
        Ok(value) => Ok(value@),
        Err(complaint) => Err(complaint@),
    }
}

/// The answer that tells the peer that what it sent could not be read. It
/// goes out under the identifier `null`.
pub open spec fn parse_error(message: Seq<char>) -> Json {
    error_response_json(ErrorResponse::custom(JsonRpcErrorCode::ParseError, message, Json::Null))
}

/// The answer that tells the peer that the service failed.
pub open spec fn internal_error() -> Json {
    error_response_json(ErrorResponse::from_code(JsonRpcErrorCode::InternalError, Json::Null))
}

/// What to do once pending work has handed back `outcome`.
pub open spec fn reply_action<H>(reply_to: Option<Json>, outcome: Result<Json, ErrorObject>) -> ActionView<
    H,
> {
    match answer_for(reply_to, outcome) {
        None => ActionView::Continue,
        Some(answer) => ActionView::Send(OutgoingView::Text(answer_json(answer))),
    }
}

/// What to do about the content of a text frame at the time `now`. Text that
/// is not JSON, and JSON that is not a request, is answered with a parse
/// error, and the connection goes on. A request goes to the service, and its
/// answer, if it has one, is sent.
pub open spec fn process<H>(
    methods: Map<Seq<char>, Method<H>>,
    parsed: Result<Json, Seq<char>>,
    now: i64,
) -> ActionView<H> {
    match parsed {
        Err(complaint) => ActionView::Send(
            OutgoingView::Text(parse_error("Invalid JSON: "@ + complaint)),
        ),
        Ok(value) => match decode_request(value) {
            Err(e) => ActionView::Send(
                OutgoingView::Text(parse_error("Invalid JSON: "@ + e.spec_describe())),
            ),
            Ok(request) => match handle(methods, request, now) {
                Handling::Done(None) => ActionView::Continue,
                Handling::Done(Some(answer)) => ActionView::Send(
                    OutgoingView::Text(answer_json(answer)),
                ),
                Handling::Pending { work, reply_to } => ActionView::Pending { work, reply_to },
            },
        },
    }
}

/// What to do about a frame at the time `now`. A binary frame is answered
/// with one parse error and ends the connection. A ping is answered with a
/// pong of the same payload. A pong is passed over. A close frame and a
/// failure of the transport end the connection.
pub open spec fn frame_action<H>(
    methods: Map<Seq<char>, Method<H>>,
    frame: FrameView,
    now: i64,
) -> ActionView<H> {
    match frame {
        FrameView::Text(parsed) => process(methods, parsed, now),
        FrameView::Binary => ActionView::SendAndClose(
            OutgoingView::Text(parse_error("Binary messages not supported"@)),
        ),
        FrameView::Ping(payload) => ActionView::Send(OutgoingView::Pong(payload)),
        FrameView::Pong => ActionView::Continue,
        FrameView::Close => ActionView::Close,
        FrameView::Failed => ActionView::Close,
    }
}

impl ConnectionState {
    /// The state of a connection in the state `self` once `action` was decided on.
    pub open spec fn spec_after<H>(self, action: ActionView<H>) -> ConnectionState {
        match self {
            ConnectionState::Closed => ConnectionState::Closed,
            ConnectionState::Open => match action {
                ActionView::SendAndClose(_) => ConnectionState::Closed,
                ActionView::Close => ConnectionState::Closed,
                _ => ConnectionState::Open,
            },
        }
    }

    /// The state of a connection in the state `self` once a frame was sent,
    /// or was not.
    pub open spec fn spec_after_send(self, delivered: bool) -> ConnectionState {
        if self == ConnectionState::Open && delivered {
            ConnectionState::Open
        } else {
            ConnectionState::Closed
        }
    }

    /// The state once `action` was decided on: closing actions close, and a
    /// closed connection stays closed.
    pub fn after<H>(self, action: &Action<'_, H>) -> (next: ConnectionState)
        ensures
            next == self.spec_after(action@),
    {
        match self {
            ConnectionState::Closed => ConnectionState::Closed,
            ConnectionState::Open => match action {
                Action::SendAndClose(_) => ConnectionState::Closed,
                Action::Close => ConnectionState::Closed,
                _ => ConnectionState::Open,
            },
        }
    }

    /// The state once the frame of a `Send` was sent (`delivered`) or could
    /// not be: a frame that cannot be sent ends the connection.
    pub fn after_send(self, delivered: bool) -> (next: ConnectionState)
        ensures
            next == self.spec_after_send(delivered),
    {
        match self {
            ConnectionState::Open => if delivered {
                ConnectionState::Open
            } else {
                ConnectionState::Closed
            },
            ConnectionState::Closed => ConnectionState::Closed,
        }
    }
}

/// The answer that tells the peer that what it sent could not be read.
pub fn create_parse_error(message: String) -> (value: JsonValue)
    ensures
        value@ == parse_error(message@),
{
    JsonRpcErrorResponse::custom(JsonRpcErrorCode::ParseError, message, JsonValue::Null).to_json()
}

/// The answer that tells the peer that the service failed.
pub fn create_internal_error() -> (value: JsonValue)
    ensures
        value@ == internal_error(),
{
    JsonRpcErrorResponse::from_code(JsonRpcErrorCode::InternalError, JsonValue::Null).to_json()
}

/// The text to put into a text frame: `written`, or, where the answer could
/// not be written, the text of an internal error, so that the peer gets an
/// answer either way.
pub fn frame_text(written: Option<String>) -> (text: String)
    ensures
        text@ == match written {
            Some(text) => text@,
            None => INTERNAL_ERROR_TEXT@,
        },
{
    match written {
        Some(text) => text,
        None => INTERNAL_ERROR_TEXT.to_owned(),
    }
}

/// Says what to do once pending work has handed back `outcome`: send the
/// answer, or, for a notification, nothing.
pub fn reply<'a, H>(reply_to: Option<JsonValue>, outcome: Result<JsonValue, JsonRpcErrorObject>) -> (action:
    Action<'a, H>)
    ensures
        action@ == reply_action::<H>(option_view(reply_to), outcome_view(outcome)),
{
    match complete(reply_to, outcome) {
        None => Action::Continue,
        Some(answer) => Action::Send(Outgoing::Text(encode_answer(answer))),
    }
}

/// Says what to do about the content of a text frame, as at the time `now`.
pub fn process_message_at<'a, H>(
    service: &'a JsonRpcService<H>,
    parsed: Result<JsonValue, String>,
    now: i64,
) -> (action: Action<'a, H>)
    ensures
        action@ == process(service@, parsed_view(parsed), now),
{
    let value = match parsed {
        Ok(value) => value,
        Err(complaint) => {
            let message = "Invalid JSON: ".to_owned().concat(complaint.as_str());
            return Action::Send(Outgoing::Text(create_parse_error(message)));
        },
    };
    let request = match JsonRpcRequest::from_json(value) {
        Ok(request) => request,
        Err(e) => {
            let message = "Invalid JSON: ".to_owned().concat(e.describe().as_str());
            return Action::Send(Outgoing::Text(create_parse_error(message)));
        },
    };
    match service.handle_request_at(request, now) {
        Handled::Done(None) => Action::Continue,
        Handled::Done(Some(answer)) => Action::Send(Outgoing::Text(encode_answer(answer))),
        Handled::Pending { work, reply_to } => Action::Pending { work, reply_to },
    }
}

/// Says what to do about the content of a text frame, as at the time that
/// the clock tells.
pub fn process_message<'a, H>(service: &'a JsonRpcService<H>, parsed: Result<JsonValue, String>) -> (action:
    Action<'a, H>)
    ensures
        exists|now: i64| action@ == #[trigger] process(service@, parsed_view(parsed), now),
{
    let now = unix_timestamp();
    process_message_at(service, parsed, now)
}

/// Says what to do about a frame, as at the time `now`.
pub fn handle_frame_at<'a, H>(service: &'a JsonRpcService<H>, frame: Frame, now: i64) -> (action:
    Action<'a, H>)
    ensures
        action@ == frame_action(service@, frame@, now),
{
    match frame {
        Frame::Text(parsed) => process_message_at(service, parsed, now),
        Frame::Binary => Action::SendAndClose(
            Outgoing::Text(create_parse_error("Binary messages not supported".to_owned())),
        ),
        Frame::Ping(payload) => Action::Send(Outgoing::Pong(payload)),
        Frame::Pong => Action::Continue,
        Frame::Close => Action::Close,
        Frame::Failed => Action::Close,
    }
}

/// Says what to do about a frame, as at the time that the clock tells.
pub fn handle_frame<'a, H>(service: &'a JsonRpcService<H>, frame: Frame) -> (action: Action<'a, H>)
    ensures
        exists|now: i64| action@ == #[trigger] frame_action(service@, frame@, now),
{
    let now = unix_timestamp();
    handle_frame_at(service, frame, now)
}

/// A connection that is closed stays closed.
pub proof fn lemma_closed_stays_closed<H>(action: ActionView<H>, delivered: bool)
    ensures
        ConnectionState::Closed.spec_after(action) == ConnectionState::Closed,
        ConnectionState::Closed.spec_after_send(delivered) == ConnectionState::Closed,
{
}

/// A text frame never ends the connection by itself, whatever it holds.
pub proof fn lemma_text_keeps_open<H>(
    methods: Map<Seq<char>, Method<H>>,
    parsed: Result<Json, Seq<char>>,
    now: i64,
)
    ensures
        ConnectionState::Open.spec_after(process(methods, parsed, now)) == ConnectionState::Open,
{
}

/// Text that is not JSON is answered with a parse error under the
/// identifier `null`.
pub proof fn lemma_bad_text_is_reported<H>(
    methods: Map<Seq<char>, Method<H>>,
    complaint: Seq<char>,
    now: i64,
)
    ensures
        process(methods, Err(complaint), now) == ActionView::<H>::Send(
            OutgoingView::Text(
                error_response_json(
                    ErrorResponse {
                        jsonrpc: "2.0"@,
                        error: ErrorObject {
                            code: -32700i32,
                            message: "Invalid JSON: "@ + complaint,
                            data: None,
                        },
                        id: Json::Null,
                    },
                ),
            ),
        ),
{
}

} // verus!
