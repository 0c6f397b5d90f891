//! The dispatcher: it checks a request, finds the method it names, and says
//! what the answer is, or what has to be done before the answer is known.

use vstd::prelude::*;
use vstd::string::*;
use crate::builtin::{add_result, echo, echo_result, get_server_info, ping, ping_result, server_info, Builtin, Sum};
use crate::clock::unix_timestamp;
use crate::error_code::{ErrorObject, JsonRpcErrorCode, JsonRpcErrorObject};
use crate::json::{option_view, Json, JsonNumber, JsonValue};
use crate::message::{ErrorResponse, JsonRpcErrorResponse, JsonRpcRequest, JsonRpcResponse, Request, Response};
use crate::registry::MethodRegistry;

verus! {

/// What stands behind a method name: a built-in method, or a handler that the
/// application registered. The service does not look inside a handler; it
/// hands it back to be run.
pub enum Method<H> {
    Builtin(Builtin),
    Custom(H),
}

/// Work that the service cannot do itself.
pub enum Work<'a, H> {
    /// Run `handler` on `params`.
    Invoke { handler: &'a H, params: Option<JsonValue> },
    /// Add `left` and `right` in binary floating point.
    Sum { left: JsonNumber, right: JsonNumber },
}

/// The mathematical value of a `Work`.
pub enum WorkToDo<H> {
    Invoke { handler: H, params: Option<Json> },
    Sum { left: JsonNumber, right: JsonNumber },
}

impl<'a, H> View for Work<'a, H> {
    type V = WorkToDo<H>;

    open spec fn view(&self) -> WorkToDo<H> {
        match self {
            Work::Invoke { handler, params } => WorkToDo::Invoke {
                handler: **handler,
                params: option_view(*params),
            },
            Work::Sum { left, right } => WorkToDo::Sum { left: *left, right: *right },
        }
    }
}

/// What became of a request.
pub enum Handled<'a, H> {
    /// The request is dealt with. `Some` holds the answer to send; `None`
    /// says that nothing is to be sent.
    Done(Option<Result<JsonRpcResponse, JsonRpcErrorResponse>>),
    /// `work` has to be done first. Its outcome and `reply_to` then go to
    /// `complete`, which says what to send. Where `reply_to` is `None` the
    /// request was a notification: the work is done and its outcome dropped.
    Pending { work: Work<'a, H>, reply_to: Option<JsonValue> },
}

/// The mathematical value of a `Handled`.
pub enum Handling<H> {
    Done(Option<Result<Response, ErrorResponse>>),
    Pending { work: WorkToDo<H>, reply_to: Option<Json> },
}

/// The mathematical value of an answer, or of none.
pub open spec fn answer_view(answer: Option<Result<JsonRpcResponse, JsonRpcErrorResponse>>) -> Option<
    Result<Response, ErrorResponse>,
> {
    match answer {
        None => None,
        Some(Ok(response)) => Some(Ok(response@)),
        Some(Err(response)) => Some(Err(response@)),
    }
}

/// The mathematical value of what a method handed back.
pub open spec fn outcome_view(outcome: Result<JsonValue, JsonRpcErrorObject>) -> Result<
    Json,
    ErrorObject,
> {
    match outcome {
        Ok(result) => Ok(result@),
        Err(error) => Err(error@),
    }
}

impl<'a, H> View for Handled<'a, H> {
    type V = Handling<H>;

    open spec fn view(&self) -> Handling<H> {
        match self {
            Handled::Done(answer) => Handling::Done(answer_view(*answer)),
            Handled::Pending { work, reply_to } => Handling::Pending {
                work: work@,
                reply_to: option_view(*reply_to),
            },
        }
    }
}

/// The methods of a service to which nothing has been registered.
pub open spec fn builtin_methods<H>() -> Map<Seq<char>, Method<H>> {
    Map::<Seq<char>, Method<H>>::empty().insert(
        Builtin::Echo.spec_name(),
        Method::Builtin(Builtin::Echo),
    ).insert(Builtin::Ping.spec_name(), Method::Builtin(Builtin::Ping)).insert(
        Builtin::Add.spec_name(),
        Method::Builtin(Builtin::Add),
    ).insert(Builtin::GetServerInfo.spec_name(), Method::Builtin(Builtin::GetServerInfo))
}

/// The text that says that `method` is not registered.
pub open spec fn not_found_message(method: Seq<char>) -> Seq<char> {
    "Method '"@ + method + "' not found"@
}

/// The answer that goes out once a method has handed back `outcome`: none for
/// a notification, and for a call the outcome under the call's identifier. An
/// error that the method reports goes out as the method made it.
pub open spec fn answer_for(reply_to: Option<Json>, outcome: Result<Json, ErrorObject>) -> Option<
    Result<Response, ErrorResponse>,
> {
    match reply_to {
        None => None,
        Some(id) => Some(
            match outcome {
                Ok(result) => Ok(Response::new(result, id)),
                Err(error) => Err(ErrorResponse::new(error, id)),
            },
        ),
    }
}

/// The identifier under which an answer goes out.
pub open spec fn answer_id(answer: Result<Response, ErrorResponse>) -> Json {
    match answer {
        Ok(response) => response.id,
        Err(response) => response.id,
    }
}

/// The protocol version that an answer names.
pub open spec fn answer_version(answer: Result<Response, ErrorResponse>) -> Seq<char> {
    match answer {
        Ok(response) => response.jsonrpc,
        Err(response) => response.jsonrpc,
    }
}

/// What a run of a method comes to: what the method handed back, or, where
/// it did not come back at all, an internal error.
pub open spec fn contained_outcome(finished: Option<Result<Json, ErrorObject>>) -> Result<
    Json,
    ErrorObject,
> {
    match finished {
        Some(outcome) => outcome,
        None => Err(ErrorObject::standard(JsonRpcErrorCode::InternalError, None)),
    }
}

/// What a built-in method does with a request at the time `now`.
pub open spec fn handle_builtin<H>(
    method: Builtin,
    params: Option<Json>,
    reply_to: Option<Json>,
    now: i64,
) -> Handling<H> {
    match method {
        Builtin::Echo => Handling::Done(answer_for(reply_to, Ok(echo_result(params)))),
        Builtin::Ping => Handling::Done(answer_for(reply_to, Ok(ping_result(now)))),
        Builtin::GetServerInfo => Handling::Done(answer_for(reply_to, Ok(server_info()))),
        Builtin::Add => match add_result(params) {
            Err(error) => Handling::Done(answer_for(reply_to, Err(error))),
            Ok(Sum::Exact(total)) => Handling::Done(
                answer_for(reply_to, Ok(Json::Number(total))),
            ),
            Ok(Sum::Inexact(left, right)) => if reply_to is None {
                Handling::Done(None)
            } else {
                Handling::Pending { work: WorkToDo::Sum { left, right }, reply_to }
            },
        },
    }
}

/// What a service with the methods `methods` does with `request` at the time
/// `now`:
/// a request whose structure is wrong is answered with `InvalidRequest`,
/// under its identifier or under `null`;
/// a notification is never answered, whether its method is registered or not;
/// a call to a method that is not registered is answered with
/// `MethodNotFound`;
/// everything else goes to the method.
pub open spec fn handle<H>(methods: Map<Seq<char>, Method<H>>, request: Request, now: i64) -> Handling<
    H,
> {
    match request.validation_error() {
        Some(reason) => Handling::Done(
            Some(
                Err(
                    ErrorResponse::custom(
                        JsonRpcErrorCode::InvalidRequest,
                        reason,
                        match request.id {
                            Some(id) => id,
                            None => Json::Null,
                        },
                    ),
                ),
            ),
        ),
        None => if !methods.contains_key(request.method) {
            match request.id {
                None => Handling::Done(None),
                Some(id) => Handling::Done(
                    Some(
                        Err(
                            ErrorResponse::custom(
                                JsonRpcErrorCode::MethodNotFound,
                                not_found_message(request.method),
                                id,
                            ),
                        ),
                    ),
                ),
            }
        } else {
            match methods[request.method] {
                Method::Custom(handler) => Handling::Pending {
                    work: WorkToDo::Invoke { handler, params: request.params },
                    reply_to: request.id,
                },
                Method::Builtin(method) => handle_builtin(
                    method,
                    request.params,
                    request.id,
                    now,
                ),
            }
        },
    }
}

/// A JSON-RPC 2.0 service: a registry of methods and the rules by which a
/// request is answered.
pub struct JsonRpcService<H> {
    methods: MethodRegistry<Method<H>>,
}

impl<H> View for JsonRpcService<H> {
    type V = Map<Seq<char>, Method<H>>;

    closed spec fn view(&self) -> Map<Seq<char>, Method<H>> {
        self.methods@
    }
}

/// Says what to send once a method has handed back `outcome`.
pub fn complete(reply_to: Option<JsonValue>, outcome: Result<JsonValue, JsonRpcErrorObject>) -> (answer:
    Option<Result<JsonRpcResponse, JsonRpcErrorResponse>>)
    ensures
        answer_view(answer) == answer_for(option_view(reply_to), outcome_view(outcome)),
{
    match reply_to {
        None => None,
        Some(id) => Some(
            match outcome {
                Ok(result) => Ok(JsonRpcResponse::new(result, id)),
                Err(error) => Err(JsonRpcErrorResponse::new(error, id)),
            },
        ),
    }
}

/// Says what a run of a method comes to. `finished` is what the method
/// handed back, or `None` where it failed without handing anything back: its
/// failure stays with it and goes out as an internal error.
pub fn contain(finished: Option<Result<JsonValue, JsonRpcErrorObject>>) -> (outcome: Result<
    JsonValue,
    JsonRpcErrorObject,
>)
    ensures
        outcome_view(outcome) == contained_outcome(
            match finished {
                Some(outcome) => Some(outcome_view(outcome)),
                None => None,
            },
        ),
{
    match finished {
        Some(outcome) => outcome,
        None => Err(JsonRpcErrorObject::new(JsonRpcErrorCode::InternalError, None)),
    }
}

impl<H> JsonRpcService<H> {
    /// A service that offers the built-in methods.
    pub fn new() -> (service: Self)
        ensures
            service@ == builtin_methods::<H>(),
    {
        let mut service = JsonRpcService { methods: MethodRegistry::new() };
        service.register_builtin_methods();
        service
    }

    /// Registers the built-in methods, each under its name.
    fn register_builtin_methods(&mut self)
        ensures
            final(self)@ == old(self)@.insert(
                Builtin::Echo.spec_name(),
                Method::Builtin(Builtin::Echo),
            ).insert(Builtin::Ping.spec_name(), Method::Builtin(Builtin::Ping)).insert(
                Builtin::Add.spec_name(),
                Method::Builtin(Builtin::Add),
            ).insert(Builtin::GetServerInfo.spec_name(), Method::Builtin(Builtin::GetServerInfo)),
    {
        self.methods.register(Builtin::Echo.name().to_owned(), Method::Builtin(Builtin::Echo));
        self.methods.register(Builtin::Ping.name().to_owned(), Method::Builtin(Builtin::Ping));
        self.methods.register(Builtin::Add.name().to_owned(), Method::Builtin(Builtin::Add));
        self.methods.register(
            Builtin::GetServerInfo.name().to_owned(),
            Method::Builtin(Builtin::GetServerInfo),
        );
    }

    /// Puts `handler` behind `name`. A handler that stood there before, a
    /// built-in method too, is replaced.
    pub fn register_method(&mut self, name: String, handler: H)
        ensures
            final(self)@ == old(self)@.insert(name@, Method::Custom(handler)),
    {
        self.methods.register(name, Method::Custom(handler));
    }

    /// The names of the methods that are registered, each once, in no
    /// particular order.
    pub fn list_methods(&self) -> (names: Vec<String>)
        ensures
            forall|name: Seq<char>|
                self@.contains_key(name) <==> exists|i: int|
                    0 <= i < names@.len() && #[trigger] names@[i]@ == name,
            forall|i: int, j: int|
                0 <= i < j < names@.len() ==> #[trigger] names@[i]@ != #[trigger] names@[j]@,
    {
        self.methods.list_methods()
    }

    /// Deals with `request` as at the time `now`, in seconds since 1970.
    pub fn handle_request_at(&self, request: JsonRpcRequest, now: i64) -> (handled: Handled<'_, H>)
        ensures
            handled@ == handle(self@, request@, now),
    {
        match request.validate() {
            Err(reason) => {
                let id = match request.id {
                    Some(id) => id,
                    None => JsonValue::Null,
                };
                return Handled::Done(
                    Some(
                        Err(
                            JsonRpcErrorResponse::custom(
                                JsonRpcErrorCode::InvalidRequest,
                                reason,
                                id,
                            ),
                        ),
                    ),
                );
            },
            Ok(_) => {},
        }
        let ghost asked = request@;
        let JsonRpcRequest { jsonrpc: _, method, params, id } = request;
        match self.methods.lookup(method.as_str()) {
            None => match id {
                None => Handled::Done(None),
                Some(id) => {
                    let message = "Method '".to_owned().concat(method.as_str()).concat(
                        "' not found",
                    );
                    Handled::Done(
                        Some(
                            Err(
                                JsonRpcErrorResponse::custom(
                                    JsonRpcErrorCode::MethodNotFound,
                                    message,
                                    id,
                                ),
                            ),
                        ),
                    )
                },
            },
            Some(Method::Custom(handler)) => Handled::Pending {
                work: Work::Invoke { handler, params },
                reply_to: id,
            },
            Some(Method::Builtin(method)) => match method {
                Builtin::Echo => Handled::Done(complete(id, Ok(echo(params)))),
                Builtin::Ping => Handled::Done(complete(id, Ok(ping(now)))),
                Builtin::GetServerInfo => Handled::Done(complete(id, Ok(get_server_info()))),
                Builtin::Add => match crate::builtin::add(params) {
                    Err(error) => Handled::Done(complete(id, Err(error))),
                    Ok(Sum::Exact(total)) => Handled::Done(
                        complete(id, Ok(JsonValue::Number(total))),
                    ),
                    Ok(Sum::Inexact(left, right)) => match id {
                        None => Handled::Done(None),
                        Some(id) => Handled::Pending {
                            work: Work::Sum { left, right },
                            reply_to: Some(id),
                        },
                    },
                },
            },
        }
    }

    /// Deals with `request` as at the time that the clock tells.
    pub fn handle_request(&self, request: JsonRpcRequest) -> (handled: Handled<'_, H>)
        ensures
            exists|now: i64| handled@ == #[trigger] handle(self@, request@, now),
    {
        let now = unix_timestamp();
        self.handle_request_at(request, now)
    }
}

impl<H> Default for JsonRpcService<H> {
    fn default() -> (service: Self)
        ensures
            service@ == builtin_methods::<H>(),
    {
        JsonRpcService::new()
    }
}

/// A request without identifier is a notification, and a notification is
/// never answered: if it is in order, the service has no answer to it,
/// whether its method is registered or not; and where work is pending for
/// it, that work has nowhere to reply to, so that nothing is sent whatever
/// the outcome of the work is.
pub proof fn lemma_notification_is_never_answered<H>(
    methods: Map<Seq<char>, Method<H>>,
    request: Request,
    now: i64,
    outcome: Result<Json, ErrorObject>,
)
    requires
        request.id is None,
    ensures
        request.is_notification(),
        request.is_valid() ==> match handle(methods, request, now) {
            Handling::Done(answer) => answer is None,
            Handling::Pending { work, reply_to } => reply_to is None,
        },
        answer_for(None, outcome) is None,
{
}

/// A call to a method that is not registered is answered with
/// `MethodNotFound`, under the identifier of the call.
pub proof fn lemma_unknown_method_is_reported<H>(
    methods: Map<Seq<char>, Method<H>>,
    request: Request,
    now: i64,
)
    requires
        request.is_valid(),
        request.id is Some,
        !methods.contains_key(request.method),
    ensures
        handle(methods, request, now) == Handling::<H>::Done(
            Some(
                Err(
                    ErrorResponse::custom(
                        JsonRpcErrorCode::MethodNotFound,
                        not_found_message(request.method),
                        request.id->0,
                    ),
                ),
            ),
        ),
        ErrorResponse::custom(
            JsonRpcErrorCode::MethodNotFound,
            not_found_message(request.method),
            request.id->0,
        ).error.code == -32601,
        ErrorResponse::custom(
            JsonRpcErrorCode::MethodNotFound,
            not_found_message(request.method),
            request.id->0,
        ).id == request.id->0,
{
}

/// A request whose structure is wrong is answered with `InvalidRequest`,
/// under its identifier or, where it has none, under `null`: the structure
/// is looked at before anything else.
pub proof fn lemma_invalid_request_is_rejected<H>(
    methods: Map<Seq<char>, Method<H>>,
    request: Request,
    now: i64,
)
    requires
        !request.is_valid(),
    ensures
        handle(methods, request, now) matches Handling::Done(Some(Err(response)))
            && response.error.code == -32600 && response.id == (match request.id {
            Some(id) => id,
            None => Json::Null,
        }),
{
}

/// Registering twice under one name leaves the second handler in place and
/// nothing of the first: the methods are those that the second registration
/// alone would have left.
pub proof fn lemma_last_registration_wins<H>(
    methods: Map<Seq<char>, Method<H>>,
    name: Seq<char>,
    first: H,
    second: H,
)
    ensures
        methods.insert(name, Method::Custom(first)).insert(name, Method::Custom(second))
            == methods.insert(name, Method::Custom(second)),
        methods.insert(name, Method::Custom(first)).insert(name, Method::Custom(second))[name]
            == Method::Custom(second),
{
}

/// A call is always answered, in version 2.0 and under its own identifier:
/// at once, or, where work is pending, whatever the outcome of the work is.
pub proof fn lemma_call_is_answered<H>(
    methods: Map<Seq<char>, Method<H>>,
    request: Request,
    now: i64,
    outcome: Result<Json, ErrorObject>,
)
    requires
        request.id is Some,
    ensures
        match handle(methods, request, now) {
            Handling::Done(answer) => {
                &&& answer matches Some(sent)
                &&& answer_id(sent) == request.id->0
                &&& answer_version(sent) == "2.0"@
            },
            Handling::Pending { work, reply_to } => {
                &&& reply_to == request.id
                &&& answer_for(reply_to, outcome) matches Some(sent)
                &&& answer_id(sent) == request.id->0
                &&& answer_version(sent) == "2.0"@
            },
        },
{
}

/// Nothing is ever taken out of a service: a method that is registered
/// stays registered, under every registration that follows.
pub proof fn lemma_registration_keeps_methods<H>(
    methods: Map<Seq<char>, Method<H>>,
    name: Seq<char>,
    handler: H,
    other: Seq<char>,
)
    requires
        methods.contains_key(other),
    ensures
        methods.insert(name, Method::Custom(handler)).contains_key(other),
        other != name ==> methods.insert(name, Method::Custom(handler))[other] == methods[other],
{
}

/// What an error that a method reports looks like in the answer: it is the
/// method's own, code, text and data.
pub proof fn lemma_method_error_passes_through(id: Json, error: ErrorObject)
    ensures
        answer_for(Some(id), Err(error)) == Some(
            Err::<Response, ErrorResponse>(ErrorResponse { jsonrpc: "2.0"@, error, id }),
        ),
{
}

} // verus!
