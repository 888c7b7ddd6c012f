//! Defines JSON-RPC structures and processing.
use serde_json::{Map as Fields, Number, Value};
use std::collections::HashMap;
use vstd::hash_map::StringHashMap;
use vstd::prelude::*;

use crate::json;
use crate::json::{Json, JsonNumber};
use crate::text;

verus! {

/// The minimum value of a predefined error code.
pub const PREDEFINED_ERROR_MIN_CODE: i64 = -32768;

/// A code value indicating a parse error.
pub const PARSE_ERROR_CODE: i64 = -32700;

/// A code value indicating an invalid request error.
pub const INVALID_REQUEST_CODE: i64 = -32600;

/// A code value indicating a method not found error.
pub const METHOD_NOT_FOUND_CODE: i64 = -32601;

/// A code value indicating an invalid params error.
pub const INVALID_PARAMS_CODE: i64 = -32602;

/// A code value indicating an internal error.
pub const INTERNAL_ERROR_CODE: i64 = -32603;

/// The minimum value of a server error code.
pub const SERVER_ERROR_MIN_CODE: i64 = -32099;

/// The maximum value of a predefined error code.
pub const PREDEFINED_ERROR_MAX_CODE: i64 = -32000;

/// The maximum value of a server error code.
pub const SERVER_ERROR_MAX_CODE: i64 = PREDEFINED_ERROR_MAX_CODE;

/// A code value indicating that a request came in a state that does not allow it.
pub const INVALID_STATE_CODE: i64 = -127;

/// The message of a method not found error.
pub const METHOD_NOT_FOUND_MESSAGE: &'static str = "Method not found";

/// The message of an invalid state error.
pub const INVALID_STATE_MESSAGE: &'static str = "Invalid state";

/// The message of an invalid params error.
pub const INVALID_PARAMS_MESSAGE: &'static str = "Invalid method parameter(s)";

/// An Object or Array value that holds the parameters of a JSON-RPC method.
#[derive(Debug, PartialEq)]
pub enum Params {
    /// No parameters.
    Absent,
    /// An array of parameters.
    Array(Vec<Value>),
    /// A map of parameters.
    Object(Fields<String, Value>),
}

/// What [`Params`] hold.
pub enum ParamsView {
    /// No parameters.
    Absent,
    /// An array of parameters.
    Array(Seq<Json>),
    /// A map of parameters.
    Object(Map<Seq<char>, Json>),
}

impl View for Params {
    type V = ParamsView;

    open spec fn view(&self) -> ParamsView {
        match self {
            Params::Absent => ParamsView::Absent,
            Params::Array(values) => ParamsView::Array(json::jsons_of(values@)),
            Params::Object(fields) => ParamsView::Object(json::fields_of(*fields)),
        }
    }
}

impl ParamsView {
    /// The parameters that the JSON value `value` stands for.
    ///
    /// A value that is neither an array nor an object nor `null` is the one element of an array.
    pub open spec fn of(value: Json) -> Self {
        match value {
            Json::Null => ParamsView::Absent,
            Json::Array(values) => ParamsView::Array(values),
            Json::Object(fields) => ParamsView::Object(fields),
            _ => ParamsView::Array(seq![value]),
        }
    }

    /// The JSON value that stands for `self`.
    pub open spec fn value(self) -> Json {
        match self {
            ParamsView::Absent => Json::Null,
            ParamsView::Array(values) => Json::Array(values),
            ParamsView::Object(fields) => Json::Object(fields),
        }
    }
}

impl Clone for Params {
    fn clone(&self) -> (clone: Self)
        ensures
            clone@ == self@,
    {
        match self {
            Params::Absent => Params::Absent,
            Params::Array(values) => {
                let mut clones: Vec<Value> = Vec::new();
                let mut index: usize = 0;
                while index < values.len()
                    invariant
                        index <= values@.len(),
                        clones@ == values@.take(index as int),
                    decreases values@.len() - index,
                {
                    clones.push(json::clone_value(&values[index]));
                    index += 1;
                    assert(clones@ =~= values@.take(index as int));
                }
                assert(clones@ =~= values@);
                Params::Array(clones)
            },
            Params::Object(fields) => Params::Object(json::clone_fields(fields)),
        }
    }
}

impl From<Value> for Params {
    fn from(value: Value) -> (params: Self)
        ensures
            params@ == ParamsView::of(json::json_of(value)),
            match json::json_of(value) {
                Json::Null => params == Params::Absent,
                Json::Array(jsons) => params matches Params::Array(values) && json::jsons_of(values@)
                    == jsons,
                Json::Object(held) => params matches Params::Object(fields) && json::fields_of(
                    fields,
                ) == held,
                _ => params matches Params::Array(values) && values@ == seq![value],
            },
    {
        match json::open_value(value) {
            json::Opened::Null => Params::Absent,
            json::Opened::Bool(value) | json::Opened::Number(value) | json::Opened::String(
                value,
            ) => {
                let params = Params::Array(vec![value]);
                assert(params@->Array_0 =~= seq![json::json_of(value)]);
                params
            },
            json::Opened::Array(values) => Params::Array(values),
            json::Opened::Object(fields) => Params::Object(fields),
        }
    }
}

impl vstd::std_specs::convert::FromSpecImpl<Value> for Params {
    open spec fn obeys_from_spec() -> bool {
        false
    }

    open spec fn from_spec(value: Value) -> Self {
        arbitrary()
    }
}

impl From<Params> for Value {
    fn from(params: Params) -> (value: Self)
        ensures
            json::json_of(value) == params@.value(),
            json::json_of(value) == match params {
                Params::Absent => Json::Null,
                Params::Array(values) => Json::Array(json::jsons_of(values@)),
                Params::Object(fields) => Json::Object(json::fields_of(fields)),
            },
    {
        match params {
            Params::Absent => json::null_value(),
            Params::Array(values) => json::array_value(values),
            Params::Object(fields) => json::object_value(fields),
        }
    }
}

impl vstd::std_specs::convert::FromSpecImpl<Params> for Value {
    open spec fn obeys_from_spec() -> bool {
        false
    }

    open spec fn from_spec(params: Params) -> Self {
        arbitrary()
    }
}

/// The identifier of a JSON-RPC Request.
///
/// MUST contain a String, Number, or NULL value.
#[derive(Debug, PartialEq)]
pub enum Id {
    /// A null id.
    Null,
    /// A numeric id.
    Num(Number),
    /// A string id.
    Str(String),
}

/// What an [`Id`] holds.
pub enum IdView {
    /// A null id.
    Null,
    /// A numeric id.
    Num(JsonNumber),
    /// A string id.
    Str(Seq<char>),
}

impl View for Id {
    type V = IdView;

    open spec fn view(&self) -> IdView {
        match self {
            Id::Null => IdView::Null,
            Id::Num(number) => IdView::Num(json::number_of(*number)),
            Id::Str(string) => IdView::Str(string@),
        }
    }
}

impl IdView {
    /// The id of number `number`.
    pub open spec fn of(number: u64) -> Self {
        IdView::Num(JsonNumber::Integer(number as int))
    }
}

impl From<u64> for Id {
    fn from(num_id: u64) -> (id: Self)
        ensures
            id@ == IdView::of(num_id),
            id matches Id::Num(number) && json::number_of(number) == JsonNumber::Integer(
                num_id as int,
            ),
    {
        Id::Num(json::number_from_u64(num_id))
    }
}

impl vstd::std_specs::convert::FromSpecImpl<u64> for Id {
    open spec fn obeys_from_spec() -> bool {
        false
    }

    open spec fn from_spec(num_id: u64) -> Self {
        arbitrary()
    }
}

/// An object returned by a server to indicate an error was encountered.
#[derive(Debug, PartialEq)]
pub struct ErrorObject {
    /// Indicates the error type that occurred.
    pub code: i64,
    /// Provides a short description of the error.
    pub message: String,
    /// Contains additional information about the error.
    pub data: Option<Value>,
}

/// What an [`ErrorObject`] holds.
pub struct ErrorView {
    /// Indicates the error type that occurred.
    pub code: i64,
    /// Provides a short description of the error.
    pub message: Seq<char>,
    /// Contains additional information about the error.
    pub data: Option<Json>,
}

/// What an optional value holds.
pub open spec fn optional_json(value: Option<Value>) -> Option<Json> {
    match value {
        Some(value) => Some(json::json_of(value)),
        None => None,
    }
}

impl View for ErrorObject {
    type V = ErrorView;

    open spec fn view(&self) -> ErrorView {
        ErrorView { code: self.code, message: self.message@, data: optional_json(self.data) }
    }
}

impl Clone for ErrorObject {
    fn clone(&self) -> (clone: Self)
        ensures
            clone@ == self@,
    {
        ErrorObject {
            code: self.code,
            message: self.message.clone(),
            data: match &self.data {
                Some(data) => Some(json::clone_value(data)),
                None => None,
            },
        }
    }
}

/// The outcome contained in a JSON-RPC Response.
#[derive(Debug, PartialEq)]
pub enum Outcome {
    /// A successful outcome.
    Result(Value),
    /// An error.
    Error(ErrorObject),
}

/// What an [`Outcome`] holds.
pub enum OutcomeView {
    /// A successful outcome.
    Result(Json),
    /// An error.
    Error(ErrorView),
}

impl View for Outcome {
    type V = OutcomeView;

    open spec fn view(&self) -> OutcomeView {
        match self {
            Outcome::Result(value) => OutcomeView::Result(json::json_of(*value)),
            Outcome::Error(error) => OutcomeView::Error(error@),
        }
    }
}

impl OutcomeView {
    /// The outcome of a request for a method that no handler is known for.
    pub open spec fn unknown_request() -> Self {
        OutcomeView::Error(
            ErrorView {
                code: METHOD_NOT_FOUND_CODE,
                message: METHOD_NOT_FOUND_MESSAGE@,
                data: None,
            },
        )
    }

    /// The outcome of a request that the state does not allow.
    pub open spec fn invalid_state() -> Self {
        OutcomeView::Error(
            ErrorView { code: INVALID_STATE_CODE, message: INVALID_STATE_MESSAGE@, data: None },
        )
    }

    /// The outcome of a request whose parameters are wrong, as `cause` says.
    pub open spec fn invalid_params(cause: Seq<char>) -> Self {
        OutcomeView::Error(
            ErrorView {
                code: INVALID_PARAMS_CODE,
                message: INVALID_PARAMS_MESSAGE@,
                data: Some(Json::String(cause)),
            },
        )
    }
}

impl Outcome {
    /// Returns an [`Outcome`] that is a method not found error.
    pub fn unknown_request() -> (outcome: Self)
        ensures
            outcome@ == OutcomeView::unknown_request(),
    {
        Outcome::Error(
            ErrorObject {
                code: METHOD_NOT_FOUND_CODE,
                message: METHOD_NOT_FOUND_MESSAGE.to_owned(),
                data: None,
            },
        )
    }

    /// Returns an invalid state error.
    pub fn invalid_state() -> (outcome: Self)
        ensures
            outcome@ == OutcomeView::invalid_state(),
    {
        Outcome::Error(
            ErrorObject {
                code: INVALID_STATE_CODE,
                message: INVALID_STATE_MESSAGE.to_owned(),
                data: None,
            },
        )
    }

    /// Returns an invalid params error.
    pub fn invalid_params(error: &serde_json::Error) -> (outcome: Self)
        ensures
            outcome@ == OutcomeView::invalid_params(json::error_text(*error)),
    {
        Outcome::Error(
            ErrorObject {
                code: INVALID_PARAMS_CODE,
                message: INVALID_PARAMS_MESSAGE.to_owned(),
                data: Some(json::string_value(json::error_to_text(error))),
            },
        )
    }
}

/// An object sent by a client to notify a server of a request.
#[derive(Debug, PartialEq)]
pub struct RequestObject {
    /// The name of the method to be invoked.
    pub method: String,
    /// The parameter values to be used during the invocation of the method.
    pub params: Params,
    /// An identifier.
    pub id: Option<Id>,
}

/// What a [`RequestObject`] holds.
pub struct RequestView {
    /// The name of the method to be invoked.
    pub method: Seq<char>,
    /// The parameter values to be used during the invocation of the method.
    pub params: ParamsView,
    /// An identifier.
    pub id: Option<IdView>,
}

impl View for RequestObject {
    type V = RequestView;

    open spec fn view(&self) -> RequestView {
        RequestView {
            method: self.method@,
            params: self.params@,
            id: match self.id {
                Some(id) => Some(id@),
                None => None,
            },
        }
    }
}

/// An object returned by a server after processing a request.
#[derive(Debug, PartialEq)]
pub struct ResponseObject {
    /// The outcome.
    pub outcome: Outcome,
    /// The id.
    pub id: Id,
}

/// What a [`ResponseObject`] holds.
pub struct ResponseView {
    /// The outcome.
    pub outcome: OutcomeView,
    /// The id.
    pub id: IdView,
}

impl View for ResponseObject {
    type V = ResponseView;

    open spec fn view(&self) -> ResponseView {
        ResponseView { outcome: self.outcome@, id: self.id@ }
    }
}

/// The JSON-RPC protocol version.
#[derive(Clone, Copy, Debug, Eq, PartialEq, Structural)]
pub enum Version {
    /// Version 2.0.
    ///
    /// MUST be exactly "2.0".
    V2_0,
}

/// A type of JSON-RPC object.
#[derive(Debug, PartialEq)]
pub enum Kind {
    /// A JSON-RPC Request object.
    Request(RequestObject),
    /// A JSON-RPC Response object.
    Response(ResponseObject),
}

/// A JSON-RPC object.
#[derive(Debug, PartialEq)]
pub struct Object {
    /// The version of the JSON-RPC protocol.
    pub jsonrpc: Version,
    /// The kind of the JSON-RPC object.
    pub kind: Kind,
}

impl From<RequestObject> for Kind {
    fn from(request: RequestObject) -> (kind: Self)
        ensures
            kind == Kind::Request(request),
    {
        Kind::Request(request)
    }
}

impl vstd::std_specs::convert::FromSpecImpl<RequestObject> for Kind {
    open spec fn obeys_from_spec() -> bool {
        true
    }

    open spec fn from_spec(request: RequestObject) -> Self {
        Kind::Request(request)
    }
}

impl From<ResponseObject> for Kind {
    fn from(response: ResponseObject) -> (kind: Self)
        ensures
            kind == Kind::Response(response),
    {
        Kind::Response(response)
    }
}

impl vstd::std_specs::convert::FromSpecImpl<ResponseObject> for Kind {
    open spec fn obeys_from_spec() -> bool {
        true
    }

    open spec fn from_spec(response: ResponseObject) -> Self {
        Kind::Response(response)
    }
}

impl From<Object> for Kind {
    fn from(value: Object) -> (kind: Self)
        ensures
            kind == value.kind,
    {
        value.kind
    }
}

impl vstd::std_specs::convert::FromSpecImpl<Object> for Kind {
    open spec fn obeys_from_spec() -> bool {
        true
    }

    open spec fn from_spec(value: Object) -> Self {
        value.kind
    }
}

impl From<Kind> for Object {
    fn from(kind: Kind) -> (object: Self)
        ensures
            object.jsonrpc == Version::V2_0,
            object.kind == kind,
    {
        Object { jsonrpc: Version::V2_0, kind }
    }
}

impl vstd::std_specs::convert::FromSpecImpl<Kind> for Object {
    open spec fn obeys_from_spec() -> bool {
        true
    }

    open spec fn from_spec(kind: Kind) -> Self {
        Object { jsonrpc: Version::V2_0, kind }
    }
}

impl From<RequestObject> for Object {
    fn from(request: RequestObject) -> (object: Self)
        ensures
            object.jsonrpc == Version::V2_0,
            object.kind == Kind::Request(request),
    {
        Object::from(Kind::from(request))
    }
}

impl vstd::std_specs::convert::FromSpecImpl<RequestObject> for Object {
    open spec fn obeys_from_spec() -> bool {
        true
    }

    open spec fn from_spec(request: RequestObject) -> Self {
        Object { jsonrpc: Version::V2_0, kind: Kind::Request(request) }
    }
}

impl From<ResponseObject> for Object {
    fn from(response: ResponseObject) -> (object: Self)
        ensures
            object.jsonrpc == Version::V2_0,
            object.kind == Kind::Response(response),
    {
        Object::from(Kind::from(response))
    }
}

impl vstd::std_specs::convert::FromSpecImpl<ResponseObject> for Object {
    open spec fn obeys_from_spec() -> bool {
        true
    }

    open spec fn from_spec(response: ResponseObject) -> Self {
        Object { jsonrpc: Version::V2_0, kind: Kind::Response(response) }
    }
}

/// An error predefined by the JSON-RPC specification.
#[derive(Debug, PartialEq)]
pub enum PredefinedError {
    /// A parse error.
    Parse(Option<Value>),
    /// An invalid request error.
    InvalidRequest(Option<Value>),
    /// A method not found error.
    MethodNotFound(Option<Value>),
    /// An invalid params error.
    InvalidParams(Option<Value>),
    /// An internal error.
    Internal(Option<Value>),
    /// A server error.
    Server(ErrorObject),
    /// An error using a reserved code.
    Reserved(ErrorObject),
}

/// An error returned from JSON-RPC.
#[derive(Debug, PartialEq)]
pub enum ResponseError {
    /// An error predefined by the JSON-RPC specification.
    Predefined(PredefinedError),
    /// An error defined by the application.
    Application(ErrorObject),
}

impl ResponseError {
    /// The error that `error` is, by its code.
    pub open spec fn of(error: ErrorObject) -> Self {
        if error.code < PREDEFINED_ERROR_MIN_CODE || PREDEFINED_ERROR_MAX_CODE < error.code {
            ResponseError::Application(error)
        } else if error.code == PARSE_ERROR_CODE {
            ResponseError::Predefined(PredefinedError::Parse(error.data))
        } else if error.code == INVALID_REQUEST_CODE {
            ResponseError::Predefined(PredefinedError::InvalidRequest(error.data))
        } else if error.code == METHOD_NOT_FOUND_CODE {
            ResponseError::Predefined(PredefinedError::MethodNotFound(error.data))
        } else if error.code == INVALID_PARAMS_CODE {
            ResponseError::Predefined(PredefinedError::InvalidParams(error.data))
        } else if error.code == INTERNAL_ERROR_CODE {
            ResponseError::Predefined(PredefinedError::Internal(error.data))
        } else if SERVER_ERROR_MIN_CODE <= error.code <= SERVER_ERROR_MAX_CODE {
            ResponseError::Predefined(PredefinedError::Server(error))
        } else {
            ResponseError::Predefined(PredefinedError::Reserved(error))
        }
    }
}

impl From<ErrorObject> for ResponseError {
    fn from(error: ErrorObject) -> (sorted: Self) {
        match error.code {
            PREDEFINED_ERROR_MIN_CODE..=PREDEFINED_ERROR_MAX_CODE => match error.code {
                PARSE_ERROR_CODE => ResponseError::Predefined(PredefinedError::Parse(error.data)),
                INVALID_REQUEST_CODE => {
                    ResponseError::Predefined(PredefinedError::InvalidRequest(error.data))
                },
                METHOD_NOT_FOUND_CODE => {
                    ResponseError::Predefined(PredefinedError::MethodNotFound(error.data))
                },
                INVALID_PARAMS_CODE => {
                    ResponseError::Predefined(PredefinedError::InvalidParams(error.data))
                },
                INTERNAL_ERROR_CODE => ResponseError::Predefined(PredefinedError::Internal(error.data)),
                SERVER_ERROR_MIN_CODE..=SERVER_ERROR_MAX_CODE => {
                    ResponseError::Predefined(PredefinedError::Server(error))
                },
                _ => ResponseError::Predefined(PredefinedError::Reserved(error)),
            },
            _ => ResponseError::Application(error),
        }
    }
}

impl vstd::std_specs::convert::FromSpecImpl<ErrorObject> for ResponseError {
    open spec fn obeys_from_spec() -> bool {
        true
    }

    open spec fn from_spec(error: ErrorObject) -> Self {
        ResponseError::of(error)
    }
}

/// Defines the characteristics of a JSON-RPC request.
///
/// `H` is the type of the handlers of its response, `Q` and `N` the types of the handlers that a
/// server has for the request and for the notification of its method.
pub trait Request<H, Q, N> {
    /// The name of the method being requested.
    spec fn method_spec(&self) -> Seq<char>;

    /// The value of the parameters of the method, or what the error says that kept them from being
    /// serialized.
    spec fn params_spec(&self) -> Result<Json, Seq<char>>;

    /// The handlers of a response to this request.
    spec fn response_handlers_spec(&self) -> Option<H>;

    /// The handlers of the method of this request.
    spec fn method_handlers_spec(&self) -> (Option<Q>, Option<N>);

    /// Returns the name of the method being requested.
    fn method(&self) -> (method: &'static str)
        ensures
            method@ == self.method_spec(),
    ;

    /// Returns the [`Params`] of the method.
    ///
    /// # Error(s)
    ///
    /// Returns [`serde_json::Error`] if unable to serialize the parameters of the method.
    fn params(&self) -> (params: Result<Params, serde_json::Error>)
        ensures
            match (params, self.params_spec()) {
                (Ok(params), Ok(value)) => params@ == ParamsView::of(value),
                (Err(error), Err(text)) => json::error_text(error) == text,
                _ => false,
            },
    ;

    /// Returns the handlers of a success or error response to this request.
    ///
    /// [`None`] indicates the request is a notification.
    fn response_handlers(&self) -> (handlers: Option<H>)
        ensures
            handlers == self.response_handlers_spec(),
    ;

    /// Returns the handlers of a request for, and of a notification of, the method.
    fn method_handlers(&self) -> (handlers: (Option<Q>, Option<N>))
        ensures
            handlers == self.method_handlers_spec(),
    ;
}

/// What an optional output holds.
pub open spec fn optional_view<O: View>(output: Option<O>) -> Option<O::V> {
    match output {
        Some(output) => Some(output@),
        None => None,
    }
}

/// What an optional output holds, or what the error says that took its place.
pub open spec fn optional_result_view<O: View>(
    output: Option<Result<O, serde_json::Error>>,
) -> Option<Result<O::V, Seq<char>>> {
    match output {
        Some(Ok(output)) => Some(Ok(output@)),
        Some(Err(error)) => Some(Err(json::error_text(error))),
        None => None,
    }
}

/// The handlers that define how a client processes a response.
///
/// `S` is the type of the state that the handlers work on, and `O` is the type of the output
/// generated after processing completes.
pub trait HandleResponse<S: View, O: View> {
    /// The state after a successful response with `value` in `state`, and the output.
    spec fn on_result(&self, state: S::V, value: Json) -> (S::V, Option<Result<O::V, Seq<char>>>);

    /// The state after a response with `error` in `state`, and the output.
    spec fn on_error(&self, state: S::V, error: ErrorView) -> (S::V, Option<O::V>);

    /// Processes a successful response.
    fn handle_result(&self, state: &mut S, value: Value) -> (output: Option<
        Result<O, serde_json::Error>,
    >)
        ensures
            self.on_result(old(state)@, json::json_of(value)) == (
                final(state)@,
                optional_result_view(output),
            ),
    ;

    /// Processes an error response.
    fn handle_error(&self, state: &mut S, error: ErrorObject) -> (output: Option<O>)
        ensures
            self.on_error(old(state)@, error@) == (final(state)@, optional_view(output)),
    ;
}

/// The number `distance` steps after `start`, counting from the largest `u64` on to 0.
pub open spec fn id_after(start: u64, distance: nat) -> u64 {
    ((start + distance) % 0x1_0000_0000_0000_0000) as u64
}

/// The distance from `start` to the first id that is not in `taken`, starting at `distance`.
pub open spec fn free_distance(taken: Set<u64>, start: u64, distance: nat) -> nat
    decreases 0x1_0000_0000_0000_0000 - distance,
{
    if distance < 0x1_0000_0000_0000_0000 && taken.contains(id_after(start, distance)) {
        free_distance(taken, start, distance + 1)
    } else {
        distance
    }
}

/// The first id from `start` on that is not in `taken`.
pub open spec fn free_id(taken: Set<u64>, start: u64) -> u64 {
    id_after(start, free_distance(taken, start, 0))
}

/// Implements the processing performed by a JSON-RPC client.
///
/// `H` is the type of the handlers of a response.
#[verifier::reject_recursive_types(H)]
pub struct Client<H> {
    /// The value of the [`Id`] of the next request sent by [`Client`].
    ///
    /// The [`Id`]s of [`Client`] are implemented as sequential numbers.
    next_id: u64,
    /// Stores the handlers associated with all requests for which [`Client`] has not received a
    /// response.
    response_handlers: HashMap<u64, H>,
}

/// What a [`Client`] holds.
#[verifier::reject_recursive_types(H)]
pub struct ClientView<H> {
    /// The id at which the search for the id of the next request starts.
    pub next_id: u64,
    /// The handlers of all requests that await a response, by id.
    pub awaiting: Map<u64, H>,
}

impl<H> View for Client<H> {
    type V = ClientView<H>;

    closed spec fn view(&self) -> ClientView<H> {
        ClientView { next_id: self.next_id, awaiting: self.response_handlers@ }
    }
}

impl<H> ClientView<H> {
    /// The client after it made a request whose response `handlers` handle, and the id of the
    /// request.
    ///
    /// A request without handlers is a notification, which has no id.
    pub open spec fn requested(self, handlers: Option<H>) -> (Self, Option<u64>) {
        match handlers {
            Some(handlers) => {
                let id = free_id(self.awaiting.dom(), self.next_id);
                (
                    ClientView {
                        next_id: id_after(id, 1),
                        awaiting: self.awaiting.insert(id, handlers),
                    },
                    Some(id),
                )
            },
            None => (self, None),
        }
    }
}

/// The first `distance` numbers from `start` on.
spec fn ids_from(start: u64, distance: nat) -> Set<u64>
    decreases distance,
{
    if distance == 0 {
        Set::empty()
    } else {
        ids_from(start, (distance - 1) as nat).insert(id_after(start, (distance - 1) as nat))
    }
}

/// As long as they are fewer than all ids, successive ids are distinct.
proof fn lemma_ids_from(start: u64, distance: nat)
    requires
        distance <= 0x1_0000_0000_0000_0000,
    ensures
        ids_from(start, distance).finite(),
        ids_from(start, distance).len() == distance,
        forall|id: u64|
            ids_from(start, distance).contains(id) ==> exists|d: nat|
                d < distance && id == #[trigger] id_after(start, d),
    decreases distance,
{
    if distance > 0 {
        let before = (distance - 1) as nat;
        lemma_ids_from(start, before);
        assert(!ids_from(start, before).contains(id_after(start, before)));
        assert forall|id: u64| ids_from(start, distance).contains(id) implies exists|d: nat|
            d < distance && id == #[trigger] id_after(start, d) by {
            if id == id_after(start, before) {
                assert(before < distance);
            } else {
                let d = choose|d: nat| d < before && id == #[trigger] id_after(start, d);
                assert(d < distance && id == id_after(start, d));
            }
        }
    }
}

/// Fewer ids are taken, one after the other from `start` on, than there are taken ids.
pub(crate) proof fn lemma_taken_run(taken: Set<u64>, start: u64, distance: nat)
    requires
        taken.finite(),
        distance <= 0x1_0000_0000_0000_0000,
        forall|d: nat| d < distance ==> taken.contains(#[trigger] id_after(start, d)),
    ensures
        distance <= taken.len(),
{
    lemma_ids_from(start, distance);
    assert(ids_from(start, distance).subset_of(taken));
    vstd::set_lib::lemma_len_subset(ids_from(start, distance), taken);
}

impl<H> Client<H> {
    /// Creates a new [`Client`].
    pub fn new() -> (client: Self)
        ensures
            client@ == (ClientView { next_id: 1, awaiting: Map::<u64, H>::empty() }),
    {
        Client { next_id: 1, response_handlers: HashMap::new() }
    }

    /// Finds an id that is not currently awaiting a response, and stores `handlers` for it.
    fn claim(&mut self, handlers: H) -> (id: u64)
        ensures
            old(self)@.requested(Some(handlers)) == (final(self)@, Some(id)),
    {
        broadcast use vstd::std_specs::hash::group_hash_axioms;

        let ghost start = self.next_id;
        let ghost taken = self.response_handlers@.dom();
        let ghost mut distance: nat = 0;
        let count: usize = self.response_handlers.len();
        // Increment self.next_id until we find an id that is not currently awaiting a response.
        loop
            invariant
                taken.finite(),
                taken.len() == count,
                distance <= count,
                self.response_handlers@.dom() == taken,
                self.response_handlers@ == old(self).response_handlers@,
                start == old(self).next_id,
                self.next_id == id_after(start, distance),
                forall|d: nat| d < distance ==> taken.contains(#[trigger] id_after(start, d)),
                free_distance(taken, start, 0) == free_distance(taken, start, distance),
            decreases count - distance,
        {
            let id = self.next_id;
            self.next_id = self.next_id.wrapping_add(1);
            if !self.response_handlers.contains_key(&id) {
                self.response_handlers.insert(id, handlers);
                return id;
            }
            proof {
                distance = distance + 1;
                lemma_taken_run(taken, start, distance);
            }
        }
    }

    /// Creates a [`RequestObject`] from `request` and stores the handlers of its response.
    ///
    /// # Error(s)
    ///
    /// Returns [`serde_json::Error`] if unable to serialize the parameters of `request`.
    pub fn request<Q, N, R: Request<H, Q, N>>(&mut self, request: &R) -> (object: Result<
        RequestObject,
        serde_json::Error,
    >)
        ensures
            match (object, request.params_spec()) {
                (Ok(object), Ok(value)) => {
                    let (client, id) = old(self)@.requested(request.response_handlers_spec());
                    &&& final(self)@ == client
                    &&& object@ == RequestView::of(request.method_spec(), value, id)
                },
                (Err(error), Err(text)) => {
                    &&& final(self)@ == old(self)@
                    &&& json::error_text(error) == text
                },
                _ => false,
            },
    {
        let method = request.method().to_owned();
        let params = match request.params() {
            Ok(params) => params,
            Err(error) => {
                return Err(error);
            },
        };
        let id = match request.response_handlers() {
            Some(handlers) => Some(Id::from(self.claim(handlers))),
            None => None,
        };
        Ok(RequestObject { method, params, id })
    }

    /// If a response with `id` answers a request.
    pub fn awaits(&self, id: &Id) -> (awaits: bool)
        ensures
            awaits == (self@.answered(id@) is Some),
    {
        broadcast use vstd::std_specs::hash::group_hash_axioms;

        match id {
            Id::Num(number) => match json::number_as_u64(number) {
                Some(id) => self.response_handlers.contains_key(&id),
                None => false,
            },
            _ => false,
        }
    }

    /// Hands `response` to the handlers of the request that it answers.
    ///
    /// A response whose id awaits no response is ignored.
    pub fn process_response<S: View, O: View>(
        &mut self,
        state: &mut S,
        response: ResponseObject,
    ) -> (output: Result<Option<O>, ProcessResponseError>) where H: HandleResponse<S, O>
        ensures
            old(self)@.responded::<S, O>(old(state)@, response) == (
                final(self)@,
                final(state)@,
                answer_view(output),
            ),
    {
        broadcast use vstd::std_specs::hash::group_hash_axioms;

        let mut response_handlers: Option<H> = None;
        if let Id::Num(number) = &response.id {
            if let Some(id) = json::number_as_u64(number) {
                response_handlers = self.response_handlers.remove(&id);
                proof {
                    if response_handlers is None {
                        assert(self.response_handlers@ =~= old(self).response_handlers@);
                    }
                }
            }
        }
        match response_handlers {
            Some(handlers) => match response.outcome {
                Outcome::Result(value) => match handlers.handle_result(state, value) {
                    Some(Ok(output)) => Ok(Some(output)),
                    Some(Err(error)) => Err(ProcessResponseError::Serialize(error)),
                    None => Ok(None),
                },
                Outcome::Error(error_object) => match ResponseError::from(error_object) {
                    ResponseError::Application(error) => Ok(handlers.handle_error(state, error)),
                    ResponseError::Predefined(error) => {
                        Err(ProcessResponseError::Predefined(error))
                    },
                },
            },
            None => Ok(None),
        }
    }
}

impl<H> ClientView<H> {
    /// The id of the request that a response with `id` answers.
    pub open spec fn answered(self, id: IdView) -> Option<u64> {
        match id {
            IdView::Num(JsonNumber::Integer(number)) => if 0 <= number <= u64::MAX
                && self.awaiting.contains_key(number as u64) {
                Some(number as u64)
            } else {
                None
            },
            _ => None,
        }
    }

    /// The client once the request of `id` does not await a response any more.
    pub open spec fn without(self, id: u64) -> Self {
        ClientView { next_id: self.next_id, awaiting: self.awaiting.remove(id) }
    }
}

impl RequestView {
    /// The request for `method` with the parameters that `value` stands for.
    pub open spec fn of(method: Seq<char>, value: Json, id: Option<u64>) -> Self {
        RequestView {
            method,
            params: ParamsView::of(value),
            id: match id {
                Some(id) => Some(IdView::of(id)),
                None => None,
            },
        }
    }
}

/// An error was caught during response processing.
#[derive(Debug)]
pub enum ProcessResponseError {
    /// Predefined.
    Predefined(PredefinedError),
    /// Serialize.
    Serialize(serde_json::Error),
}

/// What processing a response gave.
pub enum Answer<V> {
    /// The output of the handlers.
    Output(Option<V>),
    /// The response was a predefined error.
    Predefined(PredefinedError),
    /// The value of the response could not be deserialized, as the text says.
    Serialize(Seq<char>),
}

/// What processing a response gave, by its result.
pub open spec fn answer_view<O: View>(
    output: Result<Option<O>, ProcessResponseError>,
) -> Answer<O::V> {
    match output {
        Ok(output) => Answer::Output(optional_view(output)),
        Err(ProcessResponseError::Predefined(error)) => Answer::Predefined(error),
        Err(ProcessResponseError::Serialize(error)) => Answer::Serialize(json::error_text(error)),
    }
}

impl<H> ClientView<H> {
    /// The client and the state after `response` in `state`, and what processing it gave.
    ///
    /// A response is handled by the handlers of the request that it answers, which then does not
    /// await a response any more. One that answers no request changes nothing.
    pub open spec fn responded<S: View, O: View>(self, state: S::V, response: ResponseObject) -> (
        Self,
        S::V,
        Answer<O::V>,
    ) where H: HandleResponse<S, O> {
        match self.answered(response.id@) {
            Some(id) => {
                let handlers = self.awaiting[id];
                let client = self.without(id);
                match response.outcome {
                    Outcome::Result(value) => {
                        let (after, output) = handlers.on_result(state, json::json_of(value));
                        (
                            client,
                            after,
                            match output {
                                Some(Ok(output)) => Answer::Output(Some(output)),
                                Some(Err(text)) => Answer::Serialize(text),
                                None => Answer::Output(None),
                            },
                        )
                    },
                    Outcome::Error(error) => match ResponseError::of(error) {
                        ResponseError::Application(error) => {
                            let (after, output) = handlers.on_error(state, error@);
                            (client, after, Answer::Output(output))
                        },
                        ResponseError::Predefined(error) => (
                            client,
                            state,
                            Answer::Predefined(error),
                        ),
                    },
                }
            },
            None => (self, state, Answer::Output(None)),
        }
    }
}

/// The handler that defines how a server processes a request that expects a response.
pub trait HandleRequest<S: View> {
    /// The state after a request with `params` in `state`, and its outcome.
    spec fn on_request(&self, state: S::V, params: ParamsView) -> (S::V, OutcomeView);

    /// Processes a request.
    fn handle_request(&self, state: &mut S, params: Params) -> (outcome: Outcome)
        ensures
            self.on_request(old(state)@, params@) == (final(state)@, outcome@),
    ;
}

/// The handler that defines how a server processes a notification.
pub trait HandleNotification<S: View> {
    /// The state after a notification with `params` in `state`.
    spec fn on_notification(&self, state: S::V, params: ParamsView) -> S::V;

    /// Processes a notification.
    fn handle_notification(&self, state: &mut S, params: Params)
        ensures
            final(state)@ == self.on_notification(old(state)@, params@),
    ;
}

/// An error was caught when inserting a request into the server list.
#[derive(Debug, PartialEq)]
pub struct InsertRequestError {
    /// The method on which the error occurred.
    pub method: String,
    /// The error occurred on a request - otherwise it occurred on a notification.
    pub was_request: bool,
}

/// What a [`Server`] holds.
#[verifier::reject_recursive_types(Q)]
#[verifier::reject_recursive_types(N)]
pub struct ServerView<Q, N> {
    /// The handlers of requests, by method.
    pub requests: Map<Seq<char>, Q>,
    /// The handlers of notifications, by method.
    pub notifications: Map<Seq<char>, N>,
}

impl<Q, N> ServerView<Q, N> {
    /// A server that processes nothing.
    pub open spec fn empty() -> Self {
        ServerView { requests: Map::empty(), notifications: Map::empty() }
    }

    /// Whether a handler for `method` already exists: one of its requests, or else one of its
    /// notifications.
    pub open spec fn conflict(self, method: Seq<char>, handlers: (Option<Q>, Option<N>)) -> Option<
        bool,
    > {
        if handlers.0 is Some && self.requests.contains_key(method) {
            Some(true)
        } else if handlers.1 is Some && self.notifications.contains_key(method) {
            Some(false)
        } else {
            None
        }
    }

    /// The server once `handlers` process the requests for, and the notifications of, `method`.
    pub open spec fn with(self, method: Seq<char>, handlers: (Option<Q>, Option<N>)) -> Self {
        ServerView {
            requests: match handlers.0 {
                Some(handler) => self.requests.insert(method, handler),
                None => self.requests,
            },
            notifications: match handlers.1 {
                Some(handler) => self.notifications.insert(method, handler),
                None => self.notifications,
            },
        }
    }

    /// Whether there is a handler for `request`.
    pub open spec fn handles(self, request: RequestView) -> bool {
        match request.id {
            Some(_) => self.requests.contains_key(request.method),
            None => self.notifications.contains_key(request.method),
        }
    }

    /// The state after a request or a notification in `state`, and the response to a request.
    pub open spec fn processed<S: View>(self, state: S::V, request: RequestView) -> (
        S::V,
        Option<ResponseView>,
    ) where Q: HandleRequest<S>, N: HandleNotification<S> {
        match request.id {
            Some(id) => {
                let (state, outcome) = if self.requests.contains_key(request.method) {
                    self.requests[request.method].on_request(state, request.params)
                } else {
                    (state, OutcomeView::unknown_request())
                };
                (state, Some(ResponseView { outcome, id }))
            },
            None => if self.notifications.contains_key(request.method) {
                (
                    self.notifications[request.method].on_notification(state, request.params),
                    None,
                )
            } else {
                (state, None)
            },
        }
    }
}

/// The server that processes `requests`, or the method that is handled twice and whether it is so
/// for its requests.
pub open spec fn server_of<H, Q, N, R: Request<H, Q, N>>(requests: Seq<R>) -> Result<
    ServerView<Q, N>,
    (Seq<char>, bool),
>
    decreases requests.len(),
{
    if requests.len() == 0 {
        Ok(ServerView::empty())
    } else {
        let request = requests.last();
        match server_of::<H, Q, N, R>(requests.drop_last()) {
            Ok(server) => match server.conflict(
                request.method_spec(),
                request.method_handlers_spec(),
            ) {
                Some(was_request) => Err((request.method_spec(), was_request)),
                None => Ok(server.with(request.method_spec(), request.method_handlers_spec())),
            },
            Err(error) => Err(error),
        }
    }
}

/// Inserts `request` into the appropriate handler map.
///
/// Where the method already has a handler, it is replaced, and the error says for which map.
pub fn insert_request<H, Q, N, R: Request<H, Q, N>>(
    request_handlers: &mut StringHashMap<Q>,
    notification_handlers: &mut StringHashMap<N>,
    request: &R,
) -> (inserted: Result<(), InsertRequestError>)
    ensures
        ({
            let server = ServerView {
                requests: old(request_handlers)@,
                notifications: old(notification_handlers)@,
            };
            let method = request.method_spec();
            let handlers = request.method_handlers_spec();
            match (inserted, server.conflict(method, handlers)) {
                (Ok(()), None) => {
                    &&& final(request_handlers)@ == server.with(method, handlers).requests
                    &&& final(notification_handlers)@ == server.with(method, handlers).notifications
                },
                (Err(error), Some(was_request)) => {
                    &&& error.method@ == method
                    &&& error.was_request == was_request
                    &&& final(request_handlers)@ == server.with(method, handlers).requests
                    &&& final(notification_handlers)@ == if was_request {
                        server.notifications
                    } else {
                        server.with(method, handlers).notifications
                    }
                },
                _ => false,
            }
        }),
{
    let method = request.method();
    let (req, notification) = request.method_handlers();
    if let Some(request_handler) = req {
        let existed = request_handlers.contains_key(method);
        request_handlers.insert(method.to_owned(), request_handler);
        if existed {
            return Err(InsertRequestError { method: method.to_owned(), was_request: true });
        }
    }
    if let Some(notification_handler) = notification {
        let existed = notification_handlers.contains_key(method);
        notification_handlers.insert(method.to_owned(), notification_handler);
        if existed {
            return Err(InsertRequestError { method: method.to_owned(), was_request: false });
        }
    }
    Ok(())
}

/// Implements the processing performed by a JSON-RPC server.
///
/// `Q` is the type of the handlers of requests, `N` the type of the handlers of notifications.
#[verifier::reject_recursive_types(Q)]
#[verifier::reject_recursive_types(N)]
pub struct Server<Q, N> {
    /// Associates the handlers of requests with their method.
    request_handlers: StringHashMap<Q>,
    /// Associates the handlers of notifications with their method.
    notification_handlers: StringHashMap<N>,
}

impl<Q, N> View for Server<Q, N> {
    type V = ServerView<Q, N>;

    closed spec fn view(&self) -> ServerView<Q, N> {
        ServerView {
            requests: self.request_handlers@,
            notifications: self.notification_handlers@,
        }
    }
}

impl<Q, N> Server<Q, N> {
    /// Creates a new [`Server`] that processes `requests`.
    pub fn new<H, R: Request<H, Q, N>>(requests: Vec<R>) -> (server: Result<
        Self,
        InsertRequestError,
    >)
        ensures
            match (server, server_of::<H, Q, N, R>(requests@)) {
                (Ok(server), Ok(view)) => server@ == view,
                (Err(error), Err((method, was_request))) => {
                    &&& error.method@ == method
                    &&& error.was_request == was_request
                },
                _ => false,
            },
    {
        let mut request_handlers: StringHashMap<Q> = StringHashMap::new();
        let mut notification_handlers: StringHashMap<N> = StringHashMap::new();
        let mut index: usize = 0;
        while index < requests.len()
            invariant
                index <= requests@.len(),
                server_of::<H, Q, N, R>(requests@.take(index as int)) == Ok::<
                    ServerView<Q, N>,
                    (Seq<char>, bool),
                >(
                    ServerView {
                        requests: request_handlers@,
                        notifications: notification_handlers@,
                    },
                ),
            decreases requests@.len() - index,
        {
            proof {
                assert(requests@.take(index + 1).drop_last() =~= requests@.take(index as int));
            }
            if let Err(error) = insert_request(
                &mut request_handlers,
                &mut notification_handlers,
                &requests[index],
            ) {
                proof {
                    lemma_server_of_prefix::<H, Q, N, R>(requests@, index + 1);
                }
                return Err(error);
            }
            index += 1;
        }
        assert(requests@.take(index as int) =~= requests@);
        Ok(Server { request_handlers, notification_handlers })
    }

    /// If there is a handler for `request`.
    pub fn handles(&self, request: &RequestObject) -> (handles: bool)
        ensures
            handles == self@.handles(request@),
    {
        match &request.id {
            Some(_) => self.request_handlers.contains_key(request.method.as_str()),
            None => self.notification_handlers.contains_key(request.method.as_str()),
        }
    }

    /// Calls the appropriate handler for `request`, returning a [`ResponseObject`] when
    /// appropriate.
    pub fn process_request<S: View>(&mut self, state: &mut S, request: RequestObject) -> (response:
        Option<ResponseObject>) where Q: HandleRequest<S>, N: HandleNotification<S>
        ensures
            final(self)@ == old(self)@,
            old(self)@.processed::<S>(old(state)@, request@) == (
                final(state)@,
                optional_view(response),
            ),
            response matches Some(response) ==> request.id == Some(response.id),
    {
        match request.id {
            Some(id) => {
                let outcome = match self.request_handlers.get(request.method.as_str()) {
                    Some(request_handler) => request_handler.handle_request(state, request.params),
                    None => Outcome::unknown_request(),
                };
                Some(ResponseObject { outcome, id })
            },
            None => {
                if let Some(notification_handler) = self.notification_handlers.get(
                    request.method.as_str(),
                ) {
                    notification_handler.handle_notification(state, request.params);
                }
                None
            },
        }
    }
}

/// The first method that is handled twice is what keeps a server from being made.
proof fn lemma_server_of_prefix<H, Q, N, R: Request<H, Q, N>>(requests: Seq<R>, end: int)
    requires
        0 <= end <= requests.len(),
        server_of::<H, Q, N, R>(requests.take(end)) is Err,
    ensures
        server_of::<H, Q, N, R>(requests) == server_of::<H, Q, N, R>(requests.take(end)),
    decreases requests.len() - end,
{
    if end == requests.len() {
        assert(requests.take(end) =~= requests);
    } else {
        assert(requests.take(end + 1).drop_last() =~= requests.take(end));
        lemma_server_of_prefix::<H, Q, N, R>(requests, end + 1);
    }
}

impl ParamsView {
    /// The text of `self`.
    pub open spec fn text(self) -> Seq<char> {
        match self {
            ParamsView::Absent => "None"@,
            ParamsView::Array(values) => json::values_debug_text(values),
            ParamsView::Object(fields) => json::fields_debug_text(fields),
        }
    }
}

impl Params {
    /// Returns the text of `self`.
    pub fn to_text(&self) -> (text: String)
        ensures
            text@ == self@.text(),
    {
        match self {
            Params::Absent => "None".to_owned(),
            Params::Array(values) => json::values_to_debug_text(values),
            Params::Object(fields) => json::fields_to_debug_text(fields),
        }
    }
}

impl IdView {
    /// The text of `self`.
    pub open spec fn text(self) -> Seq<char> {
        match self {
            IdView::Null => "NULL"@,
            IdView::Num(JsonNumber::Integer(number)) => text::signed_decimal(number),
            IdView::Num(JsonNumber::Float(printed)) => printed,
            IdView::Str(string) => string,
        }
    }
}

impl Id {
    /// Returns the text of `self`.
    pub fn to_text(&self) -> (text: String)
        ensures
            text@ == self@.text(),
    {
        match self {
            Id::Null => "NULL".to_owned(),
            Id::Num(number) => json::number_to_text(number),
            Id::Str(string) => string.as_str().to_owned(),
        }
    }
}

impl RequestView {
    /// The text of `self`.
    pub open spec fn text(self) -> Seq<char> {
        match self.id {
            Some(id) => "Request["@ + id.text() + "]: '"@ + self.method + "' w/ "@
                + self.params.text(),
            None => "Notification: '"@ + self.method + "' w/ "@ + self.params.text(),
        }
    }
}

impl RequestObject {
    /// Returns the text of `self`.
    pub fn to_text(&self) -> (text: String)
        ensures
            text@ == self@.text(),
    {
        let params = self.params.to_text();
        match &self.id {
            Some(id) => {
                let id = id.to_text();
                "Request[".to_owned().concat(id.as_str()).concat("]: '").concat(
                    self.method.as_str(),
                ).concat("' w/ ").concat(params.as_str())
            },
            None => "Notification: '".to_owned().concat(self.method.as_str()).concat(
                "' w/ ",
            ).concat(params.as_str()),
        }
    }
}

impl ErrorView {
    /// The text of `self`.
    pub open spec fn text(self) -> Seq<char> {
        "Error["@ + text::signed_decimal(self.code as int) + "]: "@ + self.message
    }
}

impl ErrorObject {
    /// Returns the text of `self`.
    pub fn to_text(&self) -> (text: String)
        ensures
            text@ == self@.text(),
    {
        let code = text::signed_decimal_text(self.code);
        "Error[".to_owned().concat(code.as_str()).concat("]: ").concat(self.message.as_str())
    }
}

impl OutcomeView {
    /// The text of `self`.
    pub open spec fn text(self) -> Seq<char> {
        match self {
            OutcomeView::Result(value) => "Success "@ + json::json_text(value),
            OutcomeView::Error(error) => error.text(),
        }
    }
}

impl Outcome {
    /// Returns the text of `self`.
    pub fn to_text(&self) -> (text: String)
        ensures
            text@ == self@.text(),
    {
        match self {
            Outcome::Result(value) => {
                let value = json::value_to_text(value);
                "Success ".to_owned().concat(value.as_str())
            },
            Outcome::Error(error) => error.to_text(),
        }
    }
}

impl ResponseView {
    /// The text of `self`.
    pub open spec fn text(self) -> Seq<char> {
        "Response["@ + self.id.text() + "]: "@ + self.outcome.text()
    }
}

impl ResponseObject {
    /// Returns the text of `self`.
    pub fn to_text(&self) -> (text: String)
        ensures
            text@ == self@.text(),
    {
        let id = self.id.to_text();
        let outcome = self.outcome.to_text();
        "Response[".to_owned().concat(id.as_str()).concat("]: ").concat(outcome.as_str())
    }
}

impl Kind {
    /// The text of `self`.
    pub open spec fn text(self) -> Seq<char> {
        match self {
            Kind::Request(request) => request@.text(),
            Kind::Response(response) => response@.text(),
        }
    }

    /// Returns the text of `self`.
    pub fn to_text(&self) -> (text: String)
        ensures
            text@ == self.text(),
    {
        match self {
            Kind::Request(request) => request.to_text(),
            Kind::Response(response) => response.to_text(),
        }
    }
}

impl Object {
    /// Returns the text of `self`.
    pub fn to_text(&self) -> (text: String)
        ensures
            text@ == self.kind.text(),
    {
        self.kind.to_text()
    }
}

impl PredefinedError {
    /// The text of `self`.
    pub open spec fn text(self) -> Seq<char> {
        match self {
            PredefinedError::Parse(_) => "An error occurred while parsing the JSON text"@,
            PredefinedError::InvalidRequest(_) => "JSON is not a valid Request object"@,
            PredefinedError::MethodNotFound(_) => "The method does not exist/is not available"@,
            PredefinedError::InvalidParams(_) => "Invalid method parameter(s)"@,
            PredefinedError::Internal(_) => "Internal JSON-RPC error"@,
            PredefinedError::Server(_) => "Implementation-defined server error"@,
            PredefinedError::Reserved(_) => ""@,
        }
    }

    /// Returns the text of `self`.
    pub fn to_text(&self) -> (text: String)
        ensures
            text@ == self.text(),
    {
        match self {
            PredefinedError::Parse(_) => "An error occurred while parsing the JSON text".to_owned(),
            PredefinedError::InvalidRequest(_) => "JSON is not a valid Request object".to_owned(),
            PredefinedError::MethodNotFound(_) => {
                "The method does not exist/is not available".to_owned()
            },
            PredefinedError::InvalidParams(_) => "Invalid method parameter(s)".to_owned(),
            PredefinedError::Internal(_) => "Internal JSON-RPC error".to_owned(),
            PredefinedError::Server(_) => "Implementation-defined server error".to_owned(),
            PredefinedError::Reserved(_) => "".to_owned(),
        }
    }
}

impl ResponseError {
    /// The text of `self`.
    pub open spec fn text(self) -> Seq<char> {
        match self {
            ResponseError::Predefined(error) => error.text(),
            ResponseError::Application(error) => error@.text(),
        }
    }

    /// Returns the text of `self`.
    pub fn to_text(&self) -> (text: String)
        ensures
            text@ == self.text(),
    {
        match self {
            ResponseError::Predefined(error) => error.to_text(),
            ResponseError::Application(error) => error.to_text(),
        }
    }
}

impl ProcessResponseError {
    /// The text of `self`.
    pub open spec fn text(self) -> Seq<char> {
        match self {
            ProcessResponseError::Predefined(error) => error.text(),
            ProcessResponseError::Serialize(error) => json::error_text(error),
        }
    }

    /// Returns the text of `self`.
    pub fn to_text(&self) -> (text: String)
        ensures
            text@ == self.text(),
    {
        match self {
            ProcessResponseError::Predefined(error) => error.to_text(),
            ProcessResponseError::Serialize(error) => json::error_to_text(error),
        }
    }
}

impl InsertRequestError {
    /// The text of `self`.
    pub open spec fn text(self) -> Seq<char> {
        (if self.was_request {
            "request"@
        } else {
            "notification"@
        }) + " handler for `"@ + self.method@ + "` already existed"@
    }

    /// Returns the text of `self`.
    pub fn to_text(&self) -> (text: String)
        ensures
            text@ == self.text(),
    {
        let subject = if self.was_request {
            "request"
        } else {
            "notification"
        };
        subject.to_owned().concat(" handler for `").concat(self.method.as_str()).concat(
            "` already existed",
        )
    }
}

} // verus!
