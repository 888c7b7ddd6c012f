//! Implements the language server protocol functionality.
use lsp_types::{DocumentSymbolResponse, InitializeResult, Url};
use serde_json::Value;
use vstd::prelude::*;

use crate::json;
use crate::json::Json;
use crate::json_rpc::{
    ErrorObject, ErrorView, HandleNotification, HandleRequest, HandleResponse, Outcome, OutcomeView,
    Params, ParamsView, Request,
};
use crate::protocol;
use crate::protocol::{
    DidCloseTextDocumentParams, DidOpenTextDocumentParams, DocumentSymbolParams, InitializeParams,
    Registration, RegistrationParams, RegistrationView, TextDocumentIdentifier, TextDocumentItem,
};

verus! {

/// A message to the language server.
#[derive(Debug, PartialEq)]
pub enum Directive {
    /// The client received the initialization.
    Initialized,
    /// The client is shutting down.
    Shutdown,
    /// The client is exiting.
    Exit,
    /// The client requests a document symbol.
    DocumentSymbol(DocumentSymbolParams),
    /// The client opened a document.
    OpenDoc(DidOpenTextDocumentParams),
    /// The client closed a document.
    CloseDoc(DidCloseTextDocumentParams),
}

impl Clone for Directive {
    fn clone(&self) -> (clone: Self)
        ensures
            clone == *self,
    {
        match self {
            Directive::Initialized => Directive::Initialized,
            Directive::Shutdown => Directive::Shutdown,
            Directive::Exit => Directive::Exit,
            Directive::DocumentSymbol(params) => Directive::DocumentSymbol(
                DocumentSymbolParams {
                    text_document: TextDocumentIdentifier {
                        uri: protocol::clone_url(&params.text_document.uri),
                    },
                },
            ),
            Directive::OpenDoc(params) => Directive::OpenDoc(
                DidOpenTextDocumentParams {
                    text_document: TextDocumentItem {
                        uri: protocol::clone_url(&params.text_document.uri),
                        language_id: params.text_document.language_id.clone(),
                        version: params.text_document.version,
                        text: params.text_document.text.clone(),
                    },
                },
            ),
            Directive::CloseDoc(params) => Directive::CloseDoc(
                DidCloseTextDocumentParams {
                    text_document: TextDocumentIdentifier {
                        uri: protocol::clone_url(&params.text_document.uri),
                    },
                },
            ),
        }
    }
}

impl Directive {
    /// The text of `self`.
    pub open spec fn text(self) -> Seq<char> {
        match self {
            Directive::Initialized => "Initialized"@,
            Directive::Shutdown => "Shutdown"@,
            Directive::Exit => "Exit"@,
            Directive::DocumentSymbol(params) => "DocumentSymbol "@
                + protocol::document_symbol_debug_text(params.text_document.uri),
            Directive::OpenDoc(params) => "OpenDoc "@ + protocol::did_open_debug_text(
                params.text_document.uri,
                params.text_document.language_id@,
                params.text_document.version,
                params.text_document.text@,
            ),
            Directive::CloseDoc(params) => "CloseDoc "@ + protocol::did_close_debug_text(
                params.text_document.uri,
            ),
        }
    }

    /// Returns the text of `self`.
    pub fn to_text(&self) -> (text: String)
        ensures
            text@ == self.text(),
    {
        match self {
            Directive::Initialized => "Initialized".to_owned(),
            Directive::Shutdown => "Shutdown".to_owned(),
            Directive::Exit => "Exit".to_owned(),
            Directive::DocumentSymbol(params) => {
                let params = protocol::document_symbol_to_debug_text(params);
                "DocumentSymbol ".to_owned().concat(params.as_str())
            },
            Directive::OpenDoc(params) => {
                let params = protocol::did_open_to_debug_text(params);
                "OpenDoc ".to_owned().concat(params.as_str())
            },
            Directive::CloseDoc(params) => {
                let params = protocol::did_close_to_debug_text(params);
                "CloseDoc ".to_owned().concat(params.as_str())
            },
        }
    }
}

/// Describes the state of the client.
#[derive(Debug, PartialEq)]
pub enum State {
    /// Server has not been initialized.
    Uninitialized {
        /// The desired root directory of the server.
        root_dir: Url,
    },
    /// Waiting for the server to confirm initialization.
    WaitingInitialization {
        /// [`Directive`]s to be sent after initialization is confirmed.
        directives: Vec<Directive>,
    },
    /// Normal running state.
    Running {
        /// The state of the server.
        server_state: Box<InitializeResult>,
        /// The registrations.
        registrations: Vec<Registration>,
    },
    /// Waiting for the server to confirm shutdown.
    WaitingShutdown,
    /// Waiting for the server to exit.
    WaitingExit,
}

/// What a [`State`] holds.
pub enum StateView {
    /// Server has not been initialized.
    Uninitialized {
        /// The desired root directory of the server.
        root_dir: Url,
    },
    /// Waiting for the server to confirm initialization.
    WaitingInitialization {
        /// [`Directive`]s to be sent after initialization is confirmed.
        directives: Seq<Directive>,
    },
    /// Normal running state.
    Running {
        /// The state of the server.
        server_state: InitializeResult,
        /// The registrations.
        registrations: Seq<RegistrationView>,
    },
    /// Waiting for the server to confirm shutdown.
    WaitingShutdown,
    /// Waiting for the server to exit.
    WaitingExit,
}

impl View for State {
    type V = StateView;

    open spec fn view(&self) -> StateView {
        match self {
            State::Uninitialized { root_dir } => StateView::Uninitialized { root_dir: *root_dir },
            State::WaitingInitialization { directives } => StateView::WaitingInitialization {
                directives: directives@,
            },
            State::Running { server_state, registrations } => StateView::Running {
                server_state: **server_state,
                registrations: protocol::registration_views(registrations@),
            },
            State::WaitingShutdown => StateView::WaitingShutdown,
            State::WaitingExit => StateView::WaitingExit,
        }
    }
}

/// Returns the same directives again.
fn clone_directives(directives: &Vec<Directive>) -> (clones: Vec<Directive>)
    ensures
        clones@ == directives@,
{
    let mut clones: Vec<Directive> = Vec::new();
    let mut index: usize = 0;
    while index < directives.len()
        invariant
            index <= directives@.len(),
            clones@ == directives@.take(index as int),
        decreases directives@.len() - index,
    {
        clones.push(directives[index].clone());
        index += 1;
        assert(clones@ =~= directives@.take(index as int));
    }
    assert(clones@ =~= directives@);
    clones
}

/// Returns the same registrations again.
fn clone_registrations(registrations: &Vec<Registration>) -> (clones: Vec<Registration>)
    ensures
        protocol::registration_views(clones@) == protocol::registration_views(registrations@),
{
    let mut clones: Vec<Registration> = Vec::new();
    let mut index: usize = 0;
    while index < registrations.len()
        invariant
            index <= registrations@.len(),
            clones@.len() == index,
            forall|i: int| 0 <= i < index ==> #[trigger] clones@[i]@ == registrations@[i]@,
        decreases registrations@.len() - index,
    {
        let registration = &registrations[index];
        clones.push(
            Registration {
                id: registration.id.clone(),
                method: registration.method.clone(),
                register_options: match &registration.register_options {
                    Some(options) => Some(json::clone_value(options)),
                    None => None,
                },
            },
        );
        index += 1;
    }
    assert(protocol::registration_views(clones@) =~= protocol::registration_views(registrations@));
    clones
}

impl Clone for State {
    fn clone(&self) -> (clone: Self)
        ensures
            clone@ == self@,
    {
        match self {
            State::Uninitialized { root_dir } => State::Uninitialized {
                root_dir: protocol::clone_url(root_dir),
            },
            State::WaitingInitialization { directives } => State::WaitingInitialization {
                directives: clone_directives(directives),
            },
            State::Running { server_state, registrations } => State::Running {
                server_state: Box::new(protocol::clone_initialize_result(server_state)),
                registrations: clone_registrations(registrations),
            },
            State::WaitingShutdown => State::WaitingShutdown,
            State::WaitingExit => State::WaitingExit,
        }
    }
}

impl StateView {
    /// The text of `self`.
    pub open spec fn text(self) -> Seq<char> {
        match self {
            StateView::Uninitialized { .. } => "uninitialized"@,
            StateView::WaitingInitialization { .. } => "waiting initialization"@,
            StateView::Running { .. } => "running"@,
            StateView::WaitingShutdown => "waiting shutdown"@,
            StateView::WaitingExit => "waiting exit"@,
        }
    }
}

impl State {
    /// Returns the text of `self`.
    pub fn to_text(&self) -> (text: String)
        ensures
            text@ == self@.text(),
    {
        match self {
            State::Uninitialized { .. } => "uninitialized".to_owned(),
            State::WaitingInitialization { .. } => "waiting initialization".to_owned(),
            State::Running { .. } => "running".to_owned(),
            State::WaitingShutdown => "waiting shutdown".to_owned(),
            State::WaitingExit => "waiting exit".to_owned(),
        }
    }
}

/// An error when the tool is in an invalid state.
#[derive(Debug, PartialEq)]
pub struct InvalidStateError {
    /// The [`State`] of the tool.
    pub state: State,
}

impl InvalidStateError {
    /// The text of `self`.
    pub open spec fn text(self) -> Seq<char> {
        "Tool is in invalid state: "@ + self.state@.text()
    }

    /// Returns the text of `self`.
    pub fn to_text(&self) -> (text: String)
        ensures
            text@ == self.text(),
    {
        let state = self.state.to_text();
        "Tool is in invalid state: ".to_owned().concat(state.as_str())
    }
}

/// Describes events that the client must process.
///
/// `X` is the type of the status with which a process exits.
#[derive(Debug, PartialEq)]
pub enum Event<X> {
    /// The tool wants to send a message to the server.
    SendDirectives(Vec<Directive>),
    /// The tool encountered an error.
    Error(InvalidStateError),
    /// The tool received a document symbol.
    DocumentSymbol(DocumentSymbolResponse),
    /// The tool has exited.
    Exit(X),
}

/// What an [`Event`] holds.
pub enum EventView<X> {
    /// The tool wants to send a message to the server.
    SendDirectives(Seq<Directive>),
    /// The tool encountered an error in this state.
    Error(StateView),
    /// The tool received a document symbol.
    DocumentSymbol(DocumentSymbolResponse),
    /// The tool has exited.
    Exit(X),
}

impl<X> View for Event<X> {
    type V = EventView<X>;

    open spec fn view(&self) -> EventView<X> {
        match self {
            Event::SendDirectives(directives) => EventView::SendDirectives(directives@),
            Event::Error(error) => EventView::Error(error.state@),
            Event::DocumentSymbol(symbols) => EventView::DocumentSymbol(*symbols),
            Event::Exit(status) => EventView::Exit(*status),
        }
    }
}

impl<X> EventView<X> {
    /// The text of `self`.
    pub open spec fn text(self) -> Seq<char> {
        match self {
            EventView::SendDirectives(_) => "send message"@,
            EventView::Error(_) => "error"@,
            EventView::DocumentSymbol(_) => ""@,
            EventView::Exit(_) => ""@,
        }
    }
}

impl<X> Event<X> {
    /// Returns the text of `self`.
    pub fn to_text(&self) -> (text: String)
        ensures
            text@ == self@.text(),
    {
        match self {
            Event::SendDirectives(_) => "send message".to_owned(),
            Event::Error(_) => "error".to_owned(),
            Event::DocumentSymbol(_) | Event::Exit(_) => "".to_owned(),
        }
    }
}

impl<X> From<X> for Event<X> {
    fn from(status: X) -> (event: Self)
        ensures
            event == Event::Exit(status),
    {
        Event::Exit(status)
    }
}

impl<X> vstd::std_specs::convert::FromSpecImpl<X> for Event<X> {
    open spec fn obeys_from_spec() -> bool {
        true
    }

    open spec fn from_spec(status: X) -> Self {
        Event::Exit(status)
    }
}

/// What an event holds, or what the error says that took its place.
pub open spec fn event_view<X>(event: Result<Event<X>, serde_json::Error>) -> Result<
    EventView<X>,
    Seq<char>,
> {
    match event {
        Ok(event) => Ok(event@),
        Err(error) => Err(json::error_text(error)),
    }
}

/// What registrations hold, or what the error says that took their place.
pub open spec fn registered_view(
    registrations: Result<Vec<Registration>, serde_json::Error>,
) -> Result<Seq<RegistrationView>, Seq<char>> {
    match registrations {
        Ok(registrations) => Ok(protocol::registration_views(registrations@)),
        Err(error) => Err(json::error_text(error)),
    }
}

impl StateView {
    /// The state after the server answered the initialization with `result`, and the event.
    ///
    /// An answer that is not waited for is an error, whatever it is.
    pub open spec fn initialized<X>(self, result: Result<InitializeResult, Seq<char>>) -> (
        Self,
        Result<EventView<X>, Seq<char>>,
    ) {
        match self {
            StateView::WaitingInitialization { directives } => match result {
                Ok(server_state) => (
                    StateView::Running { server_state, registrations: Seq::empty() },
                    Ok(EventView::SendDirectives(seq![Directive::Initialized] + directives)),
                ),
                Err(text) => (self, Err(text)),
            },
            _ => (self, Ok(EventView::Error(self))),
        }
    }

    /// The state after the server confirmed the shutdown, and the event.
    pub open spec fn shut_down<X>(self) -> (Self, EventView<X>) {
        match self {
            StateView::WaitingShutdown => (
                StateView::WaitingExit,
                EventView::SendDirectives(seq![Directive::Exit]),
            ),
            _ => (self, EventView::Error(self)),
        }
    }

    /// The state after the server asked to register `registrations`, and the outcome.
    pub open spec fn registered(self, registrations: Result<Seq<RegistrationView>, Seq<char>>) -> (
        Self,
        OutcomeView,
    ) {
        match self {
            StateView::Running { server_state, registrations: before } => match registrations {
                Ok(added) => (
                    StateView::Running { server_state, registrations: before + added },
                    OutcomeView::Result(Json::Null),
                ),
                Err(text) => (self, OutcomeView::invalid_params(text)),
            },
            _ => (self, OutcomeView::invalid_state()),
        }
    }
}

impl State {
    /// Processes the `result` with which the server answered the initialization.
    pub fn initialized<X>(&mut self, result: Result<InitializeResult, serde_json::Error>) -> (event:
        Result<Event<X>, serde_json::Error>)
        ensures
            old(self)@.initialized::<X>(json::parsed(result)) == (final(self)@, event_view(event)),
    {
        match self {
            State::WaitingInitialization { directives } => match result {
                Ok(initialize_result) => {
                    let mut new_directives = vec![Directive::Initialized];
                    new_directives.append(directives);
                    assert(new_directives@ =~= seq![Directive::Initialized]
                        + old(self)@->directives);
                    *self = State::Running {
                        server_state: Box::new(initialize_result),
                        registrations: Vec::new(),
                    };
                    assert(self@->registrations =~= Seq::empty());
                    Ok(Event::SendDirectives(new_directives))
                },
                Err(error) => Err(error),
            },
            _ => Ok(Event::Error(InvalidStateError { state: self.clone() })),
        }
    }

    /// Processes the confirmation of the shutdown.
    pub fn shut_down<X>(&mut self) -> (event: Event<X>)
        ensures
            old(self)@.shut_down::<X>() == (final(self)@, event@),
    {
        match self {
            State::WaitingShutdown => {
                *self = State::WaitingExit;
                let directives = vec![Directive::Exit];
                assert(directives@ =~= seq![Directive::Exit]);
                Event::SendDirectives(directives)
            },
            _ => Event::Error(InvalidStateError { state: self.clone() }),
        }
    }

    /// Processes the `registrations` that the server asked for.
    pub fn registered(&mut self, registrations: Result<Vec<Registration>, serde_json::Error>) -> (
        outcome: Outcome)
        ensures
            old(self)@.registered(registered_view(registrations)) == (final(self)@, outcome@),
    {
        match self {
            State::Running { registrations: registered, .. } => match registrations {
                Ok(mut registrations) => {
                    let ghost before = protocol::registration_views(registered@);
                    let ghost added = protocol::registration_views(registrations@);
                    registered.append(&mut registrations);
                    assert(protocol::registration_views(registered@) =~= before + added);
                    Outcome::Result(json::null_value())
                },
                Err(error) => Outcome::invalid_params(&error),
            },
            _ => Outcome::invalid_state(),
        }
    }
}

impl<X> Event<X> {
    /// Processes the `result` with which the server answered a request for symbols.
    pub fn symbols(result: Result<DocumentSymbolResponse, serde_json::Error>) -> (event: Result<
        Self,
        serde_json::Error,
    >)
        ensures
            event == match result {
                Ok(symbols) => Ok::<Self, serde_json::Error>(Event::DocumentSymbol(symbols)),
                Err(error) => Err(error),
            },
    {
        match result {
            Ok(symbols) => Ok(Event::DocumentSymbol(symbols)),
            Err(error) => Err(error),
        }
    }
}

/// The handlers that define how a response to one of the requests of the client is processed.
#[derive(Clone, Copy, Debug, Eq, PartialEq, Structural)]
pub enum ResponseHandlers {
    /// The handlers of a response to an initialization.
    Initialize,
    /// The handlers of a response to a request for the symbols of a document.
    DocumentSymbol,
    /// The handlers of a response to a shutdown.
    Shutdown,
    /// The handlers of a response to a registration.
    Registration,
}

impl<X> HandleResponse<State, Event<X>> for ResponseHandlers {
    open spec fn on_result(&self, state: StateView, value: Json) -> (
        StateView,
        Option<Result<EventView<X>, Seq<char>>>,
    ) {
        match self {
            ResponseHandlers::Initialize => {
                let (after, event) = state.initialized(protocol::initialize_result_of(value));
                (after, Some(event))
            },
            ResponseHandlers::DocumentSymbol => (
                state,
                match protocol::document_symbols_of(value) {
                    Ok(symbols) => Some(Ok(EventView::DocumentSymbol(symbols))),
                    Err(text) => Some(Err(text)),
                },
            ),
            ResponseHandlers::Shutdown => {
                let (after, event) = state.shut_down();
                (after, Some(Ok(event)))
            },
            ResponseHandlers::Registration => (state, None),
        }
    }

    open spec fn on_error(&self, state: StateView, error: ErrorView) -> (
        StateView,
        Option<EventView<X>>,
    ) {
        (state, None)
    }

    fn handle_result(&self, state: &mut State, value: Value) -> (output: Option<
        Result<Event<X>, serde_json::Error>,
    >) {
        match self {
            ResponseHandlers::Initialize => Some(
                state.initialized(protocol::initialize_result_from_value(value)),
            ),
            ResponseHandlers::DocumentSymbol => Some(
                Event::symbols(protocol::document_symbols_from_value(value)),
            ),
            ResponseHandlers::Shutdown => Some(Ok(state.shut_down())),
            ResponseHandlers::Registration => None,
        }
    }

    fn handle_error(&self, state: &mut State, error: ErrorObject) -> (output: Option<Event<X>>) {
        None
    }
}

/// The handler that defines how a request of the server is processed.
#[derive(Clone, Copy, Debug, Eq, PartialEq, Structural)]
pub enum RequestHandler {
    /// The handler of a request to register capabilities.
    RegisterCapability,
}

impl HandleRequest<State> for RequestHandler {
    open spec fn on_request(&self, state: StateView, params: ParamsView) -> (
        StateView,
        OutcomeView,
    ) {
        state.registered(protocol::registrations_of(params.value()))
    }

    fn handle_request(&self, state: &mut State, params: Params) -> (outcome: Outcome) {
        state.registered(protocol::registrations_from_value(Value::from(params)))
    }
}

/// The handler that defines how a notification of the server is processed.
///
/// No method has one.
#[derive(Clone, Copy, Debug, Eq, PartialEq, Structural)]
pub enum NotificationHandler {
    /// The handler that leaves everything as it is.
    Ignore,
}

impl HandleNotification<State> for NotificationHandler {
    open spec fn on_notification(&self, state: StateView, params: ParamsView) -> StateView {
        state
    }

    fn handle_notification(&self, state: &mut State, params: Params) {
    }
}

impl Request<ResponseHandlers, RequestHandler, NotificationHandler> for InitializeParams {
    open spec fn method_spec(&self) -> Seq<char> {
        "initialize"@
    }

    open spec fn params_spec(&self) -> Result<Json, Seq<char>> {
        Ok(self.json())
    }

    open spec fn response_handlers_spec(&self) -> Option<ResponseHandlers> {
        Some(ResponseHandlers::Initialize)
    }

    open spec fn method_handlers_spec(&self) -> (
        Option<RequestHandler>,
        Option<NotificationHandler>,
    ) {
        (None, None)
    }

    fn method(&self) -> (method: &'static str) {
        "initialize"
    }

    fn params(&self) -> (params: Result<Params, serde_json::Error>) {
        match protocol::initialize_params_to_value(self) {
            Ok(value) => Ok(Params::from(value)),
            Err(error) => Err(error),
        }
    }

    fn response_handlers(&self) -> (handlers: Option<ResponseHandlers>) {
        Some(ResponseHandlers::Initialize)
    }

    fn method_handlers(&self) -> (handlers: (Option<RequestHandler>, Option<NotificationHandler>)) {
        (None, None)
    }
}

impl Request<ResponseHandlers, RequestHandler, NotificationHandler> for DocumentSymbolParams {
    open spec fn method_spec(&self) -> Seq<char> {
        "textDocument/documentSymbol"@
    }

    open spec fn params_spec(&self) -> Result<Json, Seq<char>> {
        Ok(self.json())
    }

    open spec fn response_handlers_spec(&self) -> Option<ResponseHandlers> {
        Some(ResponseHandlers::DocumentSymbol)
    }

    open spec fn method_handlers_spec(&self) -> (
        Option<RequestHandler>,
        Option<NotificationHandler>,
    ) {
        (None, None)
    }

    fn method(&self) -> (method: &'static str) {
        "textDocument/documentSymbol"
    }

    fn params(&self) -> (params: Result<Params, serde_json::Error>) {
        match protocol::document_symbol_to_value(self) {
            Ok(value) => Ok(Params::from(value)),
            Err(error) => Err(error),
        }
    }

    fn response_handlers(&self) -> (handlers: Option<ResponseHandlers>) {
        Some(ResponseHandlers::DocumentSymbol)
    }

    fn method_handlers(&self) -> (handlers: (Option<RequestHandler>, Option<NotificationHandler>)) {
        (None, None)
    }
}

/// Params of "shutdown" method.
#[derive(Clone, Copy, Debug, Eq, PartialEq)]
pub struct ShutdownParams;

impl Request<ResponseHandlers, RequestHandler, NotificationHandler> for ShutdownParams {
    open spec fn method_spec(&self) -> Seq<char> {
        "shutdown"@
    }

    open spec fn params_spec(&self) -> Result<Json, Seq<char>> {
        Ok(Json::Null)
    }

    open spec fn response_handlers_spec(&self) -> Option<ResponseHandlers> {
        Some(ResponseHandlers::Shutdown)
    }

    open spec fn method_handlers_spec(&self) -> (
        Option<RequestHandler>,
        Option<NotificationHandler>,
    ) {
        (None, None)
    }

    fn method(&self) -> (method: &'static str) {
        "shutdown"
    }

    fn params(&self) -> (params: Result<Params, serde_json::Error>) {
        match protocol::unit_to_value() {
            Ok(value) => Ok(Params::from(value)),
            Err(error) => Err(error),
        }
    }

    fn response_handlers(&self) -> (handlers: Option<ResponseHandlers>) {
        Some(ResponseHandlers::Shutdown)
    }

    fn method_handlers(&self) -> (handlers: (Option<RequestHandler>, Option<NotificationHandler>)) {
        (None, None)
    }
}

/// Params of "initialized" method.
#[derive(Clone, Copy, Debug, Eq, PartialEq)]
pub struct InitializedParams;

impl Request<ResponseHandlers, RequestHandler, NotificationHandler> for InitializedParams {
    open spec fn method_spec(&self) -> Seq<char> {
        "initialized"@
    }

    open spec fn params_spec(&self) -> Result<Json, Seq<char>> {
        Ok(Json::Null)
    }

    open spec fn response_handlers_spec(&self) -> Option<ResponseHandlers> {
        None
    }

    open spec fn method_handlers_spec(&self) -> (
        Option<RequestHandler>,
        Option<NotificationHandler>,
    ) {
        (None, None)
    }

    fn method(&self) -> (method: &'static str) {
        "initialized"
    }

    fn params(&self) -> (params: Result<Params, serde_json::Error>) {
        match protocol::unit_to_value() {
            Ok(value) => Ok(Params::from(value)),
            Err(error) => Err(error),
        }
    }

    fn response_handlers(&self) -> (handlers: Option<ResponseHandlers>) {
        None
    }

    fn method_handlers(&self) -> (handlers: (Option<RequestHandler>, Option<NotificationHandler>)) {
        (None, None)
    }
}

impl Request<ResponseHandlers, RequestHandler, NotificationHandler> for DidOpenTextDocumentParams {
    open spec fn method_spec(&self) -> Seq<char> {
        "textDocument/didOpen"@
    }

    open spec fn params_spec(&self) -> Result<Json, Seq<char>> {
        Ok(self.json())
    }

    open spec fn response_handlers_spec(&self) -> Option<ResponseHandlers> {
        None
    }

    open spec fn method_handlers_spec(&self) -> (
        Option<RequestHandler>,
        Option<NotificationHandler>,
    ) {
        (None, None)
    }

    fn method(&self) -> (method: &'static str) {
        "textDocument/didOpen"
    }

    fn params(&self) -> (params: Result<Params, serde_json::Error>) {
        match protocol::did_open_to_value(self) {
            Ok(value) => Ok(Params::from(value)),
            Err(error) => Err(error),
        }
    }

    fn response_handlers(&self) -> (handlers: Option<ResponseHandlers>) {
        None
    }

    fn method_handlers(&self) -> (handlers: (Option<RequestHandler>, Option<NotificationHandler>)) {
        (None, None)
    }
}

impl Request<ResponseHandlers, RequestHandler, NotificationHandler> for DidCloseTextDocumentParams {
    open spec fn method_spec(&self) -> Seq<char> {
        "textDocument/didClose"@
    }

    open spec fn params_spec(&self) -> Result<Json, Seq<char>> {
        Ok(self.json())
    }

    open spec fn response_handlers_spec(&self) -> Option<ResponseHandlers> {
        None
    }

    open spec fn method_handlers_spec(&self) -> (
        Option<RequestHandler>,
        Option<NotificationHandler>,
    ) {
        (None, None)
    }

    fn method(&self) -> (method: &'static str) {
        "textDocument/didClose"
    }

    fn params(&self) -> (params: Result<Params, serde_json::Error>) {
        match protocol::did_close_to_value(self) {
            Ok(value) => Ok(Params::from(value)),
            Err(error) => Err(error),
        }
    }

    fn response_handlers(&self) -> (handlers: Option<ResponseHandlers>) {
        None
    }

    fn method_handlers(&self) -> (handlers: (Option<RequestHandler>, Option<NotificationHandler>)) {
        (None, None)
    }
}

/// Params of "exit" method.
#[derive(Clone, Copy, Debug, Eq, PartialEq)]
pub struct ExitParams;

impl Request<ResponseHandlers, RequestHandler, NotificationHandler> for ExitParams {
    open spec fn method_spec(&self) -> Seq<char> {
        "exit"@
    }

    open spec fn params_spec(&self) -> Result<Json, Seq<char>> {
        Ok(Json::Null)
    }

    open spec fn response_handlers_spec(&self) -> Option<ResponseHandlers> {
        None
    }

    open spec fn method_handlers_spec(&self) -> (
        Option<RequestHandler>,
        Option<NotificationHandler>,
    ) {
        (None, None)
    }

    fn method(&self) -> (method: &'static str) {
        "exit"
    }

    fn params(&self) -> (params: Result<Params, serde_json::Error>) {
        match protocol::unit_to_value() {
            Ok(value) => Ok(Params::from(value)),
            Err(error) => Err(error),
        }
    }

    fn response_handlers(&self) -> (handlers: Option<ResponseHandlers>) {
        None
    }

    fn method_handlers(&self) -> (handlers: (Option<RequestHandler>, Option<NotificationHandler>)) {
        (None, None)
    }
}

impl Request<ResponseHandlers, RequestHandler, NotificationHandler> for RegistrationParams {
    open spec fn method_spec(&self) -> Seq<char> {
        "client/registerCapability"@
    }

    open spec fn params_spec(&self) -> Result<Json, Seq<char>> {
        Ok(self.json())
    }

    open spec fn response_handlers_spec(&self) -> Option<ResponseHandlers> {
        Some(ResponseHandlers::Registration)
    }

    open spec fn method_handlers_spec(&self) -> (
        Option<RequestHandler>,
        Option<NotificationHandler>,
    ) {
        (Some(RequestHandler::RegisterCapability), None)
    }

    fn method(&self) -> (method: &'static str) {
        "client/registerCapability"
    }

    fn params(&self) -> (params: Result<Params, serde_json::Error>) {
        match protocol::registration_params_to_value(self) {
            Ok(value) => Ok(Params::from(value)),
            Err(error) => Err(error),
        }
    }

    fn response_handlers(&self) -> (handlers: Option<ResponseHandlers>) {
        Some(ResponseHandlers::Registration)
    }

    fn method_handlers(&self) -> (handlers: (Option<RequestHandler>, Option<NotificationHandler>)) {
        (Some(RequestHandler::RegisterCapability), None)
    }
}

} // verus!
