//! The client of a language server.
use lsp_types::Url;
use vstd::prelude::*;

use crate::error_message::ErrorMessage;
use crate::json;
use crate::json::Json;
use crate::json_rpc;
use crate::json_rpc::{
    Answer, Client, ClientView, InsertRequestError, Kind, PredefinedError, ProcessResponseError,
    RequestObject, RequestView, ResponseObject, ResponseView, Server, ServerView,
};
use crate::lsp::{
    Directive, Event, EventView, ExitParams, InitializedParams, InvalidStateError,
    NotificationHandler, RequestHandler, ResponseHandlers, ShutdownParams, State, StateView,
};
use crate::message::Message;
use crate::protocol;
use crate::protocol::{
    DocumentSymbolClientCapabilities, InitializeParams, RegistrationParams,
    TextDocumentClientCapabilities, TextDocumentSyncClientCapabilities,
};

verus! {

/// The parameters with which the process of id `process_id` initializes a server at `root_dir`.
pub open spec fn initialize_params_spec(root_dir: Url, process_id: u32) -> InitializeParams {
    InitializeParams {
        process_id: Some(process_id),
        root_uri: Some(root_dir),
        text_document: TextDocumentClientCapabilities {
            synchronization: TextDocumentSyncClientCapabilities {
                dynamic_registration: None,
                will_save: None,
                will_save_wait_until: None,
                did_save: None,
            },
            document_symbol: DocumentSymbolClientCapabilities {
                dynamic_registration: None,
                hierarchical_document_symbol_support: Some(true),
            },
        },
    }
}

/// Returns an initialize params for the tool.
pub fn initialize_params(root_dir: &Url, process_id: u32) -> (params: InitializeParams)
    ensures
        params == initialize_params_spec(*root_dir, process_id),
        params.process_id == Some(process_id),
        params.root_uri == Some(*root_dir),
        params.text_document.document_symbol.hierarchical_document_symbol_support == Some(true),
        params.text_document.document_symbol.dynamic_registration is None,
{
    InitializeParams {
        process_id: Some(process_id),
        root_uri: Some(protocol::clone_url(root_dir)),
        text_document: TextDocumentClientCapabilities {
            synchronization: TextDocumentSyncClientCapabilities {
                dynamic_registration: None,
                will_save: None,
                will_save_wait_until: None,
                did_save: None,
            },
            document_symbol: DocumentSymbolClientCapabilities {
                dynamic_registration: None,
                hierarchical_document_symbol_support: Some(true),
            },
        },
    }
}

/// An error when producing a transmission.
#[derive(Debug)]
pub enum WriteError {
    /// An error serializing the message to be transmitted.
    Serialize(serde_json::Error),
}

impl From<serde_json::Error> for WriteError {
    fn from(error: serde_json::Error) -> (write_error: Self)
        ensures
            write_error == WriteError::Serialize(error),
    {
        WriteError::Serialize(error)
    }
}

impl vstd::std_specs::convert::FromSpecImpl<serde_json::Error> for WriteError {
    open spec fn obeys_from_spec() -> bool {
        true
    }

    open spec fn from_spec(error: serde_json::Error) -> Self {
        WriteError::Serialize(error)
    }
}

/// An error during transmission to the language server.
#[derive(Debug)]
pub enum TransmissionError {
    /// An error during transmission.
    Tx(WriteError),
    /// The tool is in an invalid state.
    InvalidState(InvalidStateError),
}

impl From<serde_json::Error> for TransmissionError {
    fn from(ser_error: serde_json::Error) -> (error: Self)
        ensures
            error == TransmissionError::Tx(WriteError::Serialize(ser_error)),
    {
        TransmissionError::Tx(WriteError::from(ser_error))
    }
}

impl vstd::std_specs::convert::FromSpecImpl<serde_json::Error> for TransmissionError {
    open spec fn obeys_from_spec() -> bool {
        true
    }

    open spec fn from_spec(ser_error: serde_json::Error) -> Self {
        TransmissionError::Tx(WriteError::Serialize(ser_error))
    }
}

/// An error during the reception of a message from the language server.
#[derive(Debug)]
pub enum ReceptionError {
    /// An error while producing a response.
    Response(WriteError),
    /// A JSON-RPC error.
    ProcessResponse(ProcessResponseError),
}

/// Failed to create [`Tool`].
#[derive(Debug)]
pub enum CreateToolError {
    /// Failed to insert request.
    InsertRequest(InsertRequestError),
}

impl WriteError {
    /// The text of `self`.
    pub open spec fn text(self) -> Seq<char> {
        match self {
            WriteError::Serialize(error) => json::error_text(error),
        }
    }

    /// Returns the text of `self`.
    pub fn to_text(&self) -> (text: String)
        ensures
            text@ == self.text(),
    {
        match self {
            WriteError::Serialize(error) => json::error_to_text(error),
        }
    }
}

impl TransmissionError {
    /// The text of `self`.
    pub open spec fn text(self) -> Seq<char> {
        match self {
            TransmissionError::Tx(error) => error.text(),
            TransmissionError::InvalidState(error) => error.text(),
        }
    }

    /// Returns the text of `self`.
    pub fn to_text(&self) -> (text: String)
        ensures
            text@ == self.text(),
    {
        match self {
            TransmissionError::Tx(error) => error.to_text(),
            TransmissionError::InvalidState(error) => error.to_text(),
        }
    }
}

impl ReceptionError {
    /// The text of `self`.
    pub open spec fn text(self) -> Seq<char> {
        match self {
            ReceptionError::Response(error) => error.text(),
            ReceptionError::ProcessResponse(error) => error.text(),
        }
    }

    /// Returns the text of `self`.
    pub fn to_text(&self) -> (text: String)
        ensures
            text@ == self.text(),
    {
        match self {
            ReceptionError::Response(error) => error.to_text(),
            ReceptionError::ProcessResponse(error) => error.to_text(),
        }
    }
}

impl CreateToolError {
    /// The text of `self`.
    pub open spec fn text(self) -> Seq<char> {
        match self {
            CreateToolError::InsertRequest(error) => error.text(),
        }
    }

    /// Returns the text of `self`.
    pub fn to_text(&self) -> (text: String)
        ensures
            text@ == self.text(),
    {
        match self {
            CreateToolError::InsertRequest(error) => error.to_text(),
        }
    }
}

impl Directive {
    /// The name of the method that `self` invokes.
    pub open spec fn method(self) -> Seq<char> {
        match self {
            Directive::Initialized => "initialized"@,
            Directive::Shutdown => "shutdown"@,
            Directive::Exit => "exit"@,
            Directive::DocumentSymbol(_) => "textDocument/documentSymbol"@,
            Directive::OpenDoc(_) => "textDocument/didOpen"@,
            Directive::CloseDoc(_) => "textDocument/didClose"@,
        }
    }

    /// The value of the parameters of the method.
    pub open spec fn value(self) -> Json {
        match self {
            Directive::DocumentSymbol(params) => params.json(),
            Directive::OpenDoc(params) => params.json(),
            Directive::CloseDoc(params) => params.json(),
            _ => Json::Null,
        }
    }

    /// The handlers of the response to `self`, where the server owes one.
    pub open spec fn response_handlers(self) -> Option<ResponseHandlers> {
        match self {
            Directive::DocumentSymbol(_) => Some(ResponseHandlers::DocumentSymbol),
            Directive::Shutdown => Some(ResponseHandlers::Shutdown),
            _ => None,
        }
    }

    /// Requests what `self` asks for of `client`.
    fn request(&self, client: &mut Client<ResponseHandlers>) -> (request: Result<
        RequestObject,
        serde_json::Error,
    >)
        ensures
            ({
                let (after, id) = old(client)@.requested(self.response_handlers());
                &&& final(client)@ == after
                &&& request matches Ok(request)
                &&& request@ == RequestView::of(self.method(), self.value(), id)
            }),
    {
        match self {
            Directive::Initialized => client.request(&InitializedParams),
            Directive::Shutdown => client.request(&ShutdownParams),
            Directive::Exit => client.request(&ExitParams),
            Directive::DocumentSymbol(params) => client.request(params),
            Directive::OpenDoc(params) => client.request(params),
            Directive::CloseDoc(params) => client.request(params),
        }
    }
}

/// The client after it requested each of `directives` in order, and the requests.
pub open spec fn sent(client: ClientView<ResponseHandlers>, directives: Seq<Directive>) -> (
    ClientView<ResponseHandlers>,
    Seq<RequestView>,
)
    decreases directives.len(),
{
    if directives.len() == 0 {
        (client, Seq::empty())
    } else {
        let (before, requests) = sent(client, directives.drop_last());
        let directive = directives.last();
        let (after, id) = before.requested(directive.response_handlers());
        (after, requests.push(RequestView::of(directive.method(), directive.value(), id)))
    }
}

/// What a language server process produces.
///
/// `X` is the type of the status with which a process exits.
#[derive(Debug, PartialEq)]
pub enum Product<X> {
    /// A message on its standard output.
    Output(Message),
    /// A message on its standard error.
    Error(ErrorMessage),
    /// The status with which it exited.
    Exit(X),
}

impl<X> From<Message> for Product<X> {
    fn from(message: Message) -> (product: Self)
        ensures
            product == Product::<X>::Output(message),
    {
        Product::Output(message)
    }
}

impl<X> vstd::std_specs::convert::FromSpecImpl<Message> for Product<X> {
    open spec fn obeys_from_spec() -> bool {
        true
    }

    open spec fn from_spec(message: Message) -> Self {
        Product::Output(message)
    }
}

impl<X> From<ErrorMessage> for Product<X> {
    fn from(error_message: ErrorMessage) -> (product: Self)
        ensures
            product == Product::<X>::Error(error_message),
    {
        Product::Error(error_message)
    }
}

impl<X> vstd::std_specs::convert::FromSpecImpl<ErrorMessage> for Product<X> {
    open spec fn obeys_from_spec() -> bool {
        true
    }

    open spec fn from_spec(error_message: ErrorMessage) -> Self {
        Product::Error(error_message)
    }
}

/// How a [`Tool`] reacts to a product of the language server.
#[derive(Debug, PartialEq)]
pub struct Reaction<X> {
    /// The response to be written to the server.
    pub response: Option<ResponseObject>,
    /// The events that the client must process.
    pub events: Vec<Event<X>>,
}

/// What a [`Reaction`] holds.
pub struct ReactionView<X> {
    /// The response to be written to the server.
    pub response: Option<ResponseView>,
    /// The events that the client must process.
    pub events: Seq<EventView<X>>,
}

impl<X> View for Reaction<X> {
    type V = ReactionView<X>;

    open spec fn view(&self) -> ReactionView<X> {
        ReactionView {
            response: json_rpc::optional_view(self.response),
            events: self.events@.map_values(|event: Event<X>| event@),
        }
    }
}

impl<X> ReactionView<X> {
    /// The reaction that answers with `response`.
    pub open spec fn response(response: Option<ResponseView>) -> Self {
        ReactionView { response, events: Seq::empty() }
    }

    /// The reaction that leaves `event` to the client.
    pub open spec fn event(event: Option<EventView<X>>) -> Self {
        ReactionView {
            response: None,
            events: match event {
                Some(event) => seq![event],
                None => Seq::empty(),
            },
        }
    }
}

/// What receiving a product gave.
pub enum Received<X> {
    /// The reaction of the tool.
    Reaction(ReactionView<X>),
    /// The product was a response with a predefined error.
    Predefined(PredefinedError),
    /// The product was a response whose value could not be deserialized, as the text says.
    Serialize(Seq<char>),
}

/// How a [`Tool`] reacts to products of the language server.
#[derive(Debug)]
pub struct Receptions<X> {
    /// The reactions, one for each product until the first that failed.
    pub reactions: Vec<Reaction<X>>,
    /// Whether every product was processed, or the error at which processing stopped.
    pub outcome: Result<(), ReceptionError>,
}

impl<X> Receptions<X> {
    /// What each of the reactions holds.
    pub open spec fn reaction_views(self) -> Seq<ReactionView<X>> {
        self.reactions@.map_values(|reaction: Reaction<X>| reaction@)
    }

    /// Whether `self` is what follows from `products` of the server of `tool`, which is then `after`.
    pub open spec fn follow(self, tool: ToolView, products: Seq<Product<X>>, after: ToolView) -> bool {
        let (received, reactions, failure) = tool.received_all(products);
        &&& after == received
        &&& self.reaction_views() == reactions
        &&& match self.outcome {
            Ok(()) => failure is None,
            Err(error) => failure is Some && received_view::<X>(Err(error)) == failure,
        }
    }
}

/// What receiving a product gave, by its result.
pub open spec fn received_view<X>(result: Result<Reaction<X>, ReceptionError>) -> Option<
    Received<X>,
> {
    match result {
        Ok(reaction) => Some(Received::Reaction(reaction@)),
        Err(ReceptionError::ProcessResponse(ProcessResponseError::Predefined(error))) => Some(
            Received::Predefined(error),
        ),
        Err(ReceptionError::ProcessResponse(ProcessResponseError::Serialize(error))) => Some(
            Received::Serialize(json::error_text(error)),
        ),
        Err(ReceptionError::Response(_)) => None,
    }
}

/// What each of `requests` holds.
pub open spec fn request_views(requests: Seq<RequestObject>) -> Seq<RequestView> {
    requests.map_values(|request: RequestObject| request@)
}

/// The LSP client.
///
/// Its caller carries what it sends to the language server, and what the server produces to it.
pub struct Tool {
    /// The JSON-RPC client.
    rpc_client: Client<ResponseHandlers>,
    /// The JSON-RPC server.
    rpc_server: Server<RequestHandler, NotificationHandler>,
    /// Defines the current state of `Self`.
    state: State,
}

/// What a [`Tool`] holds.
pub struct ToolView {
    /// The JSON-RPC client.
    pub client: ClientView<ResponseHandlers>,
    /// The JSON-RPC server.
    pub server: ServerView<RequestHandler, NotificationHandler>,
    /// The current state.
    pub state: StateView,
}

impl View for Tool {
    type V = ToolView;

    closed spec fn view(&self) -> ToolView {
        ToolView { client: self.rpc_client@, server: self.rpc_server@, state: self.state@ }
    }
}

impl ToolView {
    /// A tool in `state` that has sent nothing, and that serves requests to register capabilities.
    pub open spec fn in_state(state: StateView) -> Self {
        ToolView {
            client: ClientView { next_id: 1, awaiting: Map::empty() },
            server: ServerView {
                requests: map![
                    "client/registerCapability"@ => RequestHandler::RegisterCapability,
                ],
                notifications: Map::empty(),
            },
            state,
        }
    }

    /// The tool after it sent `directives`, and the requests to be written to the server.
    ///
    /// A running tool that sends a shutdown waits for it to be confirmed.
    pub open spec fn sending(self, directives: Seq<Directive>) -> (Self, Seq<RequestView>) {
        let (client, requests) = sent(self.client, directives);
        let state = if self.state is Running && directives.contains(Directive::Shutdown) {
            StateView::WaitingShutdown
        } else {
            self.state
        };
        (ToolView { client, server: self.server, state }, requests)
    }

    /// The tool after it took `directives`, and the requests to be written to the server.
    ///
    /// A tool that is shut down takes none. The first that a tool takes start the initialization of
    /// the server, and wait, with those that follow, until it is confirmed.
    pub open spec fn transmitted(self, directives: Seq<Directive>, process_id: u32) -> Result<
        (Self, Seq<RequestView>),
        StateView,
    > {
        match self.state {
            StateView::Uninitialized { root_dir } => {
                let (client, id) = self.client.requested(Some(ResponseHandlers::Initialize));
                let value = initialize_params_spec(root_dir, process_id).json();
                Ok(
                    (
                        ToolView {
                            client,
                            server: self.server,
                            state: StateView::WaitingInitialization { directives },
                        },
                        seq![RequestView::of("initialize"@, value, id)],
                    ),
                )
            },
            StateView::WaitingInitialization { directives: pending } => Ok(
                (
                    ToolView {
                        client: self.client,
                        server: self.server,
                        state: StateView::WaitingInitialization {
                            directives: pending + directives,
                        },
                    },
                    Seq::empty(),
                ),
            ),
            StateView::Running { .. } => Ok(self.sending(directives)),
            StateView::WaitingShutdown | StateView::WaitingExit => Err(self.state),
        }
    }

    /// The tool after it took `directives` that it wanted to send itself, and the requests to be
    /// written to the server.
    ///
    /// Unlike those of its client, the tool sends its own directives also while it waits for the
    /// server to exit: the last of them is the exit.
    pub open spec fn transmitted_own(self, directives: Seq<Directive>, process_id: u32) -> Result<
        (Self, Seq<RequestView>),
        StateView,
    > {
        if self.state is WaitingExit {
            Ok(self.sending(directives))
        } else {
            self.transmitted(directives, process_id)
        }
    }

    /// Whether the tool has handlers for `product`: a request or a notification whose method it
    /// serves, or a response that it waits for. What is not a message needs none.
    pub open spec fn recognizes<X>(self, product: Product<X>) -> bool {
        match product {
            Product::Output(message) => match message.content.kind {
                Kind::Request(request) => self.server.handles(request@),
                Kind::Response(response) => self.client.answered(response.id@) is Some,
            },
            _ => true,
        }
    }

    /// The tool after the language server produced `product`, and what receiving it gave.
    ///
    /// A request is processed by the server of the tool, and a response by its client. What the
    /// language server writes to its standard error changes nothing.
    pub open spec fn received<X>(self, product: Product<X>) -> (Self, Received<X>) {
        match product {
            Product::Output(message) => match message.content.kind {
                Kind::Request(request) => {
                    let (state, response) = self.server.processed::<State>(self.state, request@);
                    (
                        ToolView { client: self.client, server: self.server, state },
                        Received::Reaction(ReactionView::response(response)),
                    )
                },
                Kind::Response(response) => {
                    let (client, state, answer) = self.client.responded::<State, Event<X>>(
                        self.state,
                        response,
                    );
                    (
                        ToolView { client, server: self.server, state },
                        match answer {
                            Answer::Output(event) => Received::Reaction(ReactionView::event(event)),
                            Answer::Predefined(error) => Received::Predefined(error),
                            Answer::Serialize(text) => Received::Serialize(text),
                        },
                    )
                },
            },
            Product::Error(_) => (self, Received::Reaction(ReactionView::event(None))),
            Product::Exit(status) => (
                self,
                Received::Reaction(ReactionView::event(Some(EventView::Exit(status)))),
            ),
        }
    }

    /// The tool after the language server produced each of `products` in order, its reactions, and
    /// the failure at which it stopped, if any.
    pub open spec fn received_all<X>(self, products: Seq<Product<X>>) -> (
        Self,
        Seq<ReactionView<X>>,
        Option<Received<X>>,
    )
        decreases products.len(),
    {
        if products.len() == 0 {
            (self, Seq::empty(), None)
        } else {
            let (tool, reactions, failure) = self.received_all(products.drop_last());
            match failure {
                Some(_) => (tool, reactions, failure),
                None => match tool.received(products.last()) {
                    (after, Received::Reaction(reaction)) => (
                        after,
                        reactions.push(reaction),
                        None,
                    ),
                    (after, failure) => (after, reactions, Some(failure)),
                },
            }
        }
    }
}

/// The first failure is what stops the reception of products.
proof fn lemma_received_all_prefix<X>(tool: ToolView, products: Seq<Product<X>>, end: int)
    requires
        0 <= end <= products.len(),
        tool.received_all(products.take(end)).2 is Some,
    ensures
        tool.received_all(products) == tool.received_all(products.take(end)),
    decreases products.len() - end,
{
    if end == products.len() {
        assert(products.take(end) =~= products);
    } else {
        assert(products.take(end + 1).drop_last() =~= products.take(end));
        lemma_received_all_prefix(tool, products, end + 1);
    }
}

/// Whether `result` and `after` are `transmitted` of `tool`: the requests and the tool after them,
/// or a refusal that leaves `tool` as it is.
pub open spec fn transmits(
    tool: ToolView,
    transmitted: Result<(ToolView, Seq<RequestView>), StateView>,
    after: ToolView,
    result: Result<Vec<RequestObject>, TransmissionError>,
) -> bool {
    match (result, transmitted) {
        (Ok(requests), Ok((transmitted, views))) => {
            &&& after == transmitted
            &&& request_views(requests@) == views
        },
        (Err(TransmissionError::InvalidState(error)), Err(state)) => {
            &&& after == tool
            &&& error.state@ == state
        },
        _ => false,
    }
}

impl Tool {
    /// Creates a tool in `state`.
    fn in_state(state: State) -> (tool: Result<Self, CreateToolError>)
        ensures
            tool matches Ok(tool) && tool@ == ToolView::in_state(state@),
    {
        let requests = vec![RegistrationParams { registrations: vec![] }];
        proof {
            assert(requests@.drop_last() =~= Seq::empty());
            reveal_with_fuel(json_rpc::server_of, 2);
        }
        match Server::new(requests) {
            Ok(rpc_server) => {
                assert(rpc_server@ =~= ToolView::in_state(state@).server);
                Ok(Tool { rpc_client: Client::new(), rpc_server, state })
            },
            Err(error) => Err(CreateToolError::InsertRequest(error)),
        }
    }

    /// Creates a new [`Tool`].
    pub fn new(root_dir: Url) -> (tool: Result<Self, CreateToolError>)
        ensures
            tool matches Ok(tool) && tool@ == ToolView::in_state(
                StateView::Uninitialized { root_dir },
            ),
    {
        Tool::in_state(State::Uninitialized { root_dir })
    }

    /// Creates a new [`Tool`] that is already waiting to exit.
    pub fn new_finished() -> (tool: Result<Self, CreateToolError>)
        ensures
            tool matches Ok(tool) && tool@ == ToolView::in_state(StateView::WaitingExit),
    {
        Tool::in_state(State::WaitingExit)
    }

    /// Sends `directives` whatever the state, and returns the requests to be written to the LSP
    /// server.
    fn send(&mut self, directives: Vec<Directive>) -> (requests: Result<
        Vec<RequestObject>,
        TransmissionError,
    >)
        ensures
            requests matches Ok(requests) && old(self)@.sending(directives@) == (
                final(self)@,
                request_views(requests@),
            ),
    {
        let ghost taken = directives@;
        let running = matches!(self.state, State::Running { .. });
        let mut request_objects: Vec<RequestObject> = Vec::new();
        let mut index: usize = 0;
        while index < directives.len()
            invariant
                index <= directives@.len(),
                directives@ == taken,
                running == (old(self).state@ is Running),
                self.rpc_server == old(self).rpc_server,
                (self.rpc_client@, request_views(request_objects@)) == sent(
                    old(self).rpc_client@,
                    taken.take(index as int),
                ),
                self.state@ == if running && taken.take(index as int).contains(
                    Directive::Shutdown,
                ) {
                    StateView::WaitingShutdown
                } else {
                    old(self).state@
                },
            decreases directives@.len() - index,
        {
            let ghost before = request_objects@;
            if let Directive::Shutdown = directives[index] {
                if running {
                    self.state = State::WaitingShutdown;
                }
            }
            match directives[index].request(&mut self.rpc_client) {
                Ok(request_object) => request_objects.push(request_object),
                Err(error) => {
                    return Err(TransmissionError::from(error));
                },
            }
            proof {
                let done = taken.take(index + 1);
                assert(done.drop_last() =~= taken.take(index as int));
                assert(done =~= taken.take(index as int).push(taken[index as int]));
                assert(request_views(request_objects@) =~= request_views(before).push(
                    request_objects@.last()@,
                ));
                if taken[index as int] is Shutdown {
                    assert(done.last() == Directive::Shutdown);
                }
            }
            index += 1;
        }
        assert(taken.take(index as int) =~= taken);
        Ok(request_objects)
    }

    /// Takes `directives`, and returns the requests to be written to the LSP server.
    ///
    /// A tool that is shut down refuses them.
    ///
    /// `process_id` is the id of the current process.
    pub fn transmit(&mut self, mut directives: Vec<Directive>, process_id: u32) -> (requests: Result<
        Vec<RequestObject>,
        TransmissionError,
    >)
        ensures
            transmits(
                old(self)@,
                old(self)@.transmitted(directives@, process_id),
                final(self)@,
                requests,
            ),
    {
        let ghost taken = directives@;
        let mut request_objects: Vec<RequestObject> = Vec::new();
        match &mut self.state {
            State::Uninitialized { root_dir } => {
                match self.rpc_client.request(&initialize_params(root_dir, process_id)) {
                    Ok(request_object) => request_objects.push(request_object),
                    Err(error) => {
                        return Err(TransmissionError::from(error));
                    },
                }
                self.state = State::WaitingInitialization { directives };
            },
            State::WaitingInitialization { directives: pending_transmissions } => {
                pending_transmissions.append(&mut directives);
            },
            State::Running { .. } => {
                return self.send(directives);
            },
            State::WaitingShutdown | State::WaitingExit => {
                return Err(
                    TransmissionError::InvalidState(InvalidStateError { state: self.state.clone() }),
                );
            },
        }
        proof {
            let (tool, requests) = old(self)@.transmitted(taken, process_id)->Ok_0;
            assert(request_views(request_objects@) =~= requests);
            if let StateView::WaitingInitialization { directives } = self.state@ {
                assert(directives =~= tool.state->directives);
            }
        }
        Ok(request_objects)
    }

    /// Takes `directives` that the tool wanted to send itself, and returns the requests to be written
    /// to the LSP server.
    ///
    /// `process_id` is the id of the current process.
    pub fn transmit_own(&mut self, directives: Vec<Directive>, process_id: u32) -> (requests: Result<
        Vec<RequestObject>,
        TransmissionError,
    >)
        ensures
            transmits(
                old(self)@,
                old(self)@.transmitted_own(directives@, process_id),
                final(self)@,
                requests,
            ),
    {
        if self.is_waiting_exit() {
            self.send(directives)
        } else {
            self.transmit(directives, process_id)
        }
    }

    /// If the tool has handlers for `product`.
    pub fn recognizes<X>(&self, product: &Product<X>) -> (recognizes: bool)
        ensures
            recognizes == self@.recognizes(*product),
    {
        match product {
            Product::Output(message) => match &message.content.kind {
                Kind::Request(request) => self.rpc_server.handles(request),
                Kind::Response(response) => self.rpc_client.awaits(&response.id),
            },
            _ => true,
        }
    }

    /// Processes a reception from LSP server.
    pub fn process_reception<X>(&mut self, product: Product<X>) -> (reaction: Result<
        Reaction<X>,
        ReceptionError,
    >)
        ensures
            ({
                let (tool, received) = old(self)@.received(product);
                &&& final(self)@ == tool
                &&& received_view(reaction) == Some(received)
            }),
    {
        let mut response: Option<ResponseObject> = None;
        let mut events: Vec<Event<X>> = Vec::new();
        match product {
            Product::Output(message) => match Kind::from(message) {
                Kind::Request(request_object) => {
                    response = self.rpc_server.process_request(&mut self.state, request_object);
                },
                Kind::Response(response) => {
                    match self.rpc_client.process_response(&mut self.state, response) {
                        Ok(Some(event)) => events.push(event),
                        Ok(None) => {},
                        Err(error) => {
                            return Err(ReceptionError::ProcessResponse(error));
                        },
                    }
                },
            },
            Product::Error(_) => {},
            Product::Exit(status) => events.push(Event::from(status)),
        }
        let reaction = Reaction { response, events };
        proof {
            if let Received::Reaction(expected) = old(self)@.received(product).1 {
                assert(reaction@.events =~= expected.events);
            }
        }
        Ok(reaction)
    }

    /// Processes all receptions from LSP server, in order, until one fails.
    pub fn process_receptions<X>(&mut self, products: Vec<Product<X>>) -> (receptions: Receptions<X>)
        ensures
            receptions.follow(old(self)@, products@, final(self)@),
    {
        let mut reactions: Vec<Reaction<X>> = Vec::new();
        let ghost received = products@;
        let ghost mut done: int = 0;
        for product in products_iter: products
            invariant
                done == products_iter.index(),
                products_iter.seq() == received,
                old(self)@.received_all(received.take(done)) == (
                    self@,
                    reactions@.map_values(|reaction: Reaction<X>| reaction@),
                    None::<Received<X>>,
                ),
        {
            let ghost before = reactions@;
            let reaction = self.process_reception(product);
            proof {
                assert(received.take(done + 1).drop_last() =~= received.take(done));
                assert(received.take(done + 1).last() == product);
                done = done + 1;
            }
            match reaction {
                Ok(reaction) => {
                    reactions.push(reaction);
                    assert(reactions@.map_values(|reaction: Reaction<X>| reaction@)
                        =~= before.map_values(|reaction: Reaction<X>| reaction@).push(reaction@));
                },
                Err(error) => {
                    proof {
                        lemma_received_all_prefix(old(self)@, received, done);
                    }
                    return Receptions { reactions, outcome: Err(error) };
                },
            }
        }
        assert(received.take(done) =~= received);
        Receptions { reactions, outcome: Ok(()) }
    }

    /// If state of `self` is waiting exit.
    pub fn is_waiting_exit(&self) -> (waiting: bool)
        ensures
            waiting == (self@.state is WaitingExit),
    {
        matches!(self.state, State::WaitingExit)
    }
}

} // verus!
