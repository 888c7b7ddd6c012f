//! An interface with any number of language servers.
use lsp_types::{DocumentSymbolResponse, Url};
use vstd::prelude::*;

use crate::json;
use crate::json_rpc::{
    IdView, Kind, Outcome, ParamsView, RequestObject, RequestView, ResponseObject,
};
use crate::lifecycle;
use crate::lsp::{Directive, Event, EventView, InvalidStateError, StateView};
use crate::protocol;
use crate::protocol::{
    DidCloseTextDocumentParams, DidOpenTextDocumentParams, DocumentSymbolParams,
    TextDocumentIdentifier, TextDocumentItem,
};
use crate::requests;
use crate::tool;
use crate::tool::{
    CreateToolError, Product, Received, ReceptionError, Receptions, Tool, ToolView,
    TransmissionError,
};

verus! {

/// The languages supported by a tongue.
#[derive(Clone, Copy, Debug, Eq, PartialEq, Structural)]
#[non_exhaustive]
pub enum Language {
    /// Rust.
    Rust,
}

impl Language {
    /// The text of `self`.
    pub open spec fn text(self) -> Seq<char> {
        match self {
            Language::Rust => "rust"@,
        }
    }

    /// Returns the text of `self`.
    pub fn to_text(&self) -> (text: String)
        ensures
            text@ == self.text(),
    {
        match self {
            Language::Rust => "rust".to_owned(),
        }
    }
}

/// A communication to be sent to a language server.
#[derive(Debug, PartialEq)]
#[non_exhaustive]
pub enum Transmission {
    /// The tool opened `doc`.
    OpenDoc {
        /// The document that was opened.
        doc: TextDocumentItem,
    },
    /// The tool closed `doc`.
    CloseDoc {
        /// The document that was closed.
        doc: TextDocumentIdentifier,
    },
    /// The tool is requesting document symbols.
    GetDocumentSymbol {
        /// The document.
        doc: TextDocumentIdentifier,
    },
    /// The tool is shutting down the language server.
    Shutdown,
}

impl Transmission {
    /// The directive that `self` is to a language server.
    pub open spec fn directive(self) -> Directive {
        match self {
            Transmission::OpenDoc { doc } => Directive::OpenDoc(
                DidOpenTextDocumentParams { text_document: doc },
            ),
            Transmission::CloseDoc { doc } => Directive::CloseDoc(
                DidCloseTextDocumentParams { text_document: doc },
            ),
            Transmission::GetDocumentSymbol { doc } => Directive::DocumentSymbol(
                DocumentSymbolParams { text_document: doc },
            ),
            Transmission::Shutdown => Directive::Shutdown,
        }
    }

    /// Creates a `didClose` [`Transmission`].
    pub fn close_doc(doc: TextDocumentIdentifier) -> (transmission: Self)
        ensures
            transmission == (Transmission::CloseDoc { doc }),
    {
        Transmission::CloseDoc { doc }
    }

    /// Returns the language of `self`.
    pub fn language(&self) -> (language: Option<Language>)
        ensures
            language == Some(Language::Rust),
    {
        Some(Language::Rust)
    }
}

impl From<Transmission> for Directive {
    fn from(transmission: Transmission) -> (directive: Self)
        ensures
            match transmission {
                Transmission::OpenDoc { doc } => directive matches Directive::OpenDoc(params)
                    && params.text_document == doc,
                Transmission::CloseDoc { doc } => directive matches Directive::CloseDoc(params)
                    && params.text_document == doc,
                Transmission::GetDocumentSymbol { doc } => {
                    directive matches Directive::DocumentSymbol(params) && params.text_document
                        == doc
                },
                Transmission::Shutdown => directive == Directive::Shutdown,
            },
    {
        match transmission {
            Transmission::OpenDoc { doc } => Directive::OpenDoc(
                DidOpenTextDocumentParams { text_document: doc },
            ),
            Transmission::CloseDoc { doc } => Directive::CloseDoc(
                DidCloseTextDocumentParams { text_document: doc },
            ),
            Transmission::GetDocumentSymbol { doc } => Directive::DocumentSymbol(
                DocumentSymbolParams { text_document: doc },
            ),
            Transmission::Shutdown => Directive::Shutdown,
        }
    }
}

impl vstd::std_specs::convert::FromSpecImpl<Transmission> for Directive {
    open spec fn obeys_from_spec() -> bool {
        true
    }

    open spec fn from_spec(transmission: Transmission) -> Self {
        transmission.directive()
    }
}

/// A communication received from a language server.
#[derive(Debug, PartialEq)]
pub enum Reception {
    /// The symbols in a document.
    DocumentSymbols(DocumentSymbolResponse),
}

impl Reception {
    /// The text of `self`.
    pub open spec fn text(self) -> Seq<char> {
        match self {
            Reception::DocumentSymbols(response) => protocol::document_symbols_debug_text(response),
        }
    }

    /// Returns the text of `self`.
    pub fn to_text(&self) -> (text: String)
        ensures
            text@ == self.text(),
    {
        match self {
            Reception::DocumentSymbols(response) => {
                protocol::document_symbols_to_debug_text(response)
            },
        }
    }
}

/// An error thrown by a tongue.
#[derive(Debug)]
pub enum TongueError {
    /// An error when creating a client.
    CreateTool(CreateToolError),
    /// An error when transmitting.
    Transmit(TransmissionError),
    /// An error when receiving.
    Receive(ReceptionError),
    /// The language tool is in an invalid state.
    InvalidState(InvalidStateError),
}

impl TongueError {
    /// Returns the text of `self`.
    pub fn to_text(&self) -> (text: String)
        ensures
            text@ == ""@,
    {
        "".to_owned()
    }
}

/// One of the translators of a tongue.
#[derive(Clone, Copy, Debug, Eq, PartialEq, Structural)]
pub enum Translator {
    /// The translator of Rust.
    Rust,
    /// The translator of everything else.
    Default,
}

impl Translator {
    /// The translator of `language`.
    pub open spec fn of(language: Option<Language>) -> Self {
        match language {
            Some(Language::Rust) => Translator::Rust,
            None => Translator::Default,
        }
    }

    /// Returns the translator of `language`.
    pub fn for_language(language: Option<Language>) -> (translator: Self)
        ensures
            translator == Translator::of(language),
    {
        match language {
            Some(Language::Rust) => Translator::Rust,
            None => Translator::Default,
        }
    }
}

/// What a tongue does next after an event.
#[derive(Debug, PartialEq)]
pub enum Action<X> {
    /// Write the requests to the language server of the event, in order.
    Write(Vec<RequestObject>),
    /// Hand on the reception.
    Receive(Reception),
    /// Report the status with which the language server exited.
    Report(X),
}

/// The translators of a tongue, each of which is the client of a language server.
pub struct Translators {
    /// The translator of Rust.
    rust: Tool,
    /// The translator of everything else.
    other: Tool,
}

/// What [`Translators`] hold.
pub struct TranslatorsView {
    /// The translator of Rust.
    pub rust: ToolView,
    /// The translator of everything else.
    pub other: ToolView,
}

impl View for Translators {
    type V = TranslatorsView;

    closed spec fn view(&self) -> TranslatorsView {
        TranslatorsView { rust: self.rust@, other: self.other@ }
    }
}

impl TranslatorsView {
    /// The translators for a workspace at `root_dir`, of which only that of Rust has a server.
    pub open spec fn at(root_dir: Url) -> Self {
        TranslatorsView {
            rust: ToolView::in_state(StateView::Uninitialized { root_dir }),
            other: ToolView::in_state(StateView::WaitingExit),
        }
    }

    /// The tool that is `translator`.
    pub open spec fn tool(self, translator: Translator) -> ToolView {
        match translator {
            Translator::Rust => self.rust,
            Translator::Default => self.other,
        }
    }

    /// The translators once `tool` is `translator`.
    pub open spec fn with(self, translator: Translator, tool: ToolView) -> Self {
        match translator {
            Translator::Rust => TranslatorsView { rust: tool, other: self.other },
            Translator::Default => TranslatorsView { rust: self.rust, other: tool },
        }
    }

    /// Whether every translator waits for its server to exit.
    pub open spec fn finished(self) -> bool {
        self.rust.state is WaitingExit && self.other.state is WaitingExit
    }
}

impl Translators {
    /// Creates the translators for a workspace at `root_dir`.
    pub fn new(root_dir: Url) -> (translators: Result<Self, TongueError>)
        ensures
            translators matches Ok(translators) && translators@ == TranslatorsView::at(root_dir),
    {
        let other = match Tool::new_finished() {
            Ok(tool) => tool,
            Err(error) => {
                return Err(TongueError::CreateTool(error));
            },
        };
        let rust = match Tool::new(root_dir) {
            Ok(tool) => tool,
            Err(error) => {
                return Err(TongueError::CreateTool(error));
            },
        };
        Ok(Translators { rust, other })
    }

    /// If every translator waits for its server to exit.
    pub fn is_finished(&self) -> (finished: bool)
        ensures
            finished == self@.finished(),
    {
        self.rust.is_waiting_exit() && self.other.is_waiting_exit()
    }

    /// Converts `transmission` and hands it to the translator of its language.
    ///
    /// Returns that translator with the requests to be written to its server.
    pub fn transmit(&mut self, transmission: Transmission, process_id: u32) -> (requests: Result<
        (Translator, Vec<RequestObject>),
        TongueError,
    >)
        ensures
            final(self)@.other == old(self)@.other,
            match requests {
                Ok((translator, requests)) => {
                    &&& translator == Translator::Rust
                    &&& tool::transmits(
                        old(self)@.rust,
                        old(self)@.rust.transmitted(seq![transmission.directive()], process_id),
                        final(self)@.rust,
                        Ok(requests),
                    )
                },
                Err(TongueError::Transmit(error)) => tool::transmits(
                    old(self)@.rust,
                    old(self)@.rust.transmitted(seq![transmission.directive()], process_id),
                    final(self)@.rust,
                    Err(error),
                ),
                Err(_) => false,
            },
    {
        let translator = Translator::for_language(transmission.language());
        let directives = vec![Directive::from(transmission)];
        assert(directives@ =~= seq![transmission.directive()]);
        let requests = match translator {
            Translator::Rust => self.rust.transmit(directives, process_id),
            Translator::Default => self.other.transmit(directives, process_id),
        };
        match requests {
            Ok(requests) => Ok((translator, requests)),
            Err(error) => Err(TongueError::Transmit(error)),
        }
    }

    /// If `translator` has handlers for `product` of its server.
    pub fn recognizes<X>(&self, translator: Translator, product: &Product<X>) -> (recognizes: bool)
        ensures
            recognizes == self@.tool(translator).recognizes(*product),
    {
        match translator {
            Translator::Rust => self.rust.recognizes(product),
            Translator::Default => self.other.recognizes(product),
        }
    }

    /// Has `translator` process `products` of its server, in order, until one fails.
    pub fn receive<X>(&mut self, translator: Translator, products: Vec<Product<X>>) -> (receptions:
        Receptions<X>)
        ensures
            receptions.follow(
                old(self)@.tool(translator),
                products@,
                final(self)@.tool(translator),
            ),
            final(self)@ == old(self)@.with(translator, final(self)@.tool(translator)),
    {
        match translator {
            Translator::Rust => self.rust.process_receptions(products),
            Translator::Default => self.other.process_receptions(products),
        }
    }

    /// Decides what follows from `event` of `translator`.
    ///
    /// `process_id` is the id of the current process.
    pub fn react<X>(&mut self, translator: Translator, event: Event<X>, process_id: u32) -> (action:
        Result<Action<X>, TongueError>)
        ensures
            match event {
                Event::SendDirectives(directives) => {
                    let before = old(self)@.tool(translator);
                    let after = final(self)@.tool(translator);
                    let transmitted = before.transmitted_own(directives@, process_id);
                    &&& final(self)@ == old(self)@.with(translator, after)
                    &&& match action {
                        Ok(Action::Write(requests)) => tool::transmits(
                            before,
                            transmitted,
                            after,
                            Ok(requests),
                        ),
                        Err(TongueError::Transmit(error)) => tool::transmits(
                            before,
                            transmitted,
                            after,
                            Err(error),
                        ),
                        _ => false,
                    }
                },
                Event::Error(error) => {
                    &&& final(self)@ == old(self)@
                    &&& action matches Err(TongueError::InvalidState(thrown)) && thrown == error
                },
                Event::DocumentSymbol(symbols) => {
                    &&& final(self)@ == old(self)@
                    &&& action matches Ok(Action::Receive(Reception::DocumentSymbols(received)))
                        && received == symbols
                },
                Event::Exit(status) => {
                    &&& final(self)@ == old(self)@
                    &&& action matches Ok(Action::Report(reported)) && reported == status
                },
            },
    {
        match event {
            Event::SendDirectives(directives) => {
                let requests = match translator {
                    Translator::Rust => self.rust.transmit_own(directives, process_id),
                    Translator::Default => self.other.transmit_own(directives, process_id),
                };
                match requests {
                    Ok(requests) => Ok(Action::Write(requests)),
                    Err(error) => Err(TongueError::Transmit(error)),
                }
            },
            Event::Error(error) => Err(TongueError::InvalidState(error)),
            Event::DocumentSymbol(symbols) => {
                Ok(Action::Receive(Reception::DocumentSymbols(symbols)))
            },
            Event::Exit(status) => Ok(Action::Report(status)),
        }
    }
}

/// The directives of `transmissions`.
pub open spec fn directives_of(transmissions: Seq<Transmission>) -> Seq<Directive> {
    transmissions.map_values(|transmission: Transmission| transmission.directive())
}

/// The directives of `transmissions`, handed over one at a time.
pub open spec fn one_by_one(transmissions: Seq<Transmission>) -> Seq<Seq<Directive>> {
    transmissions.map_values(|transmission: Transmission| seq![transmission.directive()])
}

/// The directives that are handed over one at a time are those of the transmissions, in order.
proof fn lemma_one_by_one(transmissions: Seq<Transmission>)
    ensures
        lifecycle::joined(one_by_one(transmissions)) == directives_of(transmissions),
    decreases transmissions.len(),
{
    let directives = directives_of(transmissions);
    if transmissions.len() > 0 {
        let before = transmissions.drop_last();
        lemma_one_by_one(before);
        assert(one_by_one(transmissions).drop_last() =~= one_by_one(before));
        assert(lifecycle::joined(one_by_one(transmissions)) =~= directives);
    } else {
        assert(lifecycle::joined(one_by_one(transmissions)) =~= directives);
    }
}

/// Whatever is transmitted before the Rust server confirms its initialization, the server first gets
/// the request to initialize and nothing else, and, once it confirms, that the client is initialized
/// and then every transmission, in order.
pub proof fn law_transmissions_reach_the_server_in_order<X>(
    root_dir: Url,
    transmissions: Seq<Transmission>,
    response: ResponseObject,
    message: Product<X>,
    process_id: u32,
)
    requires
        transmissions.len() > 0,
        response.id@ == IdView::of(1),
        response.outcome matches Outcome::Result(value) && protocol::initialize_result_of(
            json::json_of(value),
        ) is Ok,
        message matches Product::Output(message) && message.content.kind == Kind::Response(response),
    ensures
        ({
            let tool = TranslatorsView::at(root_dir).tool(Translator::Rust);
            let result = lifecycle::transmitted_all(tool, one_by_one(transmissions), process_id);
            &&& result matches Ok((waiting, requests))
            &&& requests.len() == 1
            &&& requests[0].method == "initialize"@
            &&& requests[0].id == Some(IdView::of(1))
            &&& waiting.received(message) matches (
                confirmed,
                Received::Reaction(reaction),
            )
            &&& reaction.response is None
            &&& reaction.events.len() == 1
            &&& reaction.events[0] matches EventView::SendDirectives(directives)
            &&& directives == seq![Directive::Initialized] + directives_of(transmissions)
            &&& confirmed.state is Running
            &&& confirmed.transmitted_own(directives, process_id) matches Ok((running, requests))
            &&& requests == tool::sent(confirmed.client, directives).1
            &&& requests.len() == transmissions.len() + 1
            &&& requests[0] == RequestView::of("initialized"@, json::Json::Null, None)
            &&& forall|i: int|
                0 <= i < transmissions.len() ==> (#[trigger] requests[i + 1]).params
                    == ParamsView::of(transmissions[i].directive().value())
                    && requests[i + 1].method == transmissions[i].directive().method()
            &&& if transmissions.contains(Transmission::Shutdown) {
                running.state is WaitingShutdown
            } else {
                running.state is Running
            }
        }),
{
    let tool = TranslatorsView::at(root_dir).rust;
    let batches = one_by_one(transmissions);
    lemma_one_by_one(transmissions);
    lifecycle::law_first_transmission_initializes_the_server(root_dir, batches, process_id);
    let (waiting, requests) = lifecycle::transmitted_all(tool, batches, process_id)->Ok_0;
    lifecycle::law_confirmed_tool_sends_what_was_kept(waiting, response, 1, message, process_id);
    let directives = seq![Directive::Initialized] + directives_of(transmissions);
    assert forall|i: int| 0 <= i < transmissions.len() implies directives_of(transmissions)[i]
        == #[trigger] transmissions[i].directive() by {
    }
    if directives.contains(Directive::Shutdown) {
        let i = directives.index_of(Directive::Shutdown);
        assert(directives[i] == Directive::Shutdown);
        assert(transmissions[i - 1].directive() == Directive::Shutdown);
        assert(transmissions[i - 1] == Transmission::Shutdown);
    }
    if transmissions.contains(Transmission::Shutdown) {
        let i = transmissions.index_of(Transmission::Shutdown);
        assert(transmissions[i].directive() == Directive::Shutdown);
        assert(directives[i + 1] == Directive::Shutdown);
    }
}

/// A tongue whose translator of everything else has no server is finished when the translator of
/// Rust is, whatever the processes produce; a new tongue is not finished.
pub proof fn law_tongue_waits_for_the_rust_translator<X>(
    root_dir: Url,
    translators: TranslatorsView,
    product: Product<X>,
)
    requires
        translators.other.state is WaitingExit,
    ensures
        TranslatorsView::at(root_dir).other.state is WaitingExit,
        !TranslatorsView::at(root_dir).finished(),
        translators.finished() == (translators.rust.state is WaitingExit),
        translators.other.received(product).0.state is WaitingExit,
{
    lifecycle::law_finished_tool_stays_finished(translators.other, product);
}

/// Each transmission is the directive that says the same of the same document.
pub proof fn law_transmissions_say_the_same(transmission: Transmission)
    ensures
        match transmission {
            Transmission::OpenDoc { doc } => {
                transmission.directive() matches Directive::OpenDoc(params) && params.text_document
                    == doc
            },
            Transmission::CloseDoc { doc } => {
                transmission.directive() matches Directive::CloseDoc(params) && params.text_document
                    == doc
            },
            Transmission::GetDocumentSymbol { doc } => {
                transmission.directive() matches Directive::DocumentSymbol(params)
                    && params.text_document == doc
            },
            Transmission::Shutdown => transmission.directive() == Directive::Shutdown,
        },
{
}

/// Rust has its own translator, and everything else another; what changes for one of them leaves the
/// other. A new tongue has a translator of Rust that has not initialized its server, and one of
/// everything else that has none, and it is finished when both wait for the exit.
pub proof fn law_translators_are_kept_apart(
    translators: TranslatorsView,
    tool: ToolView,
    root_dir: Url,
)
    ensures
        Translator::of(Some(Language::Rust)) == Translator::Rust,
        Translator::of(None) == Translator::Default,
        translators.tool(Translator::Rust) == translators.rust,
        translators.tool(Translator::Default) == translators.other,
        translators.with(Translator::Rust, tool).rust == tool,
        translators.with(Translator::Rust, tool).other == translators.other,
        translators.with(Translator::Default, tool).other == tool,
        translators.with(Translator::Default, tool).rust == translators.rust,
        TranslatorsView::at(root_dir).rust == ToolView::in_state(
            StateView::Uninitialized { root_dir },
        ),
        TranslatorsView::at(root_dir).other == ToolView::in_state(StateView::WaitingExit),
        translators.finished() <==> translators.rust.state is WaitingExit
            && translators.other.state is WaitingExit,
{
}

/// Transmissions to a running Rust server become one request each, at once: that the document was
/// opened, with all of it, that it was closed, that its symbols are wanted, or that the server shall
/// shut down.
pub proof fn law_transmissions_reach_a_running_server(
    tool: ToolView,
    transmission: Transmission,
    process_id: u32,
)
    requires
        tool.state is Running,
    ensures
        ({
            &&& tool.transmitted(seq![transmission.directive()], process_id) matches Ok((_, requests))
            &&& requests.len() == 1
            &&& match transmission {
                Transmission::OpenDoc { doc } => {
                    &&& requests[0].method == "textDocument/didOpen"@
                    &&& requests[0].params matches ParamsView::Object(fields)
                    &&& fields["textDocument"@] matches json::Json::Object(told)
                    &&& told["uri"@] == json::Json::String(protocol::url_text(doc.uri))
                    &&& told["languageId"@] == json::Json::String(doc.language_id@)
                    &&& told["version"@] == json::Json::Number(
                        json::JsonNumber::Integer(doc.version as int),
                    )
                    &&& told["text"@] == json::Json::String(doc.text@)
                },
                Transmission::CloseDoc { doc } => {
                    &&& requests[0].method == "textDocument/didClose"@
                    &&& requests[0].params matches ParamsView::Object(fields)
                    &&& fields["textDocument"@] matches json::Json::Object(told)
                    &&& told["uri"@] == json::Json::String(protocol::url_text(doc.uri))
                },
                Transmission::GetDocumentSymbol { doc } => {
                    &&& requests[0].method == "textDocument/documentSymbol"@
                    &&& requests[0].id is Some
                    &&& requests[0].params matches ParamsView::Object(fields)
                    &&& fields["textDocument"@] matches json::Json::Object(told)
                    &&& told["uri"@] == json::Json::String(protocol::url_text(doc.uri))
                },
                Transmission::Shutdown => {
                    &&& requests[0].method == "shutdown"@
                    &&& requests[0].params is Absent
                    &&& requests[0].id is Some
                },
            }
        }),
{
    let directives = seq![transmission.directive()];
    assert(directives[0] == transmission.directive());
    requests::law_running_tool_sends_what_is_transmitted(tool, directives, process_id);
    let sent = tool.transmitted(directives, process_id)->Ok_0.1;
    assert(sent[0].method == directives[0].method());
    match transmission {
        Transmission::OpenDoc { doc } => requests::law_opened_document_is_told_whole(doc),
        Transmission::CloseDoc { doc } => requests::law_document_is_told_by_its_uri(doc),
        Transmission::GetDocumentSymbol { doc } => requests::law_document_is_told_by_its_uri(doc),
        Transmission::Shutdown => {},
    }
}

/// The texts of languages and of receptions.
pub proof fn law_texts_of_receptions(symbols: DocumentSymbolResponse)
    ensures
        Language::Rust.text() == "rust"@,
        Reception::DocumentSymbols(symbols).text() == protocol::document_symbols_debug_text(symbols),
{
}

} // verus!
