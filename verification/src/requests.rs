//! What holds of every request that is sent to a language server.
use lsp_types::Url;
use vstd::prelude::*;

use crate::exchange;
use crate::json;
use crate::json::{Json, JsonNumber};
use crate::json_rpc::{ClientView, IdView, ParamsView, Request, RequestView};
use crate::lifecycle;
use crate::lsp::{
    Directive, ExitParams, InitializedParams, RequestHandler, ResponseHandlers, ShutdownParams,
    StateView,
};
use crate::protocol;
use crate::protocol::{
    DidCloseTextDocumentParams, DidOpenTextDocumentParams, DocumentSymbolParams, InitializeParams,
    RegistrationParams, TextDocumentIdentifier, TextDocumentItem,
};
use crate::tool;
use crate::tool::ToolView;

verus! {

/// The names of the fields of a document are distinct.
proof fn lemma_document_keys()
    ensures
        "uri"@.len() == 3,
        "text"@.len() == 4,
        "version"@.len() == 7,
        "languageId"@.len() == 10,
{
    reveal_strlit("uri");
    reveal_strlit("text");
    reveal_strlit("version");
    reveal_strlit("languageId");
}

/// The names of the fields of an initialization are distinct.
proof fn lemma_initialization_keys()
    ensures
        "rootUri"@.len() == 7,
        "processId"@.len() == 9,
        "capabilities"@.len() == 12,
        "documentSymbol"@.len() == 14,
        "synchronization"@.len() == 15,
{
    reveal_strlit("rootUri");
    reveal_strlit("processId");
    reveal_strlit("capabilities");
    reveal_strlit("documentSymbol");
    reveal_strlit("synchronization");
}

/// Each directive invokes its own method; only those that ask for symbols or for the shutdown are
/// owed a response.
pub proof fn law_directives_invoke_their_methods(directive: Directive)
    ensures
        match directive {
            Directive::Initialized => directive.method() == "initialized"@ && directive.value()
                == Json::Null && directive.response_handlers() is None,
            Directive::Shutdown => directive.method() == "shutdown"@ && directive.value()
                == Json::Null && directive.response_handlers() == Some(ResponseHandlers::Shutdown),
            Directive::Exit => directive.method() == "exit"@ && directive.value() == Json::Null
                && directive.response_handlers() is None,
            Directive::DocumentSymbol(params) => directive.method()
                == "textDocument/documentSymbol"@ && directive.value() == params.json()
                && directive.response_handlers() == Some(ResponseHandlers::DocumentSymbol),
            Directive::OpenDoc(params) => directive.method() == "textDocument/didOpen"@
                && directive.value() == params.json() && directive.response_handlers() is None,
            Directive::CloseDoc(params) => directive.method() == "textDocument/didClose"@
                && directive.value() == params.json() && directive.response_handlers() is None,
        },
{
}

/// The JSON value of an opened document is an object with nothing but the document, which is an
/// object with its URI, its language, its version and its whole text.
pub proof fn law_opened_document_is_told_whole(item: TextDocumentItem)
    ensures
        ({
            &&& (DidOpenTextDocumentParams { text_document: item }).json() matches Json::Object(
                fields,
            )
            &&& fields.dom() == set!["textDocument"@]
            &&& fields["textDocument"@] matches Json::Object(doc)
            &&& doc.dom() == set!["uri"@, "languageId"@, "version"@, "text"@]
            &&& doc["uri"@] == Json::String(protocol::url_text(item.uri))
            &&& doc["languageId"@] == Json::String(item.language_id@)
            &&& doc["version"@] == Json::Number(JsonNumber::Integer(item.version as int))
            &&& doc["text"@] == Json::String(item.text@)
        }),
{
    lemma_document_keys();
    let fields = (DidOpenTextDocumentParams { text_document: item }).json()->Object_0;
    let doc = fields["textDocument"@]->Object_0;
    assert(fields.dom() =~= set!["textDocument"@]);
    assert(doc.dom() =~= set!["uri"@, "languageId"@, "version"@, "text"@]);
}

/// The JSON value of a closed document, and that of a request for its symbols, is an object with
/// nothing but the document, which is an object with nothing but its URI.
pub proof fn law_document_is_told_by_its_uri(doc: TextDocumentIdentifier)
    ensures
        ({
            &&& (DidCloseTextDocumentParams { text_document: doc }).json() matches Json::Object(fields)
            &&& fields.dom() == set!["textDocument"@]
            &&& fields["textDocument"@] matches Json::Object(told)
            &&& told.dom() == set!["uri"@]
            &&& told["uri"@] == Json::String(protocol::url_text(doc.uri))
        }),
        ({
            &&& (DocumentSymbolParams { text_document: doc }).json() matches Json::Object(fields)
            &&& fields.dom() == set!["textDocument"@]
            &&& fields["textDocument"@] matches Json::Object(told)
            &&& told.dom() == set!["uri"@]
            &&& told["uri"@] == Json::String(protocol::url_text(doc.uri))
        }),
{
    let closed = (DidCloseTextDocumentParams { text_document: doc }).json()->Object_0;
    let asked = (DocumentSymbolParams { text_document: doc }).json()->Object_0;
    assert(closed.dom() =~= set!["textDocument"@]);
    assert(asked.dom() =~= set!["textDocument"@]);
    assert(closed["textDocument"@]->Object_0.dom() =~= set!["uri"@]);
    assert(asked["textDocument"@]->Object_0.dom() =~= set!["uri"@]);
}

/// A server is initialized with the id of the process and the root as they are given, and with no
/// capability but that of hierarchical symbols.
pub proof fn law_initialization_tells_process_and_root(root_dir: Url, process_id: u32)
    ensures
        ({
            &&& tool::initialize_params_spec(root_dir, process_id).json() matches Json::Object(fields)
            &&& fields.dom() == set!["processId"@, "rootUri"@, "capabilities"@]
            &&& fields["processId"@] == Json::Number(JsonNumber::Integer(process_id as int))
            &&& fields["rootUri"@] == Json::String(protocol::url_text(root_dir))
            &&& fields["capabilities"@] matches Json::Object(capabilities)
            &&& capabilities.dom() == set!["textDocument"@]
            &&& capabilities["textDocument"@] matches Json::Object(text_document)
            &&& text_document.dom() == set!["synchronization"@, "documentSymbol"@]
            &&& text_document["synchronization"@] == Json::Object(Map::empty())
            &&& text_document["documentSymbol"@] matches Json::Object(symbol)
            &&& symbol.dom() == set!["hierarchicalDocumentSymbolSupport"@]
            &&& symbol["hierarchicalDocumentSymbolSupport"@] == Json::Bool(true)
        }),
{
    lemma_initialization_keys();
    let fields = tool::initialize_params_spec(root_dir, process_id).json()->Object_0;
    let capabilities = fields["capabilities"@]->Object_0;
    let text_document = capabilities["textDocument"@]->Object_0;
    let symbol = text_document["documentSymbol"@]->Object_0;
    assert(fields.dom() =~= set!["processId"@, "rootUri"@, "capabilities"@]);
    assert(capabilities.dom() =~= set!["textDocument"@]);
    assert(text_document.dom() =~= set!["synchronization"@, "documentSymbol"@]);
    assert(symbol.dom() =~= set!["hierarchicalDocumentSymbolSupport"@]);
}

/// Where there is no process or no root, a server is told `null`.
pub proof fn law_initialization_tells_what_is_absent(params: InitializeParams)
    ensures
        ({
            &&& params.json() matches Json::Object(fields)
            &&& fields["processId"@] == match params.process_id {
                Some(process_id) => Json::Number(JsonNumber::Integer(process_id as int)),
                None => Json::Null,
            }
            &&& fields["rootUri"@] == match params.root_uri {
                Some(root_uri) => Json::String(protocol::url_text(root_uri)),
                None => Json::Null,
            }
        }),
{
    lemma_initialization_keys();
}

/// Registrations are told in order, each with its id, its method and, where there are any, its
/// options.
pub proof fn law_registrations_are_told_in_order(params: RegistrationParams, index: int)
    requires
        0 <= index < params.registrations@.len(),
    ensures
        ({
            let held = params.registrations@[index];
            &&& params.json() matches Json::Object(fields)
            &&& fields.dom() == set!["registrations"@]
            &&& fields["registrations"@] matches Json::Array(told)
            &&& told.len() == params.registrations@.len()
            &&& told[index] matches Json::Object(registration)
            &&& registration["id"@] == Json::String(held.id@)
            &&& registration["method"@] == Json::String(held.method@)
            &&& match held.register_options {
                Some(options) => {
                    &&& registration.dom() == set!["id"@, "method"@, "registerOptions"@]
                    &&& registration["registerOptions"@] == json::json_of(options)
                },
                None => registration.dom() == set!["id"@, "method"@],
            }
        }),
{
    reveal_strlit("id");
    reveal_strlit("method");
    reveal_strlit("registerOptions");
    let fields = params.json()->Object_0;
    assert(fields.dom() =~= set!["registrations"@]);
    assert("id"@.len() == 2 && "method"@.len() == 6 && "registerOptions"@.len() == 15);
    let told = fields["registrations"@]->Array_0;
    let registration = told[index]->Object_0;
    assert(told[index] == params.registrations@[index]@.json());
    if params.registrations@[index].register_options is Some {
        assert(registration.dom() =~= set!["id"@, "method"@, "registerOptions"@]);
    } else {
        assert(registration.dom() =~= set!["id"@, "method"@]);
    }
}

/// The parameters of a request are those of its type, whole; a method without parameters has `null`.
/// A request is answered where its type says so, and only registrations are served.
pub proof fn law_requests_invoke_their_methods(
    initialize: InitializeParams,
    symbol: DocumentSymbolParams,
    open: DidOpenTextDocumentParams,
    close: DidCloseTextDocumentParams,
    registration: RegistrationParams,
)
    ensures
        initialize.method_spec() == "initialize"@,
        initialize.params_spec() == Ok::<Json, Seq<char>>(initialize.json()),
        initialize.response_handlers_spec() == Some(ResponseHandlers::Initialize),
        symbol.method_spec() == "textDocument/documentSymbol"@,
        symbol.params_spec() == Ok::<Json, Seq<char>>(symbol.json()),
        symbol.response_handlers_spec() == Some(ResponseHandlers::DocumentSymbol),
        open.method_spec() == "textDocument/didOpen"@,
        open.params_spec() == Ok::<Json, Seq<char>>(open.json()),
        open.response_handlers_spec() == None::<ResponseHandlers>,
        close.method_spec() == "textDocument/didClose"@,
        close.params_spec() == Ok::<Json, Seq<char>>(close.json()),
        close.response_handlers_spec() == None::<ResponseHandlers>,
        ShutdownParams.method_spec() == "shutdown"@,
        ShutdownParams.params_spec() == Ok::<Json, Seq<char>>(Json::Null),
        ShutdownParams.response_handlers_spec() == Some(ResponseHandlers::Shutdown),
        InitializedParams.method_spec() == "initialized"@,
        InitializedParams.params_spec() == Ok::<Json, Seq<char>>(Json::Null),
        InitializedParams.response_handlers_spec() == None::<ResponseHandlers>,
        ExitParams.method_spec() == "exit"@,
        ExitParams.params_spec() == Ok::<Json, Seq<char>>(Json::Null),
        ExitParams.response_handlers_spec() == None::<ResponseHandlers>,
        registration.method_spec() == "client/registerCapability"@,
        registration.params_spec() == Ok::<Json, Seq<char>>(registration.json()),
        registration.response_handlers_spec() == Some(ResponseHandlers::Registration),
        registration.method_handlers_spec().0 == Some(RequestHandler::RegisterCapability),
        registration.method_handlers_spec().1 is None,
{
}

/// A running tool sends everything that it is given at once and in order: one request per directive,
/// with its method and its parameters, and with an id if and only if a response is due. It waits for
/// the shutdown if that is among them, and is otherwise as before but for what it waits for.
pub proof fn law_running_tool_sends_what_is_transmitted(
    tool: ToolView,
    directives: Seq<Directive>,
    process_id: u32,
)
    requires
        tool.state is Running,
    ensures
        ({
            &&& tool.transmitted(directives, process_id) matches Ok((after, requests))
            &&& requests.len() == directives.len()
            &&& forall|i: int|
                0 <= i < directives.len() ==> {
                    let request = #[trigger] requests[i];
                    &&& request.method == directives[i].method()
                    &&& request.params == ParamsView::of(directives[i].value())
                    &&& request.id is Some == (directives[i] is DocumentSymbol
                        || directives[i] is Shutdown)
                }
            &&& after.server == tool.server
            &&& after.state == if directives.contains(Directive::Shutdown) {
                StateView::WaitingShutdown
            } else {
                tool.state
            }
        }),
    decreases directives.len(),
{
    lifecycle::law_requests_follow_the_directives(tool.client, directives);
    let requests = tool::sent(tool.client, directives).1;
    assert forall|i: int| 0 <= i < directives.len() implies {
        let request = #[trigger] requests[i];
        &&& request.method == directives[i].method()
        &&& request.params == ParamsView::of(directives[i].value())
        &&& request.id is Some == (directives[i] is DocumentSymbol || directives[i] is Shutdown)
    } by {
        let request = requests[i];
        let id = choose|id: Option<u64>|
            request == #[trigger] RequestView::of(directives[i].method(), directives[i].value(), id);
    }
}

/// Sending goes directive by directive: each is requested of the client that the ones before leave,
/// and nothing is sent where there is nothing to send.
pub proof fn law_directives_are_sent_one_by_one(
    client: ClientView<ResponseHandlers>,
    directives: Seq<Directive>,
    directive: Directive,
)
    ensures
        tool::sent(client, Seq::empty()) == (client, Seq::<RequestView>::empty()),
        ({
            let (before, requests) = tool::sent(client, directives);
            let (after, more) = tool::sent(client, directives.push(directive));
            &&& more.len() == requests.len() + 1
            &&& more.take(requests.len() as int) == requests
            &&& more.last().method == directive.method()
            &&& more.last().params == ParamsView::of(directive.value())
            &&& match directive.response_handlers() {
                Some(handlers) => {
                    &&& before.requested(Some(handlers)) matches (expected, Some(id))
                    &&& after == expected
                    &&& more.last().id == Some(IdView::Num(JsonNumber::Integer(id as int)))
                },
                None => after == before && more.last().id is None,
            }
        }),
{
    assert(directives.push(directive).drop_last() =~= directives);
    let requests = tool::sent(client, directives).1;
    let more = tool::sent(client, directives.push(directive)).1;
    assert(more.take(requests.len() as int) =~= requests);
}

/// A running tool tells its server that a document was opened, with its URI, its language, its
/// version and its whole text; it expects no response.
pub proof fn law_running_tool_tells_that_a_document_was_opened(
    tool: ToolView,
    item: TextDocumentItem,
    process_id: u32,
)
    requires
        tool.state is Running,
    ensures
        ({
            let directive = Directive::OpenDoc(DidOpenTextDocumentParams { text_document: item });
            &&& tool.transmitted(seq![directive], process_id) matches Ok((after, requests))
            &&& after == tool
            &&& requests.len() == 1
            &&& requests[0].method == "textDocument/didOpen"@
            &&& requests[0].id is None
            &&& requests[0].params matches ParamsView::Object(fields)
            &&& fields.dom() == set!["textDocument"@]
            &&& fields["textDocument"@] matches Json::Object(doc)
            &&& doc.dom() == set!["uri"@, "languageId"@, "version"@, "text"@]
            &&& doc["uri"@] == Json::String(protocol::url_text(item.uri))
            &&& doc["languageId"@] == Json::String(item.language_id@)
            &&& doc["version"@] == Json::Number(JsonNumber::Integer(item.version as int))
            &&& doc["text"@] == Json::String(item.text@)
        }),
{
    let directive = Directive::OpenDoc(DidOpenTextDocumentParams { text_document: item });
    law_opened_document_is_told_whole(item);
    lemma_one_directive_is_sent(tool, directive, process_id);
}

/// A running tool tells its server that a document was closed, by its URI; it expects no response.
pub proof fn law_running_tool_tells_that_a_document_was_closed(
    tool: ToolView,
    doc: TextDocumentIdentifier,
    process_id: u32,
)
    requires
        tool.state is Running,
    ensures
        ({
            let directive = Directive::CloseDoc(DidCloseTextDocumentParams { text_document: doc });
            &&& tool.transmitted(seq![directive], process_id) matches Ok((after, requests))
            &&& after == tool
            &&& requests.len() == 1
            &&& requests[0].method == "textDocument/didClose"@
            &&& requests[0].id is None
            &&& requests[0].params matches ParamsView::Object(fields)
            &&& fields.dom() == set!["textDocument"@]
            &&& fields["textDocument"@] matches Json::Object(told)
            &&& told.dom() == set!["uri"@]
            &&& told["uri"@] == Json::String(protocol::url_text(doc.uri))
        }),
{
    let directive = Directive::CloseDoc(DidCloseTextDocumentParams { text_document: doc });
    law_document_is_told_by_its_uri(doc);
    lemma_one_directive_is_sent(tool, directive, process_id);
}

/// A running tool asks its server for the symbols of a document, by its URI, and waits for them.
pub proof fn law_running_tool_asks_for_symbols(
    tool: ToolView,
    doc: TextDocumentIdentifier,
    process_id: u32,
)
    requires
        tool.state is Running,
        tool.client.awaiting.dom().finite(),
        tool.client.awaiting.dom().len() < 0x1_0000_0000_0000_0000,
    ensures
        ({
            let directive = Directive::DocumentSymbol(DocumentSymbolParams { text_document: doc });
            &&& tool.transmitted(seq![directive], process_id) matches Ok((after, requests))
            &&& after.state == tool.state
            &&& requests.len() == 1
            &&& requests[0].method == "textDocument/documentSymbol"@
            &&& requests[0].params matches ParamsView::Object(fields)
            &&& fields.dom() == set!["textDocument"@]
            &&& fields["textDocument"@] matches Json::Object(told)
            &&& told.dom() == set!["uri"@]
            &&& told["uri"@] == Json::String(protocol::url_text(doc.uri))
            &&& requests[0].id matches Some(IdView::Num(JsonNumber::Integer(id)))
            &&& 0 <= id <= u64::MAX
            &&& !tool.client.awaiting.contains_key(id as u64)
            &&& after.client.awaiting == tool.client.awaiting.insert(
                id as u64,
                ResponseHandlers::DocumentSymbol,
            )
        }),
{
    let directive = Directive::DocumentSymbol(DocumentSymbolParams { text_document: doc });
    law_document_is_told_by_its_uri(doc);
    lemma_one_directive_is_sent(tool, directive, process_id);
    exchange::law_request_gets_a_fresh_id(tool.client, ResponseHandlers::DocumentSymbol);
}

/// A running tool asks its server to shut down, and waits for it to be confirmed.
pub proof fn law_running_tool_asks_for_the_shutdown(tool: ToolView, process_id: u32)
    requires
        tool.state is Running,
        tool.client.awaiting.dom().finite(),
        tool.client.awaiting.dom().len() < 0x1_0000_0000_0000_0000,
    ensures
        ({
            &&& tool.transmitted(seq![Directive::Shutdown], process_id) matches Ok((after, requests))
            &&& after.state is WaitingShutdown
            &&& requests.len() == 1
            &&& requests[0].method == "shutdown"@
            &&& requests[0].params is Absent
            &&& requests[0].id matches Some(IdView::Num(JsonNumber::Integer(id)))
            &&& 0 <= id <= u64::MAX
            &&& !tool.client.awaiting.contains_key(id as u64)
            &&& after.client.awaiting == tool.client.awaiting.insert(
                id as u64,
                ResponseHandlers::Shutdown,
            )
        }),
{
    lemma_one_directive_is_sent(tool, Directive::Shutdown, process_id);
    assert(seq![Directive::Shutdown][0] == Directive::Shutdown);
    exchange::law_request_gets_a_fresh_id(tool.client, ResponseHandlers::Shutdown);
}

/// A running tool that is given one directive sends one request.
proof fn lemma_one_directive_is_sent(tool: ToolView, directive: Directive, process_id: u32)
    requires
        tool.state is Running,
    ensures
        ({
            let (client, id) = tool.client.requested(directive.response_handlers());
            &&& tool.transmitted(seq![directive], process_id) matches Ok((after, requests))
            &&& requests == seq![RequestView::of(directive.method(), directive.value(), id)]
            &&& after.client == client
            &&& after.server == tool.server
            &&& after.state == if directive == Directive::Shutdown {
                StateView::WaitingShutdown
            } else {
                tool.state
            }
        }),
{
    let directives = seq![directive];
    let (client, id) = tool.client.requested(directive.response_handlers());
    let request = RequestView::of(directive.method(), directive.value(), id);
    assert(directives.drop_last() =~= Seq::empty());
    assert(tool::sent(tool.client, directives.drop_last()) == (
        tool.client,
        Seq::<RequestView>::empty(),
    ));
    assert(Seq::<RequestView>::empty().push(request) =~= seq![request]);
    assert(directives[0] == directive);
    if directives.contains(Directive::Shutdown) {
        assert(directive == Directive::Shutdown);
    }
}

/// The first that a tool is given has it initialize its server, with the id of the process and the
/// root as they are, and with support for hierarchical symbols; what it was given is kept.
pub proof fn law_new_tool_asks_for_the_initialization(
    tool: ToolView,
    root_dir: Url,
    directives: Seq<Directive>,
    process_id: u32,
)
    requires
        tool.state == (StateView::Uninitialized { root_dir }),
        tool.client.awaiting.dom().finite(),
        tool.client.awaiting.dom().len() < 0x1_0000_0000_0000_0000,
    ensures
        ({
            &&& tool.transmitted(directives, process_id) matches Ok((after, requests))
            &&& after.state == StateView::WaitingInitialization { directives }
            &&& after.server == tool.server
            &&& requests.len() == 1
            &&& requests[0].method == "initialize"@
            &&& requests[0].params matches ParamsView::Object(fields)
            &&& fields.dom() == set!["processId"@, "rootUri"@, "capabilities"@]
            &&& fields["processId"@] == Json::Number(JsonNumber::Integer(process_id as int))
            &&& fields["rootUri"@] == Json::String(protocol::url_text(root_dir))
            &&& fields["capabilities"@] matches Json::Object(capabilities)
            &&& capabilities.dom() == set!["textDocument"@]
            &&& capabilities["textDocument"@] matches Json::Object(text_document)
            &&& text_document.dom() == set!["synchronization"@, "documentSymbol"@]
            &&& text_document["synchronization"@] == Json::Object(Map::empty())
            &&& text_document["documentSymbol"@] matches Json::Object(symbol)
            &&& symbol.dom() == set!["hierarchicalDocumentSymbolSupport"@]
            &&& symbol["hierarchicalDocumentSymbolSupport"@] == Json::Bool(true)
            &&& requests[0].id matches Some(IdView::Num(JsonNumber::Integer(id)))
            &&& 0 <= id <= u64::MAX
            &&& !tool.client.awaiting.contains_key(id as u64)
            &&& after.client.awaiting == tool.client.awaiting.insert(
                id as u64,
                ResponseHandlers::Initialize,
            )
        }),
{
    law_initialization_tells_process_and_root(root_dir, process_id);
    exchange::law_request_gets_a_fresh_id(tool.client, ResponseHandlers::Initialize);
}

/// Until the initialization is confirmed, nothing is sent and everything is kept behind what was
/// kept before.
pub proof fn law_waiting_tool_keeps_what_is_transmitted(
    tool: ToolView,
    kept: Seq<Directive>,
    directives: Seq<Directive>,
    process_id: u32,
)
    requires
        tool.state == (StateView::WaitingInitialization { directives: kept }),
    ensures
        ({
            &&& tool.transmitted(directives, process_id) matches Ok((after, requests))
            &&& after.state matches StateView::WaitingInitialization { directives: keeps }
            &&& keeps.len() == kept.len() + directives.len()
            &&& forall|i: int| 0 <= i < kept.len() ==> #[trigger] keeps[i] == kept[i]
            &&& forall|i: int|
                0 <= i < directives.len() ==> keeps[kept.len() + i] == #[trigger] directives[i]
            &&& after.client == tool.client
            &&& after.server == tool.server
            &&& requests.len() == 0
        }),
{
}

/// Every request that is owed a response is waited for by the handlers of its directive under its
/// own id, and what was waited for before still is.
pub proof fn law_sent_requests_are_waited_for(
    client: ClientView<ResponseHandlers>,
    directives: Seq<Directive>,
)
    requires
        client.awaiting.dom().finite(),
        client.awaiting.dom().len() + directives.len() < 0x1_0000_0000_0000_0000,
    ensures
        ({
            let (after, requests) = tool::sent(client, directives);
            &&& after.awaiting.dom().finite()
            &&& after.awaiting.dom().len() <= client.awaiting.dom().len() + directives.len()
            &&& forall|id: u64| #[trigger]
                client.awaiting.contains_key(id) ==> after.awaiting.contains_key(id)
                    && after.awaiting[id] == client.awaiting[id]
            &&& forall|i: int|
                0 <= i < directives.len() && directives[i].response_handlers() is Some ==> {
                    &&& (#[trigger] requests[i]).id matches Some(
                        IdView::Num(JsonNumber::Integer(id)),
                    )
                    &&& 0 <= id <= u64::MAX
                    &&& !client.awaiting.contains_key(id as u64)
                    &&& after.awaiting.contains_key(id as u64)
                    &&& Some(after.awaiting[id as u64]) == directives[i].response_handlers()
                }
        }),
    decreases directives.len(),
{
    if directives.len() > 0 {
        let earlier = directives.drop_last();
        law_sent_requests_are_waited_for(client, earlier);
        lifecycle::law_requests_follow_the_directives(client, earlier);
        let (before, sent) = tool::sent(client, earlier);
        let (after, requests) = tool::sent(client, directives);
        if let Some(handlers) = directives.last().response_handlers() {
            exchange::law_request_gets_a_fresh_id(before, handlers);
            let id = before.requested(Some(handlers)).1->Some_0;
            assert(after.awaiting.dom() =~= before.awaiting.dom().insert(id));
        }
        assert forall|i: int|
            0 <= i < directives.len() && directives[i].response_handlers() is Some implies {
            &&& (#[trigger] requests[i]).id matches Some(IdView::Num(JsonNumber::Integer(id)))
            &&& 0 <= id <= u64::MAX
            &&& !client.awaiting.contains_key(id as u64)
            &&& after.awaiting.contains_key(id as u64)
            &&& Some(after.awaiting[id as u64]) == directives[i].response_handlers()
        } by {
            if i < earlier.len() {
                assert(requests[i] == sent[i]);
                assert(earlier[i] == directives[i]);
            }
        }
    }
}

} // verus!
