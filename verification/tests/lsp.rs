use docuglot::error_message::ErrorMessage;
use docuglot::json_rpc::{
    ErrorObject, HandleRequest, HandleResponse, Id, Outcome, Params, PredefinedError,
    ProcessResponseError, Request, RequestObject, ResponseObject,
};
use docuglot::lsp::{
    Directive, Event, InvalidStateError, RequestHandler, ResponseHandlers, State,
};
use docuglot::message::Message;
use docuglot::protocol::{
    DidCloseTextDocumentParams, DidOpenTextDocumentParams, DocumentSymbolParams, Registration,
    RegistrationParams, TextDocumentIdentifier, TextDocumentItem,
};
use docuglot::tool::{
    initialize_params, CreateToolError, Product, Reaction, ReceptionError, Tool, TransmissionError,
    WriteError,
};
use lsp_types::Url;
use serde_json::Value;

/// Parses a JSON value.
fn json(text: &str) -> Value {
    serde_json::from_str(text).unwrap()
}

/// The URL of `name`.
fn url(name: &str) -> Url {
    Url::parse(&format!("file:///{}", name)).unwrap()
}

/// The document `name`.
fn doc(name: &str) -> TextDocumentIdentifier {
    TextDocumentIdentifier { uri: url(name) }
}

/// The directive that document `name` was closed.
fn close(name: &str) -> Directive {
    Directive::CloseDoc(DidCloseTextDocumentParams { text_document: doc(name) })
}

/// The directive that asks for the symbols of document `name`.
fn symbols(name: &str) -> Directive {
    Directive::DocumentSymbol(DocumentSymbolParams { text_document: doc(name) })
}

/// The directive that a document was opened.
fn open() -> Directive {
    Directive::OpenDoc(DidOpenTextDocumentParams {
        text_document: TextDocumentItem {
            uri: url("a.rs"),
            language_id: "rust".to_string(),
            version: -3,
            text: "fn \u{e9}() {}".to_string(),
        },
    })
}

/// The parameters of `request` as a value.
fn params(request: RequestObject) -> Value {
    Value::from(request.params)
}

/// A new tool.
fn new_tool() -> Tool {
    Tool::new(url("root")).unwrap()
}

/// Has `tool` receive the response `outcome` to the request of `id`.
fn answer(
    tool: &mut Tool,
    id: u64,
    outcome: Outcome,
) -> Result<Reaction<u8>, ReceptionError> {
    let response = ResponseObject { outcome, id: Id::from(id) };
    tool.process_reception(Product::from(Message::from(response)))
}

/// Has `tool` receive a request to register capabilities.
fn register(tool: &mut Tool, params: &str) -> Reaction<u8> {
    let request = RequestObject {
        method: "client/registerCapability".to_string(),
        params: Params::from(json(params)),
        id: Some(Id::Str("r".to_string())),
    };
    tool.process_reception(Product::from(Message::from(request))).unwrap()
}

/// The one event of `reaction`.
fn event(reaction: Reaction<u8>) -> Event<u8> {
    assert_eq!(reaction.response, None);
    let mut events = reaction.events;
    assert_eq!(events.len(), 1);
    events.remove(0)
}

/// A tool whose server has confirmed the initialization.
fn running_tool() -> Tool {
    let mut tool = new_tool();
    tool.transmit(vec![], 1).unwrap();
    let reaction = answer(&mut tool, 1, Outcome::Result(json("{\"capabilities\": {}}"))).unwrap();
    match event(reaction) {
        Event::SendDirectives(directives) => {
            assert_eq!(directives, vec![Directive::Initialized]);
            assert_eq!(tool.transmit(directives, 1).unwrap().len(), 1);
        }
        other => panic!("{:?}", other),
    }
    tool
}

/// The state in which `tool` refuses directives.
fn refusal(tool: &mut Tool) -> State {
    match tool.transmit(vec![Directive::Exit], 1) {
        Err(TransmissionError::InvalidState(error)) => error.state,
        other => panic!("{:?}", other),
    }
}

#[test]
fn first_transmission_initializes_the_server() {
    let mut tool = new_tool();
    let mut requests = tool.transmit(vec![open()], 42).unwrap();
    assert_eq!(requests.len(), 1);
    let request = requests.remove(0);
    assert_eq!(request.method, "initialize");
    assert_eq!(request.id, Some(Id::from(1)));
    assert_eq!(
        params(request),
        json(
            "{\"processId\": 42, \"rootUri\": \"file:///root\", \"capabilities\": {\
             \"textDocument\": {\"synchronization\": {}, \"documentSymbol\": {\
             \"hierarchicalDocumentSymbolSupport\": true}}}}"
        )
    );
    // Nothing more is sent until the server confirms.
    assert_eq!(tool.transmit(vec![close("a.rs"), Directive::Shutdown], 42).unwrap(), vec![]);
    assert!(!tool.is_waiting_exit());
}

#[test]
fn confirmed_tool_sends_what_was_kept() {
    let mut tool = new_tool();
    tool.transmit(vec![open(), symbols("a.rs")], 1).unwrap();
    tool.transmit(vec![], 1).unwrap();
    tool.transmit(vec![close("a.rs")], 1).unwrap();
    let reaction = answer(&mut tool, 1, Outcome::Result(json("{\"capabilities\": {}}"))).unwrap();
    let directives = match event(reaction) {
        Event::SendDirectives(directives) => directives,
        other => panic!("{:?}", other),
    };
    assert_eq!(
        directives,
        vec![Directive::Initialized, open(), symbols("a.rs"), close("a.rs")]
    );
    let requests = tool.transmit(directives, 1).unwrap();
    let methods: Vec<&str> = requests.iter().map(|request| request.method.as_str()).collect();
    assert_eq!(
        methods,
        vec![
            "initialized",
            "textDocument/didOpen",
            "textDocument/documentSymbol",
            "textDocument/didClose",
        ]
    );
    let ids: Vec<Option<Id>> = requests.into_iter().map(|request| request.id).collect();
    assert_eq!(ids, vec![None, None, Some(Id::from(2)), None]);
}

#[test]
fn running_tool_sends_at_once() {
    let mut tool = running_tool();
    let mut requests =
        tool.transmit(vec![open(), close("b.rs"), symbols("c.rs"), Directive::Exit], 1).unwrap();
    assert_eq!(requests.len(), 4);
    assert_eq!(params(requests.pop().unwrap()), Value::Null);
    assert_eq!(
        params(requests.pop().unwrap()),
        json("{\"textDocument\": {\"uri\": \"file:///c.rs\"}}")
    );
    assert_eq!(
        params(requests.pop().unwrap()),
        json("{\"textDocument\": {\"uri\": \"file:///b.rs\"}}")
    );
    assert_eq!(
        params(requests.pop().unwrap()),
        json(
            "{\"textDocument\": {\"uri\": \"file:///a.rs\", \"languageId\": \"rust\", \
             \"version\": -3, \"text\": \"fn \u{e9}() {}\"}}"
        )
    );
}

#[test]
fn result_of_the_initialization_may_be_wrong() {
    let mut tool = new_tool();
    tool.transmit(vec![open()], 1).unwrap();
    match answer(&mut tool, 1, Outcome::Result(json("{}"))) {
        Err(error) => {
            assert!(matches!(
                error,
                ReceptionError::ProcessResponse(ProcessResponseError::Serialize(_))
            ));
            assert_eq!(error.to_text(), "missing field `capabilities`");
        }
        Ok(reaction) => panic!("{:?}", reaction),
    }
    // The tool keeps waiting.
    assert_eq!(tool.transmit(vec![close("a.rs")], 1).unwrap(), vec![]);
}

#[test]
fn symbols_are_received() {
    let mut tool = running_tool();
    let requests = tool.transmit(vec![symbols("a.rs")], 1).unwrap();
    assert_eq!(requests[0].id, Some(Id::from(2)));
    match event(answer(&mut tool, 2, Outcome::Result(json("[]"))).unwrap()) {
        Event::DocumentSymbol(symbols) => {
            assert_eq!(serde_json::to_value(symbols).unwrap(), json("[]"));
        }
        other => panic!("{:?}", other),
    }
    tool.transmit(vec![symbols("a.rs")], 1).unwrap();
    let error = answer(&mut tool, 3, Outcome::Result(json("5"))).unwrap_err();
    assert_eq!(
        error.to_text(),
        "data did not match any variant of untagged enum DocumentSymbolResponse"
    );
}

#[test]
fn shutdown_is_followed_by_the_exit() {
    let mut tool = running_tool();
    // What follows a shutdown in the same transmission is sent too.
    let requests = tool.transmit(vec![Directive::Shutdown, close("a.rs")], 1).unwrap();
    assert_eq!(requests.len(), 2);
    assert_eq!(requests[0].method, "shutdown");
    assert_eq!(requests[1].method, "textDocument/didClose");
    assert_eq!(refusal(&mut tool), State::WaitingShutdown);

    let reaction = answer(&mut tool, 2, Outcome::Result(Value::Null)).unwrap();
    assert_eq!(event(reaction), Event::SendDirectives(vec![Directive::Exit]));
    assert!(tool.is_waiting_exit());
    // The directives of a client are refused, while the tool sends its own.
    assert_eq!(refusal(&mut tool), State::WaitingExit);
    let requests = tool.transmit_own(vec![Directive::Exit], 1).unwrap();
    assert_eq!(
        requests,
        vec![RequestObject { method: "exit".to_string(), params: Params::Absent, id: None }]
    );
    assert!(tool.is_waiting_exit());
}

#[test]
fn sent_shutdown_is_waited_for() {
    let mut tool = running_tool();
    let requests = tool.transmit_own(vec![symbols("a.rs"), Directive::Shutdown], 1).unwrap();
    assert_eq!(requests[0].id, Some(Id::from(2)));
    assert_eq!(requests[1].id, Some(Id::from(3)));
    assert_eq!(refusal(&mut tool), State::WaitingShutdown);
    // Only the exit is waited for without refusing anything.
    match tool.transmit_own(vec![Directive::Exit], 1) {
        Err(TransmissionError::InvalidState(error)) => {
            assert_eq!(error.state, State::WaitingShutdown);
        }
        other => panic!("{:?}", other),
    }
    // Before the initialization is confirmed, own directives are kept.
    let mut tool = new_tool();
    assert_eq!(tool.transmit_own(vec![Directive::Exit], 1).unwrap()[0].method, "initialize");
    assert_eq!(tool.transmit_own(vec![Directive::Exit], 1).unwrap(), vec![]);
}

#[test]
fn messages_are_recognized() {
    let mut tool = new_tool();
    let response = |id: Id| -> Product<u8> {
        Product::from(Message::from(ResponseObject { outcome: Outcome::Result(Value::Null), id }))
    };
    let request = |method: &str, id: Option<Id>| -> Product<u8> {
        Product::from(Message::from(RequestObject {
            method: method.to_string(),
            params: Params::Absent,
            id,
        }))
    };
    assert!(!tool.recognizes(&response(Id::from(1))));
    tool.transmit(vec![], 1).unwrap();
    assert!(tool.recognizes(&response(Id::from(1))));
    assert!(!tool.recognizes(&response(Id::from(2))));
    assert!(!tool.recognizes(&response(Id::Str("1".to_string()))));
    assert!(tool.recognizes(&request("client/registerCapability", Some(Id::from(1)))));
    assert!(!tool.recognizes(&request("client/registerCapability", None)));
    assert!(!tool.recognizes(&request("unknown", Some(Id::from(1)))));
    assert!(tool.recognizes(&Product::Exit(1)));
}

#[test]
fn receptions_are_processed_in_order() {
    let mut tool = new_tool();
    tool.transmit(vec![], 1).unwrap();
    let confirmation = ResponseObject {
        outcome: Outcome::Result(json("{\"capabilities\": {}}")),
        id: Id::from(1),
    };
    let registration = |id: u64| RequestObject {
        method: "client/registerCapability".to_string(),
        params: Params::from(json("{\"registrations\": []}")),
        id: Some(Id::from(id)),
    };
    let products: Vec<Product<u8>> = vec![
        Product::from(Message::from(registration(8))),
        Product::from(Message::from(confirmation)),
        Product::from(Message::from(registration(9))),
        Product::Exit(0),
    ];
    let receptions = tool.process_receptions(products);
    assert!(receptions.outcome.is_ok());
    let response = |outcome: Outcome, id: u64| Reaction {
        response: Some(ResponseObject { outcome, id: Id::from(id) }),
        events: vec![],
    };
    assert_eq!(
        receptions.reactions,
        vec![
            response(Outcome::invalid_state(), 8),
            Reaction {
                response: None,
                events: vec![Event::SendDirectives(vec![Directive::Initialized])],
            },
            response(Outcome::Result(Value::Null), 9),
            Reaction { response: None, events: vec![Event::Exit(0)] },
        ]
    );
    assert!(tool.process_receptions(Vec::<Product<u8>>::new()).reactions.is_empty());
}

#[test]
fn parsed_results_change_the_state() {
    let error = || serde_json::from_str::<Value>("").unwrap_err();
    let mut state = State::WaitingInitialization { directives: vec![close("a.rs")] };
    let failed: Result<Event<u8>, serde_json::Error> = state.initialized(Err(error()));
    assert_eq!(failed.unwrap_err().to_string(), error().to_string());
    assert_eq!(state, State::WaitingInitialization { directives: vec![close("a.rs")] });
    assert_eq!(state.registered(Ok(vec![])), Outcome::invalid_state());

    let result = lsp_types::InitializeResult::default();
    let event: Event<u8> = state.initialized(Ok(result.clone())).unwrap();
    assert_eq!(event, Event::SendDirectives(vec![Directive::Initialized, close("a.rs")]));
    assert_eq!(
        state,
        State::Running { server_state: Box::new(result.clone()), registrations: vec![] }
    );
    assert_eq!(state.registered(Err(error())), Outcome::invalid_params(&error()));

    // Answers that are not waited for are errors.
    let late: Event<u8> = state.initialized(Ok(result)).unwrap();
    assert_eq!(late, Event::Error(InvalidStateError { state: state.clone() }));
    let early: Event<u8> = state.shut_down();
    assert_eq!(early, Event::Error(InvalidStateError { state: state.clone() }));

    let mut state = State::WaitingShutdown;
    let event: Event<u8> = state.shut_down();
    assert_eq!(event, Event::SendDirectives(vec![Directive::Exit]));
    assert_eq!(state, State::WaitingExit);

    let symbols = lsp_types::DocumentSymbolResponse::Nested(vec![]);
    let event: Event<u8> = Event::symbols(Ok(symbols.clone())).unwrap();
    assert_eq!(event, Event::DocumentSymbol(symbols));
    assert!(Event::<u8>::symbols(Err(error())).is_err());
}

#[test]
fn second_shutdown_is_out_of_order() {
    let mut tool = running_tool();
    tool.transmit(vec![Directive::Shutdown, Directive::Shutdown], 1).unwrap();
    answer(&mut tool, 3, Outcome::Result(Value::Null)).unwrap();
    let error = match event(answer(&mut tool, 2, Outcome::Result(Value::Null)).unwrap()) {
        Event::Error(error) => error,
        other => panic!("{:?}", other),
    };
    assert_eq!(error, InvalidStateError { state: State::WaitingExit });
    assert_eq!(error.to_text(), "Tool is in invalid state: waiting exit");
}

#[test]
fn error_response_leaves_the_tool() {
    let mut tool = running_tool();
    tool.transmit(vec![Directive::Shutdown], 1).unwrap();
    let error = ErrorObject { code: 1, message: "no".to_string(), data: None };
    let reaction = answer(&mut tool, 2, Outcome::Error(error)).unwrap();
    assert_eq!(reaction, Reaction { response: None, events: vec![] });
    assert_eq!(refusal(&mut tool), State::WaitingShutdown);

    let mut tool = new_tool();
    tool.transmit(vec![], 1).unwrap();
    let error = ErrorObject { code: -32600, message: "no".to_string(), data: None };
    match answer(&mut tool, 1, Outcome::Error(error)) {
        Err(ReceptionError::ProcessResponse(ProcessResponseError::Predefined(error))) => {
            assert_eq!(error, PredefinedError::InvalidRequest(None));
        }
        other => panic!("{:?}", other),
    }
    assert_eq!(tool.transmit(vec![], 1).unwrap(), vec![]);
}

#[test]
fn capabilities_are_registered_while_running() {
    let two = "{\"registrations\": [{\"id\": \"1\", \"method\": \"m\"}, \
               {\"id\": \"2\", \"method\": \"n\", \"registerOptions\": {\"a\": 1}}]}";
    let mut waiting = new_tool();
    let response = register(&mut waiting, two).response.unwrap();
    assert_eq!(response.outcome, Outcome::invalid_state());
    assert_eq!(response.id, Id::Str("r".to_string()));

    let mut tool = running_tool();
    let response = register(&mut tool, two).response.unwrap();
    assert_eq!(response.outcome, Outcome::Result(Value::Null));
    assert_eq!(response.id, Id::Str("r".to_string()));

    let wrong = register(&mut tool, "{}").response.unwrap();
    assert_eq!(
        wrong.outcome,
        Outcome::Error(ErrorObject {
            code: -32602,
            message: "Invalid method parameter(s)".to_string(),
            data: Some(Value::String("missing field `registrations`".to_string())),
        })
    );
}

#[test]
fn registrations_are_kept_in_order() {
    let mut state = State::WaitingInitialization { directives: vec![] };
    let output: Option<Result<Event<u8>, serde_json::Error>> = ResponseHandlers::Initialize
        .handle_result(&mut state, json("{\"capabilities\": {\"hoverProvider\": true}}"));
    assert!(matches!(output, Some(Ok(Event::SendDirectives(_)))));
    for params in [
        "{\"registrations\": [{\"id\": \"1\", \"method\": \"m\"}]}",
        "{\"registrations\": []}",
        "{\"registrations\": [{\"id\": \"2\", \"method\": \"n\", \"registerOptions\": [1]}]}",
    ] {
        let outcome = RequestHandler::RegisterCapability
            .handle_request(&mut state, Params::from(json(params)));
        assert_eq!(outcome, Outcome::Result(Value::Null));
    }
    let copy = state.clone();
    assert_eq!(copy, state);
    match copy {
        State::Running { server_state, registrations } => {
            assert!(server_state.capabilities.hover_provider.is_some());
            assert_eq!(
                registrations,
                vec![
                    Registration {
                        id: "1".to_string(),
                        method: "m".to_string(),
                        register_options: None,
                    },
                    Registration {
                        id: "2".to_string(),
                        method: "n".to_string(),
                        register_options: Some(json("[1]")),
                    },
                ]
            );
        }
        other => panic!("{:?}", other),
    }
    // A confirmation of the initialization comes too late.
    let output: Option<Result<Event<u8>, serde_json::Error>> =
        ResponseHandlers::Initialize.handle_result(&mut state, json("{\"capabilities\": {}}"));
    match output {
        Some(Ok(Event::Error(error))) => assert_eq!(error.state, state),
        other => panic!("{:?}", other),
    }
    // A response to a registration is of no consequence.
    let output: Option<Result<Event<u8>, serde_json::Error>> =
        ResponseHandlers::Registration.handle_result(&mut state, Value::Null);
    assert!(output.is_none());
}

#[test]
fn other_products_change_nothing() {
    let mut tool = running_tool();
    let unknown = RequestObject {
        method: "window/showMessageRequest".to_string(),
        params: Params::Absent,
        id: Some(Id::from(9)),
    };
    let reaction: Reaction<u8> =
        tool.process_reception(Product::from(Message::from(unknown))).unwrap();
    assert_eq!(reaction.response.unwrap().outcome, Outcome::unknown_request());
    assert_eq!(reaction.events, vec![]);

    let line = ErrorMessage { line: "warning".to_string() };
    let reaction: Reaction<u8> = tool.process_reception(Product::from(line)).unwrap();
    assert_eq!(reaction, Reaction { response: None, events: vec![] });

    let reaction: Reaction<u8> = tool.process_reception(Product::Exit(3)).unwrap();
    assert_eq!(event(reaction), Event::Exit(3));

    let stray = answer(&mut tool, 77, Outcome::Result(Value::Null)).unwrap();
    assert_eq!(stray, Reaction { response: None, events: vec![] });
    assert_eq!(tool.transmit(vec![Directive::Exit], 1).unwrap().len(), 1);
}

#[test]
fn finished_tool_waits_for_the_exit() {
    let mut tool = Tool::new_finished().unwrap();
    assert!(tool.is_waiting_exit());
    assert_eq!(refusal(&mut tool), State::WaitingExit);
    let reaction: Reaction<u8> = tool.process_reception(Product::Exit(0)).unwrap();
    assert_eq!(event(reaction), Event::from(0));
    assert!(tool.is_waiting_exit());
}

#[test]
fn initialize_params_declare_hierarchical_symbols() {
    let params = initialize_params(&url("root"), 7);
    assert_eq!(params.process_id, Some(7));
    assert_eq!(params.root_uri, Some(url("root")));
    let symbol = &params.text_document.document_symbol;
    assert_eq!(symbol.hierarchical_document_symbol_support, Some(true));
    assert_eq!(symbol.dynamic_registration, None);
    assert_eq!(params.text_document.synchronization.did_save, None);
    assert_eq!(params.method(), "initialize");
    assert_eq!(params.response_handlers(), Some(ResponseHandlers::Initialize));
}

#[test]
fn registrations_are_requested() {
    let params = RegistrationParams {
        registrations: vec![
            Registration {
                id: "1".to_string(),
                method: "m".to_string(),
                register_options: Some(json("{\"a\": null}")),
            },
            Registration {
                id: "2".to_string(),
                method: "n".to_string(),
                register_options: None,
            },
        ],
    };
    assert_eq!(
        Value::from(params.params().unwrap()),
        json(
            "{\"registrations\": [{\"id\": \"1\", \"method\": \"m\", \"registerOptions\": \
             {\"a\": null}}, {\"id\": \"2\", \"method\": \"n\"}]}"
        )
    );
    assert_eq!(params.response_handlers(), Some(ResponseHandlers::Registration));
}

#[test]
fn texts_of_directives_states_and_events() {
    assert_eq!(Directive::Initialized.to_text(), "Initialized");
    assert_eq!(Directive::Shutdown.to_text(), "Shutdown");
    assert_eq!(Directive::Exit.to_text(), "Exit");
    let closed = lsp_types::DidCloseTextDocumentParams {
        text_document: lsp_types::TextDocumentIdentifier::new(url("a.rs")),
    };
    assert_eq!(close("a.rs").to_text(), format!("CloseDoc {:?}", closed));
    let opened = lsp_types::DidOpenTextDocumentParams {
        text_document: lsp_types::TextDocumentItem::new(
            url("a.rs"),
            "rust".to_string(),
            -3,
            "fn \u{e9}() {}".to_string(),
        ),
    };
    assert_eq!(open().to_text(), format!("OpenDoc {:?}", opened));
    let asked = lsp_types::DocumentSymbolParams {
        text_document: lsp_types::TextDocumentIdentifier::new(url("a.rs")),
        work_done_progress_params: Default::default(),
        partial_result_params: Default::default(),
    };
    assert_eq!(symbols("a.rs").to_text(), format!("DocumentSymbol {:?}", asked));

    let states = [
        (State::Uninitialized { root_dir: url("root") }, "uninitialized"),
        (State::WaitingInitialization { directives: vec![open()] }, "waiting initialization"),
        (
            State::Running {
                server_state: Box::new(lsp_types::InitializeResult::default()),
                registrations: vec![],
            },
            "running",
        ),
        (State::WaitingShutdown, "waiting shutdown"),
        (State::WaitingExit, "waiting exit"),
    ];
    for (state, text) in states {
        assert_eq!(state.to_text(), text);
        assert_eq!(state.clone(), state);
        let error = InvalidStateError { state };
        assert_eq!(error.to_text(), format!("Tool is in invalid state: {}", text));
    }

    assert_eq!(Event::<u8>::SendDirectives(vec![]).to_text(), "send message");
    let error = InvalidStateError { state: State::WaitingExit };
    assert_eq!(Event::<u8>::Error(error).to_text(), "error");
    assert_eq!(Event::Exit(1).to_text(), "");
}

#[test]
fn texts_of_tool_errors() {
    let error = || serde_json::from_str::<Value>("").unwrap_err();
    let text = "EOF while parsing a value at line 1 column 0";
    assert_eq!(WriteError::from(error()).to_text(), text);
    assert_eq!(TransmissionError::from(error()).to_text(), text);
    assert_eq!(ReceptionError::Response(WriteError::Serialize(error())).to_text(), text);
    let invalid =
        TransmissionError::InvalidState(InvalidStateError { state: State::WaitingShutdown });
    assert_eq!(invalid.to_text(), "Tool is in invalid state: waiting shutdown");
    let create = CreateToolError::InsertRequest(docuglot::json_rpc::InsertRequestError {
        method: "m".to_string(),
        was_request: true,
    });
    assert_eq!(create.to_text(), "request handler for `m` already existed");
}
