use docuglot::json_rpc::{
    Id, Outcome, Params, ProcessResponseError, RequestObject, ResponseObject,
};
use docuglot::lsp::{Directive, Event, InvalidStateError, State};
use docuglot::message::Message;
use docuglot::protocol::{
    DidCloseTextDocumentParams, DidOpenTextDocumentParams, DocumentSymbolParams,
    TextDocumentIdentifier, TextDocumentItem,
};
use docuglot::tongue::{
    Action, Language, Reception, TongueError, Transmission, Translator, Translators,
};
use docuglot::tool::{Product, Reaction, ReceptionError, TransmissionError};
use lsp_types::Url;
use serde_json::Value;

/// The URL of `name`.
fn url(name: &str) -> Url {
    Url::parse(&format!("file:///{}", name)).unwrap()
}

/// The document `name`.
fn doc(name: &str) -> TextDocumentIdentifier {
    TextDocumentIdentifier { uri: url(name) }
}

/// Translators that have not transmitted anything.
fn new_translators() -> Translators {
    Translators::new(url("root")).unwrap()
}

/// Has `translator` receive `product`, and returns the events.
fn receive(
    translators: &mut Translators,
    translator: Translator,
    product: Product<u8>,
) -> Vec<Event<u8>> {
    let mut receptions = translators.receive(translator, vec![product]);
    assert!(receptions.outcome.is_ok());
    assert_eq!(receptions.reactions.len(), 1);
    receptions.reactions.remove(0).events
}

/// Has the server of `translator` answer the request of `id` with `value`, and returns the events.
fn answer(
    translators: &mut Translators,
    translator: Translator,
    id: u64,
    value: &str,
) -> Vec<Event<u8>> {
    let outcome = Outcome::Result(serde_json::from_str(value).unwrap());
    let response = ResponseObject { outcome, id: Id::from(id) };
    receive(translators, translator, Product::from(Message::from(response)))
}

/// Has `translators` react to the one event of `events`.
fn react(translators: &mut Translators, mut events: Vec<Event<u8>>) -> Result<Action<u8>, TongueError> {
    assert_eq!(events.len(), 1);
    translators.react(Translator::Rust, events.remove(0), 1)
}

#[test]
fn transmissions_become_directives() {
    let item = || TextDocumentItem {
        uri: url("a.rs"),
        language_id: "rust".to_string(),
        version: 1,
        text: "x".to_string(),
    };
    assert_eq!(
        Directive::from(Transmission::OpenDoc { doc: item() }),
        Directive::OpenDoc(DidOpenTextDocumentParams { text_document: item() })
    );
    assert_eq!(
        Directive::from(Transmission::close_doc(doc("a.rs"))),
        Directive::CloseDoc(DidCloseTextDocumentParams { text_document: doc("a.rs") })
    );
    assert_eq!(
        Directive::from(Transmission::GetDocumentSymbol { doc: doc("a.rs") }),
        Directive::DocumentSymbol(DocumentSymbolParams { text_document: doc("a.rs") })
    );
    assert_eq!(Directive::from(Transmission::Shutdown), Directive::Shutdown);
    assert_eq!(
        Transmission::close_doc(doc("a.rs")),
        Transmission::CloseDoc { doc: doc("a.rs") }
    );
}

#[test]
fn every_transmission_is_for_rust() {
    assert_eq!(Transmission::Shutdown.language(), Some(Language::Rust));
    assert_eq!(Transmission::close_doc(doc("a.txt")).language(), Some(Language::Rust));
    assert_eq!(Language::Rust.to_text(), "rust");
    assert_eq!(Translator::for_language(Some(Language::Rust)), Translator::Rust);
    assert_eq!(Translator::for_language(None), Translator::Default);
}

#[test]
fn tongue_runs_until_the_server_is_shut_down() {
    let mut translators = new_translators();
    assert!(!translators.is_finished());

    let (translator, requests) =
        translators.transmit(Transmission::GetDocumentSymbol { doc: doc("a.rs") }, 5).unwrap();
    assert_eq!(translator, Translator::Rust);
    assert_eq!(requests.len(), 1);
    assert_eq!(requests[0].method, "initialize");

    // A response of the other server is not taken for one of this server.
    let outcome = Outcome::Result(Value::Null);
    let product: Product<u8> =
        Product::from(Message::from(ResponseObject { outcome, id: Id::from(1) }));
    assert!(translators.recognizes(Translator::Rust, &product));
    assert!(!translators.recognizes(Translator::Default, &product));
    assert_eq!(answer(&mut translators, Translator::Default, 1, "{\"capabilities\": {}}"), vec![]);

    let events = answer(&mut translators, Translator::Rust, 1, "{\"capabilities\": {}}");
    match react(&mut translators, events).unwrap() {
        Action::Write(requests) => {
            let methods: Vec<&str> = requests.iter().map(|request| request.method.as_str()).collect();
            assert_eq!(methods, vec!["initialized", "textDocument/documentSymbol"]);
        }
        other => panic!("{:?}", other),
    }

    let events = answer(&mut translators, Translator::Rust, 2, "[]");
    match react(&mut translators, events).unwrap() {
        Action::Receive(reception) => assert_eq!(reception.to_text(), "Flat([])"),
        other => panic!("{:?}", other),
    }

    let (_, requests) = translators.transmit(Transmission::Shutdown, 5).unwrap();
    assert_eq!(requests[0].method, "shutdown");
    assert!(!translators.is_finished());
    match translators.transmit(Transmission::Shutdown, 5) {
        Err(TongueError::Transmit(error)) => {
            assert_eq!(error.to_text(), "Tool is in invalid state: waiting shutdown");
        }
        other => panic!("{:?}", other),
    }

    let events = answer(&mut translators, Translator::Rust, 3, "null");
    assert_eq!(events, vec![Event::SendDirectives(vec![Directive::Exit])]);
    assert!(translators.is_finished());
    // The exit is written to the server.
    match react(&mut translators, events).unwrap() {
        Action::Write(requests) => {
            assert_eq!(
                requests,
                vec![RequestObject {
                    method: "exit".to_string(),
                    params: Params::Absent,
                    id: None,
                }]
            );
        }
        other => panic!("{:?}", other),
    }
    assert!(translators.is_finished());
    // What a client transmits is refused.
    match translators.transmit(Transmission::Shutdown, 5) {
        Err(TongueError::Transmit(TransmissionError::InvalidState(error))) => {
            assert_eq!(error.state, State::WaitingExit);
        }
        other => panic!("{:?}", other),
    }
}

#[test]
fn statuses_and_errors_are_handed_on() {
    let mut translators = new_translators();
    let events = receive(&mut translators, Translator::Default, Product::Exit(4));
    assert_eq!(react(&mut translators, events).unwrap(), Action::Report(4));

    let error = InvalidStateError { state: State::WaitingShutdown };
    match react(&mut translators, vec![Event::Error(error)]) {
        Err(TongueError::InvalidState(error)) => assert_eq!(error.state, State::WaitingShutdown),
        other => panic!("{:?}", other),
    }
}

#[test]
fn reception_stops_at_the_first_error() {
    let mut translators = new_translators();
    translators.transmit(Transmission::Shutdown, 1).unwrap();
    let response = ResponseObject { outcome: Outcome::Result(Value::Null), id: Id::from(1) };
    let receptions = translators.receive(
        Translator::Rust,
        vec![
            Product::Exit(1),
            Product::from(Message::from(response)),
            Product::Exit(2),
        ],
    );
    assert_eq!(
        receptions.reactions,
        vec![Reaction { response: None, events: vec![Event::Exit(1)] }]
    );
    match receptions.outcome {
        Err(error) => {
            assert!(matches!(
                error,
                ReceptionError::ProcessResponse(ProcessResponseError::Serialize(_))
            ));
            assert_eq!(TongueError::Receive(error).to_text(), "");
        }
        Ok(()) => panic!("no error"),
    }
}

#[test]
fn symbols_are_written_as_their_debug_form() {
    let symbols = lsp_types::DocumentSymbolResponse::Nested(vec![]);
    assert_eq!(Reception::DocumentSymbols(symbols).to_text(), "Nested([])");
}
