use docuglot::json_rpc::{
    Client, ErrorObject, Id, InsertRequestError, Kind, Object, Outcome, Params, PredefinedError,
    ProcessResponseError, Request, RequestObject, ResponseError, ResponseObject, Server,
};
use docuglot::lsp::{
    Event, ExitParams, InitializedParams, NotificationHandler, RequestHandler, ResponseHandlers,
    ShutdownParams, State,
};
use docuglot::protocol::RegistrationParams;
use serde_json::Value;

/// Parses a JSON value.
fn value(text: &str) -> Value {
    serde_json::from_str(text).unwrap()
}

/// An error object of code `code`.
fn error(code: i64) -> ErrorObject {
    ErrorObject { code, message: "reason".to_string(), data: Some(value("[1]")) }
}

/// The id of `object` as a number.
fn number(object: &RequestObject) -> u64 {
    match &object.id {
        Some(Id::Num(number)) => number.as_u64().unwrap(),
        other => panic!("{:?}", other),
    }
}

/// A successful response with the number `id`.
fn success(id: u64) -> ResponseObject {
    ResponseObject { outcome: Outcome::Result(Value::Null), id: Id::from(id) }
}

/// Processes `response` in `state`.
fn respond(
    client: &mut Client<ResponseHandlers>,
    state: &mut State,
    response: ResponseObject,
) -> Result<Option<Event<u8>>, ProcessResponseError> {
    client.process_response(state, response)
}

#[test]
fn params_are_made_of_any_value() {
    assert_eq!(Params::from(value("null")), Params::Absent);
    assert_eq!(Params::from(value("true")), Params::Array(vec![value("true")]));
    assert_eq!(Params::from(value("-2")), Params::Array(vec![value("-2")]));
    assert_eq!(Params::from(value("\"a\"")), Params::Array(vec![value("\"a\"")]));
    assert_eq!(
        Params::from(value("[1, null]")),
        Params::Array(vec![value("1"), value("null")])
    );
    match Params::from(value("{\"a\": [1]}")) {
        Params::Object(fields) => assert_eq!(fields.get("a"), Some(&value("[1]"))),
        other => panic!("{:?}", other),
    }
}

#[test]
fn params_survive_as_a_value() {
    for text in ["null", "[]", "[1, \"a\"]", "{}", "{\"a\": {\"b\": 1.5}}"] {
        assert_eq!(Value::from(Params::from(value(text))), value(text));
    }
    for text in ["false", "7", "\"a\""] {
        assert_eq!(Value::from(Params::from(value(text))), Value::Array(vec![value(text)]));
    }
}

#[test]
fn texts_of_objects() {
    assert_eq!(Params::Absent.to_text(), "None");
    assert_eq!(Params::from(value("[1]")).to_text(), "[Number(1)]");
    assert_eq!(Params::from(value("{\"a\": null}")).to_text(), "{\"a\": Null}");
    assert_eq!(Id::Null.to_text(), "NULL");
    assert_eq!(Id::from(18446744073709551615).to_text(), "18446744073709551615");
    match value("[-5, 1.5]") {
        Value::Array(values) => {
            let texts: Vec<String> = values
                .into_iter()
                .map(|number| match number {
                    Value::Number(number) => Id::Num(number).to_text(),
                    other => panic!("{:?}", other),
                })
                .collect();
            assert_eq!(texts, vec!["-5", "1.5"]);
        }
        other => panic!("{:?}", other),
    }
    assert_eq!(Id::Str("x".to_string()).to_text(), "x");
    let request = RequestObject {
        method: "m".to_string(),
        params: Params::from(value("[true]")),
        id: Some(Id::Str("a".to_string())),
    };
    assert_eq!(request.to_text(), "Request[a]: 'm' w/ [Bool(true)]");
    assert_eq!(
        Outcome::Result(value("{\"a\": [1, 2]}")).to_text(),
        "Success {\"a\":[1,2]}"
    );
    assert_eq!(Outcome::Error(error(-5)).to_text(), "Error[-5]: reason");
    let response = ResponseObject { outcome: Outcome::Error(error(9)), id: Id::from(2) };
    assert_eq!(Object::from(response).to_text(), "Response[2]: Error[9]: reason");
    assert_eq!(Kind::from(success(1)).to_text(), "Response[1]: Success null");
    assert!(matches!(Kind::from(Object::from(request)), Kind::Request(_)));
}

#[test]
fn own_outcomes() {
    assert_eq!(
        Outcome::unknown_request(),
        Outcome::Error(ErrorObject {
            code: -32601,
            message: "Method not found".to_string(),
            data: None,
        })
    );
    assert_eq!(
        Outcome::invalid_state(),
        Outcome::Error(ErrorObject {
            code: -127,
            message: "Invalid state".to_string(),
            data: None,
        })
    );
    let cause = serde_json::from_str::<Value>("").unwrap_err();
    assert_eq!(
        Outcome::invalid_params(&cause),
        Outcome::Error(ErrorObject {
            code: -32602,
            message: "Invalid method parameter(s)".to_string(),
            data: Some(Value::String("EOF while parsing a value at line 1 column 0".to_string())),
        })
    );
}

#[test]
fn errors_are_sorted_by_code() {
    let data = Some(value("[1]"));
    let cases = [
        (-32700, PredefinedError::Parse(data.clone())),
        (-32600, PredefinedError::InvalidRequest(data.clone())),
        (-32601, PredefinedError::MethodNotFound(data.clone())),
        (-32602, PredefinedError::InvalidParams(data.clone())),
        (-32603, PredefinedError::Internal(data)),
        (-32099, PredefinedError::Server(error(-32099))),
        (-32000, PredefinedError::Server(error(-32000))),
        (-32768, PredefinedError::Reserved(error(-32768))),
        (-32100, PredefinedError::Reserved(error(-32100))),
    ];
    for (code, predefined) in cases {
        assert_eq!(ResponseError::from(error(code)), ResponseError::Predefined(predefined));
    }
    for code in [i64::MIN, -32769, -31999, -127, 0, i64::MAX] {
        assert_eq!(ResponseError::from(error(code)), ResponseError::Application(error(code)));
    }
}

#[test]
fn texts_of_errors() {
    let texts: Vec<String> = [-32700, -32600, -32601, -32602, -32603, -32050, -32768, 1]
        .into_iter()
        .map(|code| ResponseError::from(error(code)).to_text())
        .collect();
    assert_eq!(
        texts,
        vec![
            "An error occurred while parsing the JSON text",
            "JSON is not a valid Request object",
            "The method does not exist/is not available",
            "Invalid method parameter(s)",
            "Internal JSON-RPC error",
            "Implementation-defined server error",
            "",
            "Error[1]: reason",
        ]
    );
    let predefined = ProcessResponseError::Predefined(PredefinedError::Internal(None));
    assert_eq!(predefined.to_text(), "Internal JSON-RPC error");
    let serialize = ProcessResponseError::Serialize(serde_json::from_str::<Value>("").unwrap_err());
    assert_eq!(serialize.to_text(), "EOF while parsing a value at line 1 column 0");
    let request = InsertRequestError { method: "m".to_string(), was_request: true };
    assert_eq!(request.to_text(), "request handler for `m` already existed");
    let notification = InsertRequestError { method: "m".to_string(), was_request: false };
    assert_eq!(notification.to_text(), "notification handler for `m` already existed");
}

#[test]
fn requests_get_sequential_ids() {
    let mut client: Client<ResponseHandlers> = Client::new();
    let first = client.request(&ShutdownParams).unwrap();
    assert_eq!(first.method, "shutdown");
    assert_eq!(first.params, Params::Absent);
    assert_eq!(number(&first), 1);
    assert_eq!(number(&client.request(&ShutdownParams).unwrap()), 2);

    // A notification takes no id.
    let notification = client.request(&InitializedParams).unwrap();
    assert_eq!(notification.id, None);
    assert_eq!(client.request(&ExitParams).unwrap().id, None);
    assert_eq!(number(&client.request(&ShutdownParams).unwrap()), 3);
}

#[test]
fn response_is_handled_once() {
    let mut client: Client<ResponseHandlers> = Client::new();
    let mut state = State::WaitingShutdown;
    let id = number(&client.request(&ShutdownParams).unwrap());
    let other = number(&client.request(&ShutdownParams).unwrap());

    // A response that answers no request changes nothing.
    assert!(respond(&mut client, &mut state, success(99)).unwrap().is_none());
    let null = ResponseObject { outcome: Outcome::Result(Value::Null), id: Id::Null };
    assert!(respond(&mut client, &mut state, null).unwrap().is_none());
    let string =
        ResponseObject { outcome: Outcome::Result(Value::Null), id: Id::Str("1".to_string()) };
    assert!(respond(&mut client, &mut state, string).unwrap().is_none());
    assert_eq!(state, State::WaitingShutdown);

    assert!(respond(&mut client, &mut state, success(id)).unwrap().is_some());
    assert_eq!(state, State::WaitingExit);
    // It is not handled again, while the other request still is.
    assert!(respond(&mut client, &mut state, success(id)).unwrap().is_none());
    assert!(respond(&mut client, &mut state, success(other)).unwrap().is_some());
}

#[test]
fn error_responses_are_sorted() {
    let mut client: Client<ResponseHandlers> = Client::new();
    let mut state = State::WaitingShutdown;
    let id = number(&client.request(&ShutdownParams).unwrap());
    let predefined = ResponseObject { outcome: Outcome::Error(error(-32603)), id: Id::from(id) };
    match respond(&mut client, &mut state, predefined) {
        Err(ProcessResponseError::Predefined(PredefinedError::Internal(data))) => {
            assert_eq!(data, Some(value("[1]")));
        }
        other => panic!("{:?}", other),
    }
    // The request does not await a response any more.
    assert!(respond(&mut client, &mut state, success(id)).unwrap().is_none());

    let id = number(&client.request(&ShutdownParams).unwrap());
    let application = ResponseObject { outcome: Outcome::Error(error(5)), id: Id::from(id) };
    assert!(respond(&mut client, &mut state, application).unwrap().is_none());
    assert_eq!(state, State::WaitingShutdown);
}

/// The server of requests to register capabilities.
fn server() -> Server<RequestHandler, NotificationHandler> {
    Server::new(vec![RegistrationParams { registrations: vec![] }]).unwrap()
}

#[test]
fn server_refuses_a_second_handler() {
    let requests = vec![
        RegistrationParams { registrations: vec![] },
        RegistrationParams { registrations: vec![] },
    ];
    let error = match Server::<RequestHandler, NotificationHandler>::new(requests) {
        Ok(_) => panic!("two handlers"),
        Err(error) => error,
    };
    assert_eq!(
        error,
        InsertRequestError { method: "client/registerCapability".to_string(), was_request: true }
    );
    // Methods without handlers do not get in each other's way.
    let none: Server<RequestHandler, NotificationHandler> =
        Server::new(vec![ShutdownParams, ShutdownParams]).unwrap();
    drop(none);
}

#[test]
fn unknown_method_is_refused() {
    let mut state = State::WaitingShutdown;
    let request = RequestObject {
        method: "unknown".to_string(),
        params: Params::Absent,
        id: Some(Id::Str("7".to_string())),
    };
    let response = server().process_request(&mut state, request).unwrap();
    assert_eq!(response.id, Id::Str("7".to_string()));
    assert_eq!(response.outcome, Outcome::unknown_request());
    assert_eq!(state, State::WaitingShutdown);
}

#[test]
fn notification_is_not_answered() {
    let mut state = State::WaitingShutdown;
    for method in ["unknown", "client/registerCapability"] {
        let request =
            RequestObject { method: method.to_string(), params: Params::Absent, id: None };
        assert_eq!(server().process_request(&mut state, request), None);
    }
    assert_eq!(state, State::WaitingShutdown);
}

#[test]
fn request_of_a_known_method_is_handled() {
    let mut state = State::WaitingShutdown;
    let request = RequestObject {
        method: "client/registerCapability".to_string(),
        params: Params::Absent,
        id: Some(Id::from(4)),
    };
    let response = server().process_request(&mut state, request).unwrap();
    assert_eq!(response.id, Id::from(4));
    assert_eq!(response.outcome, Outcome::invalid_state());
    let handlers = RegistrationParams { registrations: vec![] }.method_handlers();
    assert_eq!(handlers, (Some(RequestHandler::RegisterCapability), None));
}

#[test]
fn own_errors_are_sorted_as_what_they_are() {
    let sorted = |outcome: Outcome| match outcome {
        Outcome::Error(error) => ResponseError::from(error),
        Outcome::Result(value) => panic!("{:?}", value),
    };
    assert_eq!(
        sorted(Outcome::unknown_request()),
        ResponseError::Predefined(PredefinedError::MethodNotFound(None))
    );
    let cause = serde_json::from_str::<Value>("").unwrap_err();
    assert_eq!(
        sorted(Outcome::invalid_params(&cause)),
        ResponseError::Predefined(PredefinedError::InvalidParams(Some(Value::String(
            "EOF while parsing a value at line 1 column 0".to_string()
        ))))
    );
    assert!(matches!(
        sorted(Outcome::invalid_state()),
        ResponseError::Application(ErrorObject { code: -127, .. })
    ));
}

#[test]
fn params_and_errors_are_cloned() {
    for text in ["null", "[1, {\"a\": 2}]", "{\"a\": [true]}"] {
        let params = Params::from(value(text));
        assert_eq!(params.clone(), params);
    }
    assert_eq!(error(5).clone(), error(5));
}
