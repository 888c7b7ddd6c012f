use docuglot::error_message::{ErrorMessage, ErrorMessageCompositionError};
use docuglot::json_rpc::{
    Id, Kind, Object, Outcome, Params, RequestObject, ResponseObject, Version,
};
use docuglot::message::{ComposeMessageMisstep, Message, Poll};
use serde_json::Value;

/// Composes the content of one message, which must be whole.
fn ready(elements: &mut Vec<u8>) -> String {
    match Message::compose(elements) {
        Ok(Poll::Ready(content)) => content,
        other => panic!("{:?}", other),
    }
}

#[test]
fn message_starts_with_its_length() {
    assert_eq!(Message::into_bytes("{}"), b"Content-Length: 2\r\n\r\n{}".to_vec());
    assert_eq!(Message::into_bytes(""), b"Content-Length: 0\r\n\r\n".to_vec());
    // The length is that of the bytes.
    assert_eq!(
        Message::into_bytes("\u{e9}\u{20ac}"),
        "Content-Length: 5\r\n\r\n\u{e9}\u{20ac}".as_bytes().to_vec()
    );
}

#[test]
fn compose_undoes_into_bytes() {
    for content in ["", "{}", "{\"a\":\"\u{e9}\"}", "\r\n\r\n", "Content-Length: 1\r\n\r\n"] {
        let mut elements = Message::into_bytes(content);
        elements.extend_from_slice(b"rest");
        assert_eq!(ready(&mut elements), content);
        assert_eq!(elements, b"rest".to_vec());
    }
}

#[test]
fn compose_keeps_the_order_of_messages() {
    let mut elements = Message::into_bytes("1");
    elements.append(&mut Message::into_bytes("22"));
    elements.append(&mut Message::into_bytes("333"));
    assert_eq!(ready(&mut elements), "1");
    assert_eq!(ready(&mut elements), "22");
    assert_eq!(ready(&mut elements), "333");
    assert!(elements.is_empty());
}

#[test]
fn compose_waits_for_the_whole_message() {
    let whole = Message::into_bytes("{\"a\": 1}");
    for end in 0..whole.len() {
        let mut elements = whole[..end].to_vec();
        assert!(matches!(Message::compose(&mut elements), Ok(Poll::Pending)));
        assert_eq!(elements, whole[..end].to_vec());
    }
}

#[test]
fn compose_reads_the_first_content_length() {
    let mut elements = b"Type: x\r\nContent-Length: 2: 9\r\nContent-Length: 3\r\n\r\nabc".to_vec();
    assert_eq!(ready(&mut elements), "ab");
    assert_eq!(elements, b"c".to_vec());

    let mut plus = b"Content-Length: +2\r\n\r\nab".to_vec();
    assert_eq!(ready(&mut plus), "ab");
}

#[test]
fn compose_misses_the_content_length() {
    for header in [
        "Content-Type: x",
        "content-length: 2",
        "Content-Length:2",
        "",
        // The first field of that name decides, and it has no value.
        "Content-Length",
        "Content-Length\r\nContent-Length: 2",
    ] {
        let mut elements = format!("{}\r\n\r\nab", header).into_bytes();
        let misstep = Message::compose(&mut elements).unwrap_err();
        assert!(matches!(misstep, ComposeMessageMisstep::MissingContentLength));
        assert_eq!(misstep.to_text(), "Header is missing content length");
        // The header is dropped.
        assert_eq!(elements, b"ab".to_vec());
    }
}

#[test]
fn compose_refuses_a_content_length_that_is_no_length() {
    for header in [
        "Content-Length: abc",
        "Content-Length: x\r\nContent-Length: 2",
        "Content-Length: -1",
        "Content-Length: ",
        "Content-Length: 99999999999999999999999",
    ] {
        let mut elements = format!("{}\r\n\r\nrest", header).into_bytes();
        let misstep = Message::compose(&mut elements).unwrap_err();
        assert!(matches!(misstep, ComposeMessageMisstep::InvalidContentLength));
        assert_eq!(misstep.to_text(), "content length is invalid");
        // The header is dropped.
        assert_eq!(elements, b"rest".to_vec());
    }
}

#[test]
fn header_stands_before_the_first_header_end() {
    assert_eq!(Message::header("a\u{e9}\r\n\r\nb\r\n\r\n").unwrap(), Some("a\u{e9}"));
    assert_eq!(Message::header("\r\n\r\n").unwrap(), Some(""));
    assert_eq!(Message::header("a\r\n\r").unwrap(), None);
    assert_eq!(Message::header("").unwrap(), None);
}

#[test]
fn compose_refuses_a_length_inside_a_character() {
    let mut elements = "Content-Length: 1\r\n\r\n\u{e9}".as_bytes().to_vec();
    let misstep = Message::compose(&mut elements).unwrap_err();
    assert!(matches!(misstep, ComposeMessageMisstep::InvalidContentLength));
    assert_eq!(misstep.to_text(), "content length is invalid");
    assert_eq!(elements, "\u{e9}".as_bytes().to_vec());
}

#[test]
fn compose_refuses_a_length_that_overflows() {
    let mut elements = format!("Content-Length: {}\r\n\r\nab", usize::MAX).into_bytes();
    assert!(matches!(
        Message::compose(&mut elements),
        Err(ComposeMessageMisstep::InvalidContentLength)
    ));
    assert_eq!(elements, b"ab".to_vec());
}

#[test]
fn compose_refuses_what_is_not_utf8() {
    let mut elements = b"Content-Length: 2\r\n\r\n\xff\xff".to_vec();
    let before = elements.clone();
    let misstep = Message::compose(&mut elements).unwrap_err();
    assert!(matches!(misstep, ComposeMessageMisstep::Utf8(_)));
    assert_eq!(misstep.to_text(), "invalid utf-8 sequence of 1 bytes from index 21");
    assert_eq!(elements, before);
    assert_eq!(ComposeMessageMisstep::InvalidHeaderEnd.to_text(), "");
}

#[test]
fn composed_message_holds_the_parsed_object() {
    let request = RequestObject { method: "exit".to_string(), params: Params::Absent, id: None };
    let object = Object { jsonrpc: Version::V2_0, kind: Kind::Request(request) };
    let message = Message::composed(Ok(object)).unwrap();
    assert_eq!(message.to_text(), "Notification: 'exit' w/ None");
    assert!(matches!(Kind::from(message), Kind::Request(_)));

    let error = serde_json::from_str::<Value>("{").unwrap_err();
    let misstep = Message::composed(Err(error)).unwrap_err();
    assert_eq!(
        misstep.to_text(),
        "messge content is invalid: EOF while parsing an object at line 1 column 1"
    );
}

#[test]
fn messages_are_made_of_requests_and_responses() {
    let request = RequestObject {
        method: "shutdown".to_string(),
        params: Params::Absent,
        id: Some(Id::from(3)),
    };
    assert_eq!(Message::from(request).to_text(), "Request[3]: 'shutdown' w/ None");

    let response = ResponseObject { outcome: Outcome::Result(Value::Null), id: Id::Null };
    let message = Message::from(response);
    assert_eq!(message.content.jsonrpc, Version::V2_0);
    assert_eq!(message.to_text(), "Response[NULL]: Success null");
}

#[test]
fn error_message_is_a_line() {
    let mut elements = "first \u{e9}\nsecond\nthird".as_bytes().to_vec();
    let first = ErrorMessage::compose(&mut elements);
    assert_eq!(first, Ok(Poll::Ready(ErrorMessage { line: "first \u{e9}".to_string() })));
    match ErrorMessage::compose(&mut elements) {
        Ok(Poll::Ready(message)) => assert_eq!(message.to_text(), "second"),
        other => panic!("{:?}", other),
    }
    assert_eq!(ErrorMessage::compose(&mut elements), Ok(Poll::Pending));
    assert_eq!(elements, b"third".to_vec());
}

#[test]
fn error_message_may_be_empty() {
    let mut elements = b"\n".to_vec();
    let message = ErrorMessage::compose(&mut elements);
    assert_eq!(message, Ok(Poll::Ready(ErrorMessage { line: String::new() })));
    assert!(elements.is_empty());
}

#[test]
fn error_message_drops_what_is_not_utf8() {
    let mut elements = b"line\n\xff".to_vec();
    let error = ErrorMessage::compose(&mut elements).unwrap_err();
    assert_eq!(error, ErrorMessageCompositionError);
    assert_eq!(error.to_text(), "Error while composing error message");
    assert!(elements.is_empty());
}
