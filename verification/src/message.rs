//! Implements the messages of the language server protocol.
use vstd::prelude::*;
use vstd::utf8;

use crate::json;
use crate::json_rpc::{Kind, Object, RequestObject, ResponseObject, Version};
use crate::text;

verus! {

/// The header field name that maps to the length of the content.
pub const HEADER_CONTENT_LENGTH: &'static str = "Content-Length";

/// Delimiter between a header field and value.
pub const HEADER_FIELD_NAME_DELIMITER: &'static str = ": ";

/// The end of the header.
pub const HEADER_END: &'static str = "\r\n\r\n";

/// The end of a header field.
pub const HEADER_FIELD_DELIMITER: &'static str = "\r\n";

/// An error of `core::str`, opaque to the verifier.
#[verifier::external_type_specification]
#[verifier::external_body]
pub struct ExUtf8Error(core::str::Utf8Error);

/// The error that says why `bytes` are not UTF-8.
pub uninterp spec fn utf8_error(bytes: Seq<u8>) -> core::str::Utf8Error;

/// `core::str::from_utf8` gives the string whose bytes are `bytes`, and fails if and only if
/// `bytes` are not UTF-8.
pub assume_specification[ core::str::from_utf8 ](bytes: &[u8]) -> (string: Result<
    &str,
    core::str::Utf8Error,
>)
    ensures
        match string {
            Ok(string) => utf8::valid_utf8(bytes@) && utf8::encode_utf8(string@) == bytes@,
            Err(error) => !utf8::valid_utf8(bytes@) && error == utf8_error(bytes@),
        },
;

/// The text of `error`.
pub uninterp spec fn utf8_error_text(error: core::str::Utf8Error) -> Seq<char>;

/// `<core::str::Utf8Error as ToString>::to_string` gives the text of the error.
#[verifier::external_body]
fn utf8_error_to_text(error: &core::str::Utf8Error) -> (text: String)
    ensures
        text@ == utf8_error_text(*error),
{
    error.to_string()
}

/// The state of a composition.
#[derive(Debug, PartialEq)]
pub enum Poll<T> {
    /// The composition is complete.
    Ready(T),
    /// The composition needs more elements.
    Pending,
}

/// Error while assembling a `Message`.
#[derive(Debug)]
pub enum ComposeMessageMisstep {
    /// Unable to find end of header.
    InvalidHeaderEnd,
    /// Received bytes were not valid utf8.
    Utf8(core::str::Utf8Error),
    /// Content length was not found in header.
    MissingContentLength,
    /// Content length is invalid.
    InvalidContentLength,
    /// Unable to convert message.
    InvalidContent(serde_json::Error),
}

/// The items of the header field `field`: its name, and its value where it has one.
pub open spec fn field_items(field: Seq<u8>) -> Seq<Seq<u8>> {
    text::split_spec(field, utf8::encode_utf8(HEADER_FIELD_NAME_DELIMITER@))
}

/// Whether the name of the header field `field` is that of the content length.
pub open spec fn names_length(field: Seq<u8>) -> bool {
    field_items(field)[0] == utf8::encode_utf8(HEADER_CONTENT_LENGTH@)
}

/// The length that the value of the header field `field` gives, where it has a value.
///
/// The inner option is [`None`] where the value is not a number of bytes.
pub open spec fn field_length(field: Seq<u8>) -> Option<Option<nat>> {
    if field_items(field).len() > 1 {
        Some(text::length_spec(field_items(field)[1]))
    } else {
        None
    }
}

/// The length that the first of `fields` gives whose name is that of the content length, where there
/// is one and it has a value.
pub open spec fn fields_length(fields: Seq<Seq<u8>>) -> Option<Option<nat>>
    decreases fields.len(),
{
    if fields.len() == 0 {
        None
    } else if names_length(fields[0]) {
        field_length(fields[0])
    } else {
        fields_length(fields.drop_first())
    }
}

/// The length of the content that follows `header`, where it holds one.
pub open spec fn content_length_spec(header: Seq<u8>) -> Option<Option<nat>> {
    fields_length(text::split_spec(header, utf8::encode_utf8(HEADER_FIELD_DELIMITER@)))
}

/// What composing a message out of `bytes` gives, and the bytes that it leaves.
pub open spec fn compose_spec(bytes: Seq<u8>) -> (
    Result<Poll<Seq<char>>, ComposeMessageMisstep>,
    Seq<u8>,
) {
    if !utf8::valid_utf8(bytes) {
        (Err(ComposeMessageMisstep::Utf8(utf8_error(bytes))), bytes)
    } else {
        match text::find_spec(bytes, utf8::encode_utf8(HEADER_END@)) {
            None => (Ok(Poll::Pending), bytes),
            Some(header_end) => {
                let start = header_end + utf8::encode_utf8(HEADER_END@).len();
                match content_length_spec(bytes.take(header_end)) {
                    None => (Err(ComposeMessageMisstep::MissingContentLength), bytes.skip(start)),
                    Some(None) => (
                        Err(ComposeMessageMisstep::InvalidContentLength),
                        bytes.skip(start),
                    ),
                    Some(Some(length)) => if start + length > usize::MAX {
                        (Err(ComposeMessageMisstep::InvalidContentLength), bytes.skip(start))
                    } else if bytes.len() < start + length {
                        (Ok(Poll::Pending), bytes)
                    } else if utf8::is_char_boundary(bytes, start + length) {
                        (
                            Ok(
                                Poll::Ready(
                                    utf8::decode_utf8(bytes.subrange(start, start + length)),
                                ),
                            ),
                            bytes.skip(start + length),
                        )
                    } else {
                        (Err(ComposeMessageMisstep::InvalidContentLength), bytes.skip(start))
                    },
                }
            },
        }
    }
}

/// What composing the text of a content gave.
pub open spec fn content_view(content: Result<Poll<String>, ComposeMessageMisstep>) -> Result<
    Poll<Seq<char>>,
    ComposeMessageMisstep,
> {
    match content {
        Ok(Poll::Ready(content)) => Ok(Poll::Ready(content@)),
        Ok(Poll::Pending) => Ok(Poll::Pending),
        Err(misstep) => Err(misstep),
    }
}

/// The bytes of a message with `content`.
pub open spec fn message_bytes(content: Seq<char>) -> Seq<u8> {
    utf8::encode_utf8(
        HEADER_CONTENT_LENGTH@ + HEADER_FIELD_NAME_DELIMITER@ + text::decimal(
            utf8::encode_utf8(content).len(),
        ) + HEADER_END@ + content,
    )
}

/// The bytes of the strings that delimit a header.
proof fn lemma_delimiters()
    ensures
        utf8::encode_utf8(HEADER_END@) == seq![13u8, 10u8, 13u8, 10u8],
        utf8::encode_utf8(HEADER_FIELD_DELIMITER@) == seq![13u8, 10u8],
        utf8::encode_utf8(HEADER_FIELD_NAME_DELIMITER@) == seq![58u8, 32u8],
{
    reveal_strlit("\r\n\r\n");
    reveal_strlit("\r\n");
    reveal_strlit(": ");
    utf8::is_ascii_chars_encode_utf8(HEADER_END@);
    utf8::is_ascii_chars_encode_utf8(HEADER_FIELD_DELIMITER@);
    utf8::is_ascii_chars_encode_utf8(HEADER_FIELD_NAME_DELIMITER@);
    assert(utf8::encode_utf8(HEADER_END@) =~= seq![13u8, 10u8, 13u8, 10u8]);
    assert(utf8::encode_utf8(HEADER_FIELD_DELIMITER@) =~= seq![13u8, 10u8]);
    assert(utf8::encode_utf8(HEADER_FIELD_NAME_DELIMITER@) =~= seq![58u8, 32u8]);
}

/// Where an ASCII character stands in a UTF-8 text, a character starts before and after it.
proof fn lemma_ascii_boundaries(bytes: Seq<u8>, index: int)
    requires
        utf8::valid_utf8(bytes),
        0 <= index < bytes.len(),
        bytes[index] < 128,
    ensures
        utf8::is_char_boundary(bytes, index),
        utf8::is_char_boundary(bytes, index + 1),
{
    utf8::is_char_boundary_iff_not_is_continuation_byte(bytes, index);
    utf8::valid_utf8_split(bytes, index);
    let rest = bytes.subrange(index, bytes.len() as int);
    let after = utf8::pop_first_scalar(rest);
    assert(after =~= bytes.subrange(index + 1, bytes.len() as int));
    if index + 1 == bytes.len() {
        utf8::is_char_boundary_start_end_of_seq(bytes);
    } else {
        reveal_with_fuel(utf8::valid_utf8, 3);
        assert(utf8::valid_first_scalar(after));
        assert(after[0] == bytes[index + 1]);
        utf8::is_char_boundary_iff_not_is_continuation_byte(bytes, index + 1);
    }
}

/// A place where a character starts is such a place in any prefix that ends with a character.
proof fn lemma_boundary_in_prefix(bytes: Seq<u8>, index: int, end: int)
    requires
        utf8::valid_utf8(bytes),
        0 <= index <= end <= bytes.len(),
        utf8::is_char_boundary(bytes, index),
        utf8::is_char_boundary(bytes, end),
    ensures
        utf8::valid_utf8(bytes.subrange(0, end)),
        utf8::is_char_boundary(bytes.subrange(0, end), index),
{
    let prefix = bytes.subrange(0, end);
    utf8::valid_utf8_split(bytes, end);
    if index == end {
        utf8::is_char_boundary_start_end_of_seq(prefix);
    } else {
        assert(prefix[index] == bytes[index]);
        utf8::is_char_boundary_iff_not_is_continuation_byte(bytes, index);
        utf8::is_char_boundary_iff_not_is_continuation_byte(prefix, index);
    }
}

/// What stands in a text stands in its bytes, behind the bytes of what comes before it.
proof fn lemma_occurs_in_bytes(string: Seq<char>, pattern: Seq<char>, index: int)
    requires
        text::occurs_at(string, pattern, index),
    ensures
        text::occurs_at(
            utf8::encode_utf8(string),
            utf8::encode_utf8(pattern),
            utf8::encode_utf8(string.take(index)).len() as int,
        ),
{
    let before = string.take(index);
    let after = string.skip(index + pattern.len());
    assert(string =~= before + pattern + after);
    lemma_encode_concat(before + pattern, after);
    lemma_encode_concat(before, pattern);
    let start = utf8::encode_utf8(before).len() as int;
    assert(utf8::encode_utf8(string).subrange(start, start + utf8::encode_utf8(pattern).len())
        =~= utf8::encode_utf8(pattern));
}

/// The text whose bytes stand before the first end of a header is what stands before the first end
/// of a header in the text.
proof fn lemma_header_chars(string: Seq<char>, header: Seq<char>)
    requires
        ({
            let bytes = utf8::encode_utf8(string);
            let end = utf8::encode_utf8(HEADER_END@);
            let index = utf8::encode_utf8(header).len() as int;
            &&& utf8::encode_utf8(header) == bytes.take(index)
            &&& text::find_spec(bytes, end) == Some(index)
        }),
    ensures
        text::occurs_at(string, HEADER_END@, header.len() as int),
        header == string.take(header.len() as int),
        forall|earlier: int|
            0 <= earlier < header.len() ==> !#[trigger] text::occurs_at(
                string,
                HEADER_END@,
                earlier,
            ),
{
    let bytes = utf8::encode_utf8(string);
    let end = utf8::encode_utf8(HEADER_END@);
    let index = utf8::encode_utf8(header).len() as int;
    lemma_delimiters();
    text::lemma_find_from(bytes, end, 0);
    utf8::encode_utf8_valid_utf8(string);
    assert(bytes.subrange(index, index + end.len())[3] == bytes[index + 3]);
    lemma_ascii_boundaries(bytes, index + 3);
    utf8::valid_utf8_split(bytes, index + 4);
    let tail = bytes.subrange(index + 4, bytes.len() as int);
    utf8::decode_utf8_encode_utf8(tail);
    let after = utf8::decode_utf8(tail);
    let whole = header + HEADER_END@ + after;
    lemma_encode_concat(header + HEADER_END@, after);
    lemma_encode_concat(header, HEADER_END@);
    assert(utf8::encode_utf8(whole) =~= bytes);
    utf8::encode_utf8_decode_utf8(whole);
    utf8::encode_utf8_decode_utf8(string);
    assert(string == whole);
    assert(string.take(header.len() as int) =~= header);
    let start = header.len() as int;
    assert(string.subrange(start, start + HEADER_END@.len()) =~= HEADER_END@);
    assert forall|earlier: int| 0 <= earlier < header.len() implies !#[trigger] text::occurs_at(
        string,
        HEADER_END@,
        earlier,
    ) by {
        if text::occurs_at(string, HEADER_END@, earlier) {
            lemma_occurs_in_bytes(string, HEADER_END@, earlier);
            let before = string.take(earlier);
            let between = header.skip(earlier);
            assert(header =~= before + between);
            lemma_encode_concat(before, between);
            assert(utf8::encode_utf8(between).len() > 0);
        }
    }
}

/// Returns the length of the content that follows `header`, where it holds one.
fn content_length(header: &str) -> (length: Option<Option<usize>>)
    ensures
        content_length_spec(utf8::encode_utf8(header@)) == match length {
            Some(Some(length)) => Some(Some(length as nat)),
            Some(None) => Some(None),
            None => None,
        },
{
    proof {
        lemma_delimiters();
    }
    let mut rest: &[u8] = header.as_bytes();
    loop
        invariant
            utf8::encode_utf8(HEADER_FIELD_DELIMITER@).len() > 0,
            utf8::encode_utf8(HEADER_FIELD_NAME_DELIMITER@).len() > 0,
            content_length_spec(utf8::encode_utf8(header@)) == content_length_spec(rest@),
        decreases rest@.len(),
    {
        let (field, others) = text::split_once(rest, HEADER_FIELD_DELIMITER.as_bytes());
        let ghost fields = text::split_spec(
            rest@,
            utf8::encode_utf8(HEADER_FIELD_DELIMITER@),
        );
        assert(fields[0] == field@);
        let (name, value) = text::split_once(field, HEADER_FIELD_NAME_DELIMITER.as_bytes());
        if text::same_bytes(name, HEADER_CONTENT_LENGTH.as_bytes()) {
            return match value {
                Some(value) => {
                    let (length, _) = text::split_once(
                        value,
                        HEADER_FIELD_NAME_DELIMITER.as_bytes(),
                    );
                    Some(text::parse_length(length))
                },
                None => None,
            };
        }
        match others {
            Some(others) => {
                proof {
                    assert(fields.drop_first() =~= text::split_spec(
                        others@,
                        utf8::encode_utf8(HEADER_FIELD_DELIMITER@),
                    ));
                }
                rest = others;
            },
            None => {
                assert(fields_length(fields.drop_first()) is None);
                return None;
            },
        }
    }
}

/// Represents an LSP message.
#[derive(Debug, PartialEq)]
pub struct Message {
    /// The JSON-RPC object of the message.
    pub content: Object,
}

impl Message {
    /// Returns the header contained in `string`: what stands before the first end of a header.
    pub fn header(string: &str) -> (header: Result<Option<&str>, ComposeMessageMisstep>)
        ensures
            match header {
                Ok(Some(header)) => {
                    &&& text::occurs_at(string@, HEADER_END@, header@.len() as int)
                    &&& header@ == string@.take(header@.len() as int)
                    &&& forall|earlier: int|
                        0 <= earlier < header@.len() ==> !#[trigger] text::occurs_at(
                            string@,
                            HEADER_END@,
                            earlier,
                        )
                },
                Ok(None) => forall|index: int| !#[trigger]
                    text::occurs_at(string@, HEADER_END@, index),
                Err(_) => false,
            },
            match (header, text::find_spec(
                utf8::encode_utf8(string@),
                utf8::encode_utf8(HEADER_END@),
            )) {
                (Ok(Some(header)), Some(index)) => {
                    &&& 0 <= index <= utf8::encode_utf8(string@).len()
                    &&& utf8::encode_utf8(header@) == utf8::encode_utf8(string@).take(index)
                },
                (Ok(None), None) => true,
                _ => false,
            },
    {
        proof {
            lemma_delimiters();
            utf8::encode_utf8_valid_utf8(string@);
            text::lemma_find_from(
                utf8::encode_utf8(string@),
                utf8::encode_utf8(HEADER_END@),
                0,
            );
        }
        match text::find(string.as_bytes(), HEADER_END.as_bytes()) {
            Some(header_length) => {
                proof {
                    let bytes = utf8::encode_utf8(string@);
                    assert(bytes.subrange(header_length as int, header_length + 4)[0]
                        == bytes[header_length as int]);
                    lemma_ascii_boundaries(bytes, header_length as int);
                }
                if string.is_char_boundary(header_length) {
                    let (header, _) = string.split_at(header_length);
                    proof {
                        lemma_header_chars(string@, header@);
                    }
                    Ok(Some(header))
                } else {
                    Err(ComposeMessageMisstep::InvalidHeaderEnd)
                }
            },
            None => {
                proof {
                    assert forall|index: int| !#[trigger]
                        text::occurs_at(string@, HEADER_END@, index) by {
                        if text::occurs_at(string@, HEADER_END@, index) {
                            lemma_occurs_in_bytes(string@, HEADER_END@, index);
                        }
                    }
                }
                Ok(None)
            },
        }
    }

    /// Takes the text of the content of one message off the front of `elements`.
    ///
    /// Where `elements` do not hold a whole message yet, they stay as they are.
    pub fn compose(elements: &mut Vec<u8>) -> (content: Result<Poll<String>, ComposeMessageMisstep>)
        ensures
            compose_spec(old(elements)@) == (content_view(content), final(elements)@),
    {
        let ghost bytes = elements@;
        proof {
            lemma_delimiters();
            text::lemma_find_from(bytes, utf8::encode_utf8(HEADER_END@), 0);
        }
        let total: usize = elements.len();
        let string = match core::str::from_utf8(elements.as_slice()) {
            Ok(string) => string,
            Err(error) => {
                return Err(ComposeMessageMisstep::Utf8(error));
            },
        };
        let header = match Message::header(string) {
            Ok(Some(header)) => header,
            Ok(None) => {
                return Ok(Poll::Pending);
            },
            Err(misstep) => {
                return Err(misstep);
            },
        };
        let header_len: usize = header.len() + HEADER_END.len();
        let (object, length): (Result<String, ComposeMessageMisstep>, usize) = match content_length(
            header,
        ) {
            None => (Err(ComposeMessageMisstep::MissingContentLength), header_len),
            Some(None) => (Err(ComposeMessageMisstep::InvalidContentLength), header_len),
            Some(Some(content_length)) => match header_len.checked_add(content_length) {
                Some(total_len) => if total < total_len {
                    return Ok(Poll::Pending);
                } else if string.is_char_boundary(total_len) {
                    proof {
                        lemma_ascii_boundaries(bytes, header_len - 1);
                        lemma_boundary_in_prefix(bytes, header_len as int, total_len as int);
                    }
                    let (message, _) = string.split_at(total_len);
                    let (_, content) = message.split_at(header_len);
                    proof {
                        utf8::encode_utf8_decode_utf8(content@);
                        assert(utf8::encode_utf8(content@) =~= bytes.subrange(
                            header_len as int,
                            total_len as int,
                        ));
                    }
                    (Ok(content.to_owned()), total_len)
                } else {
                    (Err(ComposeMessageMisstep::InvalidContentLength), header_len)
                },
                None => (Err(ComposeMessageMisstep::InvalidContentLength), header_len),
            },
        };
        let remaining = elements.split_off(length);
        *elements = remaining;
        assert(elements@ =~= bytes.skip(length as int));
        match object {
            Ok(content) => Ok(Poll::Ready(content)),
            Err(misstep) => Err(misstep),
        }
    }

    /// Returns the bytes of a message whose content is the text `content`.
    pub fn into_bytes(content: &str) -> (bytes: Vec<u8>)
        ensures
            bytes@ == message_bytes(content@),
            bytes@ == utf8::encode_utf8("Content-Length: "@) + utf8::encode_utf8(
                text::decimal(utf8::encode_utf8(content@).len()),
            ) + utf8::encode_utf8("\r\n\r\n"@) + utf8::encode_utf8(content@),
    {
        proof {
            law_message_is_its_length_and_its_content(content@);
        }
        let length = text::decimal_text(content.as_bytes().len() as u64);
        HEADER_CONTENT_LENGTH.to_owned().concat(HEADER_FIELD_NAME_DELIMITER).concat(
            length.as_str(),
        ).concat(HEADER_END).concat(content).as_str().as_bytes_vec()
    }
}

impl Message {
    /// Returns the message of the object that was parsed out of the content of a message.
    pub fn composed(parsed: Result<Object, serde_json::Error>) -> (message: Result<
        Self,
        ComposeMessageMisstep,
    >)
        ensures
            message == match parsed {
                Ok(content) => Ok::<Self, ComposeMessageMisstep>(Message { content }),
                Err(error) => Err(ComposeMessageMisstep::InvalidContent(error)),
            },
    {
        match parsed {
            Ok(object) => Ok(Message::from(object)),
            Err(error) => Err(ComposeMessageMisstep::InvalidContent(error)),
        }
    }

    /// Returns the text of `self`.
    pub fn to_text(&self) -> (text: String)
        ensures
            text@ == self.content.kind.text(),
    {
        self.content.to_text()
    }
}

impl From<Object> for Message {
    fn from(value: Object) -> (message: Self)
        ensures
            message.content == value,
    {
        Message { content: value }
    }
}

impl vstd::std_specs::convert::FromSpecImpl<Object> for Message {
    open spec fn obeys_from_spec() -> bool {
        true
    }

    open spec fn from_spec(value: Object) -> Self {
        Message { content: value }
    }
}

impl From<RequestObject> for Message {
    fn from(request_obj: RequestObject) -> (message: Self)
        ensures
            message.content.jsonrpc == Version::V2_0,
            message.content.kind == Kind::Request(request_obj),
    {
        Message::from(Object::from(request_obj))
    }
}

impl vstd::std_specs::convert::FromSpecImpl<RequestObject> for Message {
    open spec fn obeys_from_spec() -> bool {
        true
    }

    open spec fn from_spec(request_obj: RequestObject) -> Self {
        Message {
            content: Object { jsonrpc: Version::V2_0, kind: Kind::Request(request_obj) },
        }
    }
}

impl From<ResponseObject> for Message {
    fn from(response_obj: ResponseObject) -> (message: Self)
        ensures
            message.content.jsonrpc == Version::V2_0,
            message.content.kind == Kind::Response(response_obj),
    {
        Message::from(Object::from(response_obj))
    }
}

impl vstd::std_specs::convert::FromSpecImpl<ResponseObject> for Message {
    open spec fn obeys_from_spec() -> bool {
        true
    }

    open spec fn from_spec(response_obj: ResponseObject) -> Self {
        Message {
            content: Object { jsonrpc: Version::V2_0, kind: Kind::Response(response_obj) },
        }
    }
}

impl From<Message> for Kind {
    fn from(message: Message) -> (kind: Self)
        ensures
            kind == message.content.kind,
    {
        Kind::from(message.content)
    }
}

impl vstd::std_specs::convert::FromSpecImpl<Message> for Kind {
    open spec fn obeys_from_spec() -> bool {
        true
    }

    open spec fn from_spec(message: Message) -> Self {
        message.content.kind
    }
}

impl ComposeMessageMisstep {
    /// The text of `self`.
    pub open spec fn text(self) -> Seq<char> {
        match self {
            ComposeMessageMisstep::InvalidHeaderEnd => ""@,
            ComposeMessageMisstep::Utf8(error) => utf8_error_text(error),
            ComposeMessageMisstep::MissingContentLength => "Header is missing content length"@,
            ComposeMessageMisstep::InvalidContentLength => "content length is invalid"@,
            ComposeMessageMisstep::InvalidContent(error) => "messge content is invalid: "@
                + json::error_text(error),
        }
    }

    /// Returns the text of `self`.
    pub fn to_text(&self) -> (text: String)
        ensures
            text@ == self.text(),
    {
        match self {
            ComposeMessageMisstep::InvalidHeaderEnd => "".to_owned(),
            ComposeMessageMisstep::Utf8(error) => utf8_error_to_text(error),
            ComposeMessageMisstep::MissingContentLength => {
                "Header is missing content length".to_owned()
            },
            ComposeMessageMisstep::InvalidContentLength => "content length is invalid".to_owned(),
            ComposeMessageMisstep::InvalidContent(error) => {
                let error = json::error_to_text(error);
                "messge content is invalid: ".to_owned().concat(error.as_str())
            },
        }
    }
}

/// The bytes of two texts, one after the other.
proof fn lemma_encode_concat(left: Seq<char>, right: Seq<char>)
    ensures
        utf8::encode_utf8(left + right) == utf8::encode_utf8(left) + utf8::encode_utf8(right),
    decreases left.len(),
{
    if left.len() == 0 {
        assert(left + right =~= right);
        assert(utf8::encode_utf8(left) =~= Seq::empty());
    } else {
        lemma_encode_concat(left.drop_first(), right);
        assert((left + right).drop_first() =~= left.drop_first() + right);
        assert((left + right)[0] == left[0]);
        assert(utf8::encode_utf8(left + right) =~= utf8::encode_utf8(left)
            + utf8::encode_utf8(right));
    }
}

/// The bytes of a text of ASCII characters, one for each.
proof fn lemma_encode_ascii(chars: Seq<char>)
    requires
        utf8::is_ascii_chars(chars),
    ensures
        utf8::encode_utf8(chars) == chars.map_values(|c: char| c as u8),
{
    utf8::is_ascii_chars_encode_utf8(chars);
    assert(utf8::encode_utf8(chars) =~= chars.map_values(|c: char| c as u8));
}

/// The decimal form of a number is made of digits, and has its value.
proof fn lemma_decimal(number: nat)
    ensures
        text::decimal(number).len() > 0,
        utf8::is_ascii_chars(text::decimal(number)),
        forall|i: int|
            0 <= i < text::decimal(number).len() ==> text::is_digit(
                #[trigger] utf8::encode_utf8(text::decimal(number))[i],
            ),
        utf8::encode_utf8(text::decimal(number)).len() == text::decimal(number).len(),
        text::digits_value(utf8::encode_utf8(text::decimal(number))) == number,
    decreases number,
{
    let digits = text::decimal(number);
    if number < 10 {
        lemma_encode_ascii(digits);
        let bytes = utf8::encode_utf8(digits);
        assert(bytes[0] == '0' as int + number);
        assert(bytes.drop_last() =~= Seq::empty());
        assert(text::digits_value(bytes.drop_last()) == 0);
    } else {
        let before = text::decimal(number / 10);
        lemma_decimal(number / 10);
        assert(digits =~= before + seq![text::digit_char(number % 10)]);
        lemma_encode_ascii(before);
        lemma_encode_ascii(digits);
        let bytes = utf8::encode_utf8(digits);
        assert(bytes.drop_last() =~= utf8::encode_utf8(before));
        assert(bytes.last() == '0' as int + number % 10);
        assert forall|i: int| 0 <= i < digits.len() implies text::is_digit(
            #[trigger] bytes[i],
        ) by {
            if i < before.len() {
                assert(bytes[i] == utf8::encode_utf8(before)[i]);
            }
        }
    }
}

/// A text in which the first byte of a delimiter does not stand is in one piece.
proof fn lemma_split_whole(whole: Seq<u8>, delimiter: Seq<u8>)
    requires
        delimiter.len() > 0,
        forall|i: int| 0 <= i < whole.len() ==> #[trigger] whole[i] != delimiter[0],
    ensures
        text::split_spec(whole, delimiter) == seq![whole],
{
    text::lemma_find_from(whole, delimiter, 0);
    if let Some(index) = text::find_spec(whole, delimiter) {
        assert(whole.subrange(index, index + delimiter.len())[0] == whole[index]);
    }
}

/// The header of a message gives the length of its content.
proof fn lemma_written_header(length: nat)
    requires
        length <= usize::MAX,
    ensures
        ({
            let header = utf8::encode_utf8(
                HEADER_CONTENT_LENGTH@ + HEADER_FIELD_NAME_DELIMITER@ + text::decimal(length),
            );
            &&& content_length_spec(header) == Some(Some(length))
            &&& forall|i: int| 0 <= i < header.len() ==> #[trigger] header[i] != 13
        }),
{
    let name = utf8::encode_utf8(HEADER_CONTENT_LENGTH@);
    let delimiter = utf8::encode_utf8(HEADER_FIELD_NAME_DELIMITER@);
    let digits = utf8::encode_utf8(text::decimal(length));
    let header = name + delimiter + digits;
    lemma_delimiters();
    lemma_decimal(length);
    lemma_encode_concat(
        HEADER_CONTENT_LENGTH@ + HEADER_FIELD_NAME_DELIMITER@,
        text::decimal(length),
    );
    lemma_encode_concat(HEADER_CONTENT_LENGTH@, HEADER_FIELD_NAME_DELIMITER@);
    reveal_strlit("Content-Length");
    lemma_encode_ascii(HEADER_CONTENT_LENGTH@);
    assert(forall|i: int|
        0 <= i < name.len() ==> #[trigger] name[i] != 13 && name[i] != 58);
    assert(forall|i: int| 0 <= i < digits.len() ==> text::is_digit(#[trigger] digits[i]));
    assert forall|i: int| 0 <= i < header.len() implies #[trigger] header[i] != 13 by {
        if i < name.len() {
            assert(header[i] == name[i]);
        } else if i >= name.len() + 2 {
            assert(header[i] == digits[i - name.len() - 2]);
        }
    }
    lemma_split_whole(header, utf8::encode_utf8(HEADER_FIELD_DELIMITER@));
    lemma_split_whole(digits, delimiter);
    assert(text::occurs_at(header, delimiter, name.len() as int)) by {
        assert(header.subrange(name.len() as int, name.len() + 2int) =~= delimiter);
    }
    assert forall|i: int| 0 <= i < name.len() implies !#[trigger] text::occurs_at(
        header,
        delimiter,
        i,
    ) by {
        if text::occurs_at(header, delimiter, i) {
            assert(header.subrange(i, i + delimiter.len())[0] == header[i]);
            assert(header[i] == name[i]);
        }
    }
    text::lemma_find_is(header, delimiter, 0, name.len() as int);
    assert(header.subrange(0, name.len() as int) =~= name);
    assert(header.subrange(name.len() + 2int, header.len() as int) =~= digits);
    let items = text::split_spec(header, delimiter);
    assert(items =~= seq![name, digits]);
    assert(text::without_plus(digits) == digits);
    assert(names_length(header) && field_length(header) == Some(Some(length)));
    assert(fields_length(seq![header]) == Some(Some(length)));
}

/// The end of a header without a carriage return is found right behind it.
proof fn lemma_find_header_end(header: Seq<u8>, tail: Seq<u8>)
    requires
        forall|i: int| 0 <= i < header.len() ==> #[trigger] header[i] != 13,
    ensures
        text::find_spec(
            header + utf8::encode_utf8(HEADER_END@) + tail,
            utf8::encode_utf8(HEADER_END@),
        ) == Some(header.len() as int),
{
    let end = utf8::encode_utf8(HEADER_END@);
    let bytes = header + end + tail;
    lemma_delimiters();
    assert(text::occurs_at(bytes, end, header.len() as int)) by {
        assert(bytes.subrange(header.len() as int, header.len() + 4int) =~= end);
    }
    assert forall|i: int| 0 <= i < header.len() implies !#[trigger] text::occurs_at(
        bytes,
        end,
        i,
    ) by {
        if text::occurs_at(bytes, end, i) {
            assert(bytes.subrange(i, i + end.len())[0] == bytes[i]);
            assert(bytes[i] == header[i]);
        }
    }
    text::lemma_find_is(bytes, end, 0, header.len() as int);
}

/// Between two UTF-8 texts a character starts.
proof fn lemma_boundary_between(left: Seq<u8>, right: Seq<u8>)
    requires
        utf8::valid_utf8(left),
        utf8::valid_utf8(right),
    ensures
        utf8::valid_utf8(left + right),
        utf8::is_char_boundary(left + right, left.len() as int),
{
    let both = left + right;
    utf8::valid_utf8_concat(left, right);
    if right.len() == 0 {
        utf8::is_char_boundary_start_end_of_seq(both);
    } else {
        assert(utf8::valid_first_scalar(right));
        assert(both[left.len() as int] == right[0]);
        utf8::is_char_boundary_iff_not_is_continuation_byte(both, left.len() as int);
    }
}

/// The first field of a header that has the name of the content length decides, also where it gives
/// no length; where no field has the name, the content length is missing.
pub proof fn law_first_content_length_decides(fields: Seq<Seq<u8>>, index: int)
    requires
        0 <= index <= fields.len(),
        forall|i: int| 0 <= i < index ==> !names_length(#[trigger] fields[i]),
        index < fields.len() ==> names_length(fields[index]),
    ensures
        fields_length(fields) == if index < fields.len() {
            field_length(fields[index])
        } else {
            None
        },
    decreases fields.len(),
{
    if index > 0 {
        let others = fields.drop_first();
        assert(!names_length(fields[0]));
        assert forall|i: int| 0 <= i < index - 1 implies !names_length(#[trigger] others[i]) by {
            assert(others[i] == fields[i + 1]);
        }
        law_first_content_length_decides(others, index - 1);
    }
}

/// What was written as a message is composed again: `content` comes out, and what followed the
/// message is left.
///
/// What follows has to be UTF-8 too, since the bytes are read as one text.
pub proof fn law_compose_undoes_into_bytes(content: Seq<char>, rest: Seq<u8>)
    requires
        utf8::valid_utf8(rest),
        message_bytes(content).len() <= usize::MAX,
    ensures
        compose_spec(message_bytes(content) + rest) == (
            Ok::<Poll<Seq<char>>, ComposeMessageMisstep>(Poll::Ready(content)),
            rest,
        ),
{
    let length = utf8::encode_utf8(content).len();
    let header_chars = HEADER_CONTENT_LENGTH@ + HEADER_FIELD_NAME_DELIMITER@ + text::decimal(
        length,
    );
    let header = utf8::encode_utf8(header_chars);
    let end = utf8::encode_utf8(HEADER_END@);
    let message = message_bytes(content);
    let bytes = message + rest;
    lemma_delimiters();
    lemma_encode_concat(header_chars + HEADER_END@, content);
    lemma_encode_concat(header_chars, HEADER_END@);
    assert(message == header + end + utf8::encode_utf8(content));
    lemma_written_header(length);
    utf8::encode_utf8_valid_utf8(
        HEADER_CONTENT_LENGTH@ + HEADER_FIELD_NAME_DELIMITER@ + text::decimal(length) + HEADER_END@
            + content,
    );
    lemma_boundary_between(message, rest);
    lemma_find_header_end(header, utf8::encode_utf8(content) + rest);
    assert(bytes =~= header + end + (utf8::encode_utf8(content) + rest));
    assert(bytes.take(header.len() as int) =~= header);
    let start = header.len() + 4int;
    assert(bytes.subrange(start, start + length) =~= utf8::encode_utf8(content));
    utf8::encode_utf8_decode_utf8(content);
    assert(bytes.skip(start + length) =~= rest);
}

/// The bytes of messages with `contents`, one after the other.
pub open spec fn messages_bytes(contents: Seq<Seq<char>>) -> Seq<u8>
    decreases contents.len(),
{
    if contents.len() == 0 {
        Seq::empty()
    } else {
        message_bytes(contents[0]) + messages_bytes(contents.drop_first())
    }
}

/// The bytes of messages are UTF-8.
proof fn lemma_messages_valid(contents: Seq<Seq<char>>)
    ensures
        utf8::valid_utf8(messages_bytes(contents)),
    decreases contents.len(),
{
    if contents.len() > 0 {
        lemma_messages_valid(contents.drop_first());
        utf8::encode_utf8_valid_utf8(
            HEADER_CONTENT_LENGTH@ + HEADER_FIELD_NAME_DELIMITER@ + text::decimal(
                utf8::encode_utf8(contents[0]).len(),
            ) + HEADER_END@ + contents[0],
        );
        utf8::valid_utf8_concat(
            message_bytes(contents[0]),
            messages_bytes(contents.drop_first()),
        );
    }
}

/// Messages come out in the order in which they were written, one with each composition.
pub proof fn law_compose_keeps_the_order(contents: Seq<Seq<char>>)
    requires
        contents.len() > 0,
        message_bytes(contents[0]).len() <= usize::MAX,
    ensures
        compose_spec(messages_bytes(contents)) == (
            Ok::<Poll<Seq<char>>, ComposeMessageMisstep>(Poll::Ready(contents[0])),
            messages_bytes(contents.drop_first()),
        ),
{
    lemma_messages_valid(contents.drop_first());
    law_compose_undoes_into_bytes(contents[0], messages_bytes(contents.drop_first()));
}

/// A message that has not arrived whole is waited for: nothing is taken off, and unless the last
/// character is cut in two, there is no misstep.
pub proof fn law_compose_waits_for_the_whole_message(content: Seq<char>, end: int)
    requires
        message_bytes(content).len() <= usize::MAX,
        0 <= end < message_bytes(content).len(),
    ensures
        ({
            let bytes = message_bytes(content).take(end);
            compose_spec(bytes) == (
                if utf8::is_char_boundary(message_bytes(content), end) {
                    Ok::<Poll<Seq<char>>, ComposeMessageMisstep>(Poll::Pending)
                } else {
                    Err(ComposeMessageMisstep::Utf8(utf8_error(bytes)))
                },
                bytes,
            )
        }),
{
    let length = utf8::encode_utf8(content).len();
    let header_chars = HEADER_CONTENT_LENGTH@ + HEADER_FIELD_NAME_DELIMITER@ + text::decimal(
        length,
    );
    let header = utf8::encode_utf8(header_chars);
    let header_end = utf8::encode_utf8(HEADER_END@);
    let message = message_bytes(content);
    let bytes = message.take(end);
    let missing = message.subrange(end, message.len() as int);
    lemma_delimiters();
    lemma_encode_concat(header_chars + HEADER_END@, content);
    lemma_encode_concat(header_chars, HEADER_END@);
    assert(message == header + header_end + utf8::encode_utf8(content));
    lemma_written_header(length);
    utf8::encode_utf8_valid_utf8(header_chars + HEADER_END@ + content);
    assert(bytes =~= message.subrange(0, end));
    assert(message =~= bytes + missing);
    if utf8::is_char_boundary(message, end) {
        utf8::valid_utf8_split(message, end);
        let start = header.len() + 4int;
        if end < start {
            text::lemma_find_from(bytes, header_end, 0);
            if let Some(index) = text::find_spec(bytes, header_end) {
                assert(bytes.subrange(index, index + header_end.len())[0] == bytes[index]);
                assert(bytes[index] == header[index]);
            }
        } else {
            let tail = utf8::encode_utf8(content).take(end - start);
            assert(bytes =~= header + header_end + tail);
            lemma_find_header_end(header, tail);
            assert(bytes.take(header.len() as int) =~= header);
        }
    } else if utf8::valid_utf8(bytes) {
        if !utf8::valid_utf8(missing) {
            utf8::partial_valid_partial_invalid_utf8(message, end);
        }
        lemma_boundary_between(bytes, missing);
    }
}

/// Composing takes bytes off the front and touches no others. It takes none while it waits for more
/// or where the bytes are not UTF-8, and it takes at least one in every other case.
pub proof fn law_compose_takes_off_the_front(bytes: Seq<u8>)
    ensures
        ({
            let (composed, left) = compose_spec(bytes);
            &&& left.len() <= bytes.len()
            &&& left == bytes.skip(bytes.len() - left.len())
            &&& (composed == Ok::<Poll<Seq<char>>, ComposeMessageMisstep>(Poll::Pending)
                || composed matches Err(ComposeMessageMisstep::Utf8(_))) <==> left == bytes
        }),
{
    lemma_delimiters();
    text::lemma_find_from(bytes, utf8::encode_utf8(HEADER_END@), 0);
    let (composed, left) = compose_spec(bytes);
    assert(bytes.skip(0) =~= bytes);
    assert(left =~= bytes.skip(bytes.len() - left.len()));
}

/// The bytes that delimit a header, and those of the name of the content length.
proof fn lemma_header_literals()
    ensures
        "Content-Length: "@ == HEADER_CONTENT_LENGTH@ + HEADER_FIELD_NAME_DELIMITER@,
        utf8::encode_utf8("Content-Length: "@) == utf8::encode_utf8(HEADER_CONTENT_LENGTH@)
            + utf8::encode_utf8(HEADER_FIELD_NAME_DELIMITER@),
        utf8::encode_utf8(HEADER_CONTENT_LENGTH@).len() == 14,
        forall|i: int|
            0 <= i < 14 ==> #[trigger] utf8::encode_utf8(HEADER_CONTENT_LENGTH@)[i] != 58,
{
    reveal_strlit("Content-Length: ");
    reveal_strlit("Content-Length");
    reveal_strlit(": ");
    assert("Content-Length: "@ =~= HEADER_CONTENT_LENGTH@ + HEADER_FIELD_NAME_DELIMITER@);
    lemma_encode_concat(HEADER_CONTENT_LENGTH@, HEADER_FIELD_NAME_DELIMITER@);
    lemma_encode_ascii(HEADER_CONTENT_LENGTH@);
}

/// A header ends with an empty line, its fields are lines, and a name is parted from its value by a
/// colon and a space.
pub proof fn law_headers_are_lines()
    ensures
        HEADER_CONTENT_LENGTH@ == "Content-Length"@,
        utf8::encode_utf8(HEADER_FIELD_NAME_DELIMITER@) == seq![58u8, 32u8],
        utf8::encode_utf8(HEADER_FIELD_DELIMITER@) == seq![13u8, 10u8],
        utf8::encode_utf8(HEADER_END@) == seq![13u8, 10u8, 13u8, 10u8],
{
    lemma_delimiters();
}

/// A message is `Content-Length: `, the number of the bytes of its content in decimal, an empty line
/// and the content.
pub proof fn law_message_is_its_length_and_its_content(content: Seq<char>)
    ensures
        message_bytes(content) == utf8::encode_utf8("Content-Length: "@) + utf8::encode_utf8(
            text::decimal(utf8::encode_utf8(content).len()),
        ) + utf8::encode_utf8("\r\n\r\n"@) + utf8::encode_utf8(content),
{
    let digits = text::decimal(utf8::encode_utf8(content).len());
    lemma_header_literals();
    lemma_encode_concat("Content-Length: "@ + digits + HEADER_END@, content);
    lemma_encode_concat("Content-Length: "@ + digits, HEADER_END@);
    lemma_encode_concat("Content-Length: "@, digits);
}

/// A field gives the content length if and only if it is `Content-Length`, or starts with that, a
/// colon and a space.
pub proof fn law_content_length_is_told_by_its_name(field: Seq<u8>)
    ensures
        names_length(field) <==> {
            ||| field == utf8::encode_utf8("Content-Length"@)
            ||| field.len() >= 16 && field.take(16) == utf8::encode_utf8("Content-Length: "@)
        },
{
    let name = utf8::encode_utf8(HEADER_CONTENT_LENGTH@);
    let delimiter = utf8::encode_utf8(HEADER_FIELD_NAME_DELIMITER@);
    lemma_header_literals();
    lemma_delimiters();
    text::lemma_find_from(field, delimiter, 0);
    if field == name {
        if let Some(index) = text::find_spec(field, delimiter) {
            assert(field.subrange(index, index + delimiter.len())[0] == name[index]);
        }
    } else if field.len() >= 16 && field.take(16) == utf8::encode_utf8("Content-Length: "@) {
        lemma_named_field(field);
        assert(field.take(14) =~= field.take(16).take(14));
        assert(field.take(16).take(14) =~= name);
    } else if names_length(field) {
        if let Some(index) = text::find_spec(field, delimiter) {
            assert(field.subrange(0, index) == name);
            assert(index == 14);
            assert(field.take(16) =~= field.subrange(0, 14) + field.subrange(14, 16));
        }
    }
}

/// In a field that starts with the name of the content length, the delimiter stands right behind the
/// name.
proof fn lemma_named_field(field: Seq<u8>)
    requires
        field.len() >= 16,
        field.take(16) == utf8::encode_utf8("Content-Length: "@),
    ensures
        text::find_spec(field, utf8::encode_utf8(HEADER_FIELD_NAME_DELIMITER@)) == Some(14int),
{
    let name = utf8::encode_utf8(HEADER_CONTENT_LENGTH@);
    let delimiter = utf8::encode_utf8(HEADER_FIELD_NAME_DELIMITER@);
    lemma_header_literals();
    lemma_delimiters();
    let start = field.take(16);
    assert(start[14] == 58 && start[15] == 32);
    assert(field.subrange(14, 16) =~= delimiter) by {
        assert(field[14] == start[14] && field[15] == start[15]);
    }
    assert(text::occurs_at(field, delimiter, 14));
    assert forall|i: int| 0 <= i < 14 implies !#[trigger] text::occurs_at(field, delimiter, i) by {
        if text::occurs_at(field, delimiter, i) {
            assert(field.subrange(i, i + delimiter.len())[0] == field[i]);
            assert(field[i] == start[i]);
            assert(start[i] == name[i]);
        }
    }
    text::lemma_find_is(field, delimiter, 0, 14);
}

/// The value of a field is what follows its name up to the next colon and space, and the length is
/// read of all of it; a field without a value gives none.
pub proof fn law_content_length_is_read_of_the_value(value: Seq<u8>, more: Seq<u8>)
    requires
        ({
            let delimiter = seq![58u8, 32u8];
            forall|i: int|
                i < value.len() ==> !#[trigger] text::occurs_at(
                    value + delimiter + more,
                    delimiter,
                    i,
                )
        }),
    ensures
        ({
            let start = utf8::encode_utf8("Content-Length: "@);
            &&& field_length(start + value) == Some(text::length_spec(value))
            &&& field_length(start + value + seq![58u8, 32u8] + more) == Some(
                text::length_spec(value),
            )
            &&& field_length(utf8::encode_utf8("Content-Length"@)) is None
        }),
{
    let name = utf8::encode_utf8(HEADER_CONTENT_LENGTH@);
    let delimiter = seq![58u8, 32u8];
    let start = utf8::encode_utf8("Content-Length: "@);
    let longer = value + delimiter + more;
    lemma_header_literals();
    lemma_delimiters();
    text::lemma_find_from(name, delimiter, 0);
    if let Some(index) = text::find_spec(name, delimiter) {
        assert(name.subrange(index, index + delimiter.len())[0] == name[index]);
    }
    // The value alone.
    let field = start + value;
    assert(field.take(16) =~= start);
    lemma_named_field(field);
    assert(field.subrange(16, field.len() as int) =~= value);
    text::lemma_find_from(value, delimiter, 0);
    if let Some(index) = text::find_spec(value, delimiter) {
        assert(longer.subrange(index, index + 2) =~= value.subrange(index, index + 2));
        assert(text::occurs_at(longer, delimiter, index));
    }
    let items = text::split_spec(field, delimiter);
    assert(items == seq![field.subrange(0, 14)] + text::split_spec(value, delimiter));
    assert(items[1] == value);
    // The value with something behind it.
    let field = start + value + delimiter + more;
    assert(field.take(16) =~= start);
    lemma_named_field(field);
    assert(field.subrange(16, field.len() as int) =~= longer);
    assert(longer.subrange(value.len() as int, value.len() + 2int) =~= delimiter);
    assert(text::occurs_at(longer, delimiter, value.len() as int));
    text::lemma_find_is(longer, delimiter, 0, value.len() as int);
    let items = text::split_spec(field, delimiter);
    assert(items == seq![field.subrange(0, 14)] + text::split_spec(longer, delimiter));
    assert(text::split_spec(longer, delimiter)[0] == longer.subrange(0, value.len() as int));
    assert(longer.subrange(0, value.len() as int) =~= value);
    assert(items[1] == value);
}

/// The content length of a header is that of its first line that is named so; it has none where no
/// line is named so.
pub proof fn law_content_length_is_that_of_the_first_line(header: Seq<u8>, index: int)
    requires
        ({
            let lines = text::split_spec(header, seq![13u8, 10u8]);
            &&& 0 <= index <= lines.len()
            &&& forall|i: int| 0 <= i < index ==> !names_length(#[trigger] lines[i])
            &&& index < lines.len() ==> names_length(lines[index])
        }),
    ensures
        ({
            let lines = text::split_spec(header, seq![13u8, 10u8]);
            content_length_spec(header) == if index < lines.len() {
                field_length(lines[index])
            } else {
                None
            }
        }),
{
    lemma_delimiters();
    law_first_content_length_decides(text::split_spec(header, seq![13u8, 10u8]), index);
}

/// Where `header` and what follows it are UTF-8, the first empty line ends the header, and the
/// header says that the content has `length` bytes: exactly these bytes are taken as the content and
/// what follows them is left; as long as fewer follow, nothing is taken.
///
/// A length that ends inside a character, or that goes beyond what a `usize` holds, is invalid, and
/// so is one that is no number; a header that says none misses it. Then the header is dropped.
pub proof fn law_content_is_as_long_as_the_header_says(header: Seq<u8>, tail: Seq<u8>)
    requires
        utf8::valid_utf8(header + seq![13u8, 10u8, 13u8, 10u8] + tail),
        ({
            let end = seq![13u8, 10u8, 13u8, 10u8];
            forall|i: int|
                0 <= i < header.len() ==> !#[trigger] text::occurs_at(header + end + tail, end, i)
        }),
    ensures
        ({
            let bytes = header + seq![13u8, 10u8, 13u8, 10u8] + tail;
            let start = header.len() + 4int;
            let (composed, left) = compose_spec(bytes);
            match content_length_spec(header) {
                Some(Some(length)) => if start + length > usize::MAX {
                    &&& composed matches Err(ComposeMessageMisstep::InvalidContentLength)
                    &&& left == tail
                } else if tail.len() < length {
                    &&& composed matches Ok(Poll::Pending)
                    &&& left == bytes
                } else if utf8::is_char_boundary(bytes, start + length) {
                    &&& composed matches Ok(Poll::Ready(content))
                    &&& utf8::encode_utf8(content) == tail.take(length as int)
                    &&& left == tail.skip(length as int)
                } else {
                    &&& composed matches Err(ComposeMessageMisstep::InvalidContentLength)
                    &&& left == tail
                },
                Some(None) => {
                    &&& composed matches Err(ComposeMessageMisstep::InvalidContentLength)
                    &&& left == tail
                },
                None => {
                    &&& composed matches Err(ComposeMessageMisstep::MissingContentLength)
                    &&& left == tail
                },
            }
        }),
{
    let end = seq![13u8, 10u8, 13u8, 10u8];
    let bytes = header + end + tail;
    let start = header.len() + 4int;
    lemma_delimiters();
    assert(bytes.subrange(header.len() as int, start) =~= end);
    assert(text::occurs_at(bytes, end, header.len() as int));
    text::lemma_find_is(bytes, end, 0, header.len() as int);
    assert(bytes.take(header.len() as int) =~= header);
    assert(bytes.skip(start) =~= tail);
    if let Some(Some(length)) = content_length_spec(header) {
        if tail.len() >= length && utf8::is_char_boundary(bytes, start + length) {
            assert(bytes[start - 1] == 10);
            lemma_ascii_boundaries(bytes, start - 1);
            lemma_boundary_in_prefix(bytes, start, start + length);
            utf8::valid_utf8_split(bytes.subrange(0, start + length), start);
            let taken = bytes.subrange(start, start + length);
            assert(bytes.subrange(0, start + length).subrange(start, start + length) =~= taken);
            utf8::decode_utf8_encode_utf8(taken);
            assert(taken =~= tail.take(length as int));
            assert(bytes.skip(start + length) =~= tail.skip(length as int));
        }
    }
}

/// What is not UTF-8, and what has no empty line yet, stays as it is.
pub proof fn law_nothing_is_taken_without_a_header(bytes: Seq<u8>)
    ensures
        !utf8::valid_utf8(bytes) ==> compose_spec(bytes) == (
            Err::<Poll<Seq<char>>, ComposeMessageMisstep>(
                ComposeMessageMisstep::Utf8(utf8_error(bytes)),
            ),
            bytes,
        ),
        ({
            let end = seq![13u8, 10u8, 13u8, 10u8];
            &&& utf8::valid_utf8(bytes)
            &&& forall|i: int| !#[trigger] text::occurs_at(bytes, end, i)
        }) ==> compose_spec(bytes) == (
            Ok::<Poll<Seq<char>>, ComposeMessageMisstep>(Poll::Pending),
            bytes,
        ),
{
    lemma_delimiters();
    text::lemma_find_from(bytes, seq![13u8, 10u8, 13u8, 10u8], 0);
}

/// Any header that says how many bytes `content` has frames it: the content comes out whole, and
/// what follows it is left.
pub proof fn law_any_header_of_that_length_frames_a_content(
    header: Seq<u8>,
    content: Seq<char>,
    rest: Seq<u8>,
)
    requires
        utf8::valid_utf8(header),
        utf8::valid_utf8(rest),
        ({
            let end = seq![13u8, 10u8, 13u8, 10u8];
            let tail = utf8::encode_utf8(content) + rest;
            forall|i: int|
                0 <= i < header.len() ==> !#[trigger] text::occurs_at(header + end + tail, end, i)
        }),
        content_length_spec(header) == Some(Some(utf8::encode_utf8(content).len())),
        header.len() + 4 + utf8::encode_utf8(content).len() <= usize::MAX,
    ensures
        compose_spec(header + seq![13u8, 10u8, 13u8, 10u8] + (utf8::encode_utf8(content) + rest)) == (
            Ok::<Poll<Seq<char>>, ComposeMessageMisstep>(Poll::Ready(content)),
            rest,
        ),
{
    let end = seq![13u8, 10u8, 13u8, 10u8];
    let encoded = utf8::encode_utf8(content);
    let tail = encoded + rest;
    let bytes = header + end + tail;
    lemma_delimiters();
    utf8::encode_utf8_valid_utf8(HEADER_END@);
    utf8::encode_utf8_valid_utf8(content);
    lemma_boundary_between(header, end);
    lemma_boundary_between(header + end, encoded);
    lemma_boundary_between(header + end + encoded, rest);
    assert(bytes =~= header + end + encoded + rest);
    law_content_is_as_long_as_the_header_says(header, tail);
    assert(tail.take(encoded.len() as int) =~= encoded);
    assert(tail.skip(encoded.len() as int) =~= rest);
    let composed = compose_spec(bytes).0->Ok_0->Ready_0;
    utf8::encode_utf8_decode_utf8(composed);
    utf8::encode_utf8_decode_utf8(content);
}

/// What composing a content gave shows the content, the waiting and the misstep as they are.
pub proof fn law_composed_content_is_shown_as_it_is(content: String, misstep: ComposeMessageMisstep)
    ensures
        content_view(Ok(Poll::Ready(content))) == Ok::<Poll<Seq<char>>, ComposeMessageMisstep>(
            Poll::Ready(content@),
        ),
        content_view(Ok(Poll::Pending)) == Ok::<Poll<Seq<char>>, ComposeMessageMisstep>(
            Poll::Pending,
        ),
        content_view(Err(misstep)) == Err::<Poll<Seq<char>>, ComposeMessageMisstep>(misstep),
{
}

/// The texts of missteps.
pub proof fn law_texts_of_missteps(misstep: ComposeMessageMisstep)
    ensures
        misstep.text() == match misstep {
            ComposeMessageMisstep::InvalidHeaderEnd => ""@,
            ComposeMessageMisstep::Utf8(error) => utf8_error_text(error),
            ComposeMessageMisstep::MissingContentLength => "Header is missing content length"@,
            ComposeMessageMisstep::InvalidContentLength => "content length is invalid"@,
            ComposeMessageMisstep::InvalidContent(error) => "messge content is invalid: "@
                + json::error_text(error),
        },
{
}

} // verus!
