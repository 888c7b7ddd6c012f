//! Implements the lines that a language server writes to its error output.
use vstd::prelude::*;
use vstd::utf8;

use crate::message::Poll;
use crate::text;

verus! {

/// The end of a line.
pub const LINE_END: &'static str = "\n";

/// An error while composing an error message.
#[derive(Clone, Copy, Debug, Eq, PartialEq, Structural)]
pub struct ErrorMessageCompositionError;

impl ErrorMessageCompositionError {
    /// Returns the text of `self`.
    pub fn to_text(&self) -> (text: String)
        ensures
            text@ == "Error while composing error message"@,
    {
        "Error while composing error message".to_owned()
    }
}

/// An error message.
#[derive(Debug, PartialEq)]
pub struct ErrorMessage {
    /// The message.
    pub line: String,
}

/// What composing an error message out of `bytes` gives, and the bytes that it leaves.
pub open spec fn compose_line_spec(bytes: Seq<u8>) -> (
    Result<Poll<Seq<char>>, ErrorMessageCompositionError>,
    Seq<u8>,
) {
    if !utf8::valid_utf8(bytes) {
        (Err(ErrorMessageCompositionError), Seq::empty())
    } else {
        match text::find_spec(bytes, utf8::encode_utf8(LINE_END@)) {
            Some(index) => (
                Ok(Poll::Ready(utf8::decode_utf8(bytes.take(index)))),
                bytes.skip(index + 1),
            ),
            None => (Ok(Poll::Pending), bytes),
        }
    }
}

/// What composing an error message gave.
pub open spec fn line_view(
    message: Result<Poll<ErrorMessage>, ErrorMessageCompositionError>,
) -> Result<Poll<Seq<char>>, ErrorMessageCompositionError> {
    match message {
        Ok(Poll::Ready(message)) => Ok(Poll::Ready(message.line@)),
        Ok(Poll::Pending) => Ok(Poll::Pending),
        Err(error) => Err(error),
    }
}

/// The byte of the end of a line.
proof fn lemma_line_end()
    ensures
        utf8::encode_utf8(LINE_END@) == seq![10u8],
{
    reveal_strlit("\n");
    utf8::is_ascii_chars_encode_utf8(LINE_END@);
    assert(utf8::encode_utf8(LINE_END@) =~= seq![10u8]);
}

impl ErrorMessage {
    /// Takes one line off the front of `elements`.
    ///
    /// Where `elements` are not UTF-8, all of them are dropped.
    pub fn compose(elements: &mut Vec<u8>) -> (message: Result<
        Poll<Self>,
        ErrorMessageCompositionError,
    >)
        ensures
            compose_line_spec(old(elements)@) == (line_view(message), final(elements)@),
    {
        let ghost bytes = elements@;
        proof {
            lemma_line_end();
            text::lemma_find_from(bytes, utf8::encode_utf8(LINE_END@), 0);
        }
        let (line, length): (String, usize) = match core::str::from_utf8(elements.as_slice()) {
            Ok(string) => match text::find(string.as_bytes(), LINE_END.as_bytes()) {
                Some(index) => {
                    proof {
                        assert(bytes.subrange(index as int, index + 1)[0] == bytes[index as int]);
                        utf8::is_char_boundary_iff_not_is_continuation_byte(bytes, index as int);
                    }
                    let (line, _) = string.split_at(index);
                    proof {
                        utf8::encode_utf8_decode_utf8(line@);
                        assert(utf8::encode_utf8(line@) =~= bytes.take(index as int));
                    }
                    (line.to_owned(), index)
                },
                // elements does not contain a new line.
                None => {
                    return Ok(Poll::Pending);
                },
            },
            // elements has some invalid utf8.
            Err(_) => {
                *elements = Vec::new();
                return Err(ErrorMessageCompositionError);
            },
        };
        let total: usize = elements.len();
        assert(length < total);
        let remaining = elements.split_off(length + 1);
        *elements = remaining;
        assert(elements@ =~= bytes.skip(length + 1));
        Ok(Poll::Ready(ErrorMessage { line }))
    }

    /// Returns the text of `self`.
    pub fn to_text(&self) -> (text: String)
        ensures
            text@ == self.line@,
    {
        self.line.as_str().to_owned()
    }
}

/// The bytes of a character that takes more than one are above those of ASCII characters.
proof fn lemma_high_byte(bits: u8)
    by (bit_vector)
    ensures
        0x80u8 | bits >= 0x80,
        0xC0u8 | bits >= 0x80,
        0xE0u8 | bits >= 0x80,
        0xF0u8 | bits >= 0x80,
{
}

/// A text without the end of a line has no byte of one.
proof fn lemma_no_line_end(line: Seq<char>)
    requires
        !line.contains('\n'),
    ensures
        forall|i: int|
            0 <= i < utf8::encode_utf8(line).len() ==> #[trigger] utf8::encode_utf8(line)[i] != 10,
    decreases line.len(),
{
    if line.len() > 0 {
        let scalar = line[0] as u32;
        let first = utf8::encode_scalar(scalar);
        let others = line.drop_first();
        assert(!others.contains('\n')) by {
            if others.contains('\n') {
                let i = choose|i: int| 0 <= i < others.len() && others[i] == '\n';
                assert(line[i + 1] == '\n');
            }
        }
        lemma_no_line_end(others);
        utf8::char_is_scalar(line[0]);
        utf8::char_u32_cast(line[0], scalar);
        assert(scalar <= 0x7F ==> (scalar & 0x7F) as u8 == scalar) by (bit_vector);
        lemma_high_byte((scalar & 0x3F) as u8);
        lemma_high_byte(((scalar >> 6) & 0x1F) as u8);
        lemma_high_byte(((scalar >> 6) & 0x3F) as u8);
        lemma_high_byte(((scalar >> 12) & 0x0F) as u8);
        lemma_high_byte(((scalar >> 12) & 0x3F) as u8);
        lemma_high_byte(((scalar >> 18) & 0x7) as u8);
        assert(forall|i: int| 0 <= i < first.len() ==> #[trigger] first[i] != 10);
        assert forall|i: int|
            0 <= i < utf8::encode_utf8(line).len() implies #[trigger] utf8::encode_utf8(line)[i]
            != 10 by {
            if i < first.len() {
                assert(utf8::encode_utf8(line)[i] == first[i]);
            } else {
                assert(utf8::encode_utf8(line)[i] == utf8::encode_utf8(others)[i - first.len()]);
            }
        }
    }
}

/// A line that was written is composed again, and what followed its end is left.
///
/// What follows has to be UTF-8 too, since the bytes are read as one text.
pub proof fn law_compose_reads_a_line(line: Seq<char>, rest: Seq<u8>)
    requires
        utf8::valid_utf8(rest),
        !line.contains('\n'),
    ensures
        compose_line_spec(utf8::encode_utf8(line) + utf8::encode_utf8(LINE_END@) + rest) == (
            Ok::<Poll<Seq<char>>, ErrorMessageCompositionError>(Poll::Ready(line)),
            rest,
        ),
{
    let written = utf8::encode_utf8(line);
    let end = utf8::encode_utf8(LINE_END@);
    let bytes = written + end + rest;
    lemma_line_end();
    lemma_no_line_end(line);
    utf8::encode_utf8_valid_utf8(line);
    utf8::encode_utf8_valid_utf8(LINE_END@);
    utf8::valid_utf8_concat(written, end);
    utf8::valid_utf8_concat(written + end, rest);
    utf8::encode_utf8_decode_utf8(line);
    assert(bytes.subrange(written.len() as int, written.len() + 1int) =~= end);
    assert forall|i: int| 0 <= i < written.len() implies !#[trigger] text::occurs_at(
        bytes,
        end,
        i,
    ) by {
        if text::occurs_at(bytes, end, i) {
            assert(bytes.subrange(i, i + end.len())[0] == bytes[i]);
            assert(bytes[i] == written[i]);
        }
    }
    text::lemma_find_is(bytes, end, 0, written.len() as int);
    assert(bytes.take(written.len() as int) =~= written);
    assert(bytes.skip(written.len() + 1int) =~= rest);
}

/// A line ends with a line feed, whatever stands before it; without one everything is waited for,
/// and what is not UTF-8 is dropped.
pub proof fn law_error_output_is_lines(line: Seq<char>, rest: Seq<u8>, bytes: Seq<u8>)
    ensures
        utf8::valid_utf8(rest) && !line.contains('\n') ==> compose_line_spec(
            utf8::encode_utf8(line) + seq![10u8] + rest,
        ) == (Ok::<Poll<Seq<char>>, ErrorMessageCompositionError>(Poll::Ready(line)), rest),
        utf8::valid_utf8(bytes) && (forall|i: int|
            0 <= i < bytes.len() ==> #[trigger] bytes[i] != 10) ==> compose_line_spec(bytes) == (
            Ok::<Poll<Seq<char>>, ErrorMessageCompositionError>(Poll::Pending),
            bytes,
        ),
        !utf8::valid_utf8(bytes) ==> compose_line_spec(bytes) == (
            Err::<Poll<Seq<char>>, ErrorMessageCompositionError>(ErrorMessageCompositionError),
            Seq::<u8>::empty(),
        ),
{
    lemma_line_end();
    if utf8::valid_utf8(rest) && !line.contains('\n') {
        law_compose_reads_a_line(line, rest);
    }
    text::lemma_find_from(bytes, seq![10u8], 0);
    if let Some(index) = text::find_spec(bytes, seq![10u8]) {
        assert(bytes.subrange(index, index + 1)[0] == bytes[index]);
    }
}

/// What composing a line gave shows the line, the waiting and the error as they are.
pub proof fn law_composed_line_is_shown_as_it_is(message: ErrorMessage)
    ensures
        line_view(Ok(Poll::Ready(message))) == Ok::<Poll<Seq<char>>, ErrorMessageCompositionError>(
            Poll::Ready(message.line@),
        ),
        line_view(Ok(Poll::Pending)) == Ok::<Poll<Seq<char>>, ErrorMessageCompositionError>(
            Poll::Pending,
        ),
        line_view(Err(ErrorMessageCompositionError)) == Err::<
            Poll<Seq<char>>,
            ErrorMessageCompositionError,
        >(ErrorMessageCompositionError),
{
}

} // verus!
