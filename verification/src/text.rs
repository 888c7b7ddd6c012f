//! Searching and splitting text, and writing and reading decimal numbers.
use vstd::prelude::*;
use vstd::slice::slice_subrange;

verus! {

/// Whether `pattern` stands in `text` at `index`.
pub open spec fn occurs_at<A>(text: Seq<A>, pattern: Seq<A>, index: int) -> bool {
    &&& 0 <= index
    &&& index + pattern.len() <= text.len()
    &&& text.subrange(index, index + pattern.len()) == pattern
}

/// The first index of `text`, starting at `from`, at which `pattern` stands.
pub open spec fn find_from(text: Seq<u8>, pattern: Seq<u8>, from: int) -> Option<int>
    decreases text.len() - from + 1,
{
    if from + pattern.len() > text.len() {
        None
    } else if occurs_at(text, pattern, from) {
        Some(from)
    } else {
        find_from(text, pattern, from + 1)
    }
}

/// The first index of `text` at which `pattern` stands.
pub open spec fn find_spec(text: Seq<u8>, pattern: Seq<u8>) -> Option<int> {
    find_from(text, pattern, 0)
}

/// The pieces of `text` between the occurrences of `delimiter`, from left to right.
pub open spec fn split_spec(text: Seq<u8>, delimiter: Seq<u8>) -> Seq<Seq<u8>>
    decreases text.len(),
{
    proof {
        lemma_find_from(text, delimiter, 0);
    }
    match find_spec(text, delimiter) {
        Some(index) if delimiter.len() > 0 => seq![text.subrange(0, index)] + split_spec(
            text.subrange(index + delimiter.len(), text.len() as int),
            delimiter,
        ),
        _ => seq![text],
    }
}

/// A search finds the leftmost occurrence, or there is none.
pub proof fn lemma_find_from(text: Seq<u8>, pattern: Seq<u8>, from: int)
    requires
        0 <= from,
    ensures
        match find_from(text, pattern, from) {
            Some(index) => {
                &&& from <= index
                &&& occurs_at(text, pattern, index)
                &&& forall|earlier: int|
                    from <= earlier < index ==> !#[trigger] occurs_at(text, pattern, earlier)
            },
            None => forall|index: int| from <= index ==> !#[trigger] occurs_at(text, pattern, index),
        },
    decreases text.len() - from + 1,
{
    if from + pattern.len() <= text.len() && !occurs_at(text, pattern, from) {
        lemma_find_from(text, pattern, from + 1);
    }
}

/// What stands leftmost is what a search finds.
pub proof fn lemma_find_is(text: Seq<u8>, pattern: Seq<u8>, from: int, index: int)
    requires
        0 <= from <= index,
        occurs_at(text, pattern, index),
        forall|earlier: int| from <= earlier < index ==> !#[trigger] occurs_at(text, pattern, earlier),
    ensures
        find_from(text, pattern, from) == Some(index),
{
    lemma_find_from(text, pattern, from);
}

/// Returns whether `pattern` stands in `text` at `index`.
fn matches_at(text: &[u8], pattern: &[u8], index: usize) -> (found: bool)
    requires
        index + pattern@.len() <= text@.len(),
    ensures
        found == occurs_at(text@, pattern@, index as int),
{
    let end: usize = text.len();
    let mut offset: usize = 0;
    while offset < pattern.len()
        invariant
            index + pattern@.len() <= text@.len() == end,
            offset <= pattern@.len(),
            forall|k: int| 0 <= k < offset ==> text@[index + k] == pattern@[k],
        decreases pattern@.len() - offset,
    {
        if text[index + offset] != pattern[offset] {
            assert(text@.subrange(index as int, index + pattern@.len())[offset as int]
                != pattern@[offset as int]);
            return false;
        }
        offset += 1;
    }
    assert(text@.subrange(index as int, index + pattern@.len()) =~= pattern@);
    true
}

/// Returns the first index of `text` at which `pattern` stands.
pub fn find(text: &[u8], pattern: &[u8]) -> (index: Option<usize>)
    ensures
        match index {
            Some(index) => find_spec(text@, pattern@) == Some(index as int),
            None => find_spec(text@, pattern@) is None,
        },
{
    if text.len() < pattern.len() {
        return None;
    }
    let last: usize = text.len() - pattern.len();
    let mut index: usize = 0;
    loop
        invariant
            last == text@.len() - pattern@.len(),
            index <= last,
            find_spec(text@, pattern@) == find_from(text@, pattern@, index as int),
        decreases last - index,
    {
        if matches_at(text, pattern, index) {
            return Some(index);
        }
        if index == last {
            assert(find_from(text@, pattern@, index + 1) is None);
            return None;
        }
        index += 1;
    }
}

/// Returns whether `left` and `right` hold the same bytes.
pub fn same_bytes(left: &[u8], right: &[u8]) -> (same: bool)
    ensures
        same == (left@ == right@),
{
    if left.len() != right.len() {
        return false;
    }
    proof {
        assert(left@.subrange(0, right@.len() as int) =~= left@);
    }
    matches_at(left, right, 0)
}

/// Returns the piece of `text` before the first `delimiter`, and what follows it.
pub fn split_once<'a>(text: &'a [u8], delimiter: &[u8]) -> (pieces: (&'a [u8], Option<&'a [u8]>))
    requires
        delimiter@.len() > 0,
    ensures
        match pieces.1 {
            Some(rest) => {
                &&& split_spec(text@, delimiter@) == seq![pieces.0@] + split_spec(
                    rest@,
                    delimiter@,
                )
                &&& rest@.len() < text@.len()
            },
            None => split_spec(text@, delimiter@) == seq![pieces.0@],
        },
{
    proof {
        lemma_find_from(text@, delimiter@, 0);
    }
    let end: usize = text.len();
    match find(text, delimiter) {
        Some(index) => (
            slice_subrange(text, 0, index),
            Some(slice_subrange(text, index + delimiter.len(), end)),
        ),
        None => (text, None),
    }
}

/// The decimal digit of value `digit`.
pub open spec fn digit_char(digit: nat) -> char {
    ('0' as int + digit) as char
}

/// The decimal form of `number`.
pub open spec fn decimal(number: nat) -> Seq<char>
    decreases number,
{
    if number < 10 {
        seq![digit_char(number)]
    } else {
        decimal(number / 10).push(digit_char(number % 10))
    }
}

/// The decimal form of `number`, with a leading `-` where it is negative.
pub open spec fn signed_decimal(number: int) -> Seq<char> {
    if number < 0 {
        seq!['-'] + decimal((-number) as nat)
    } else {
        decimal(number as nat)
    }
}

/// Returns the decimal digit of value `digit`.
fn digit_text(digit: u64) -> (text: &'static str)
    requires
        digit < 10,
    ensures
        text@ == seq![digit_char(digit as nat)],
{
    proof {
        reveal_strlit("0");
        reveal_strlit("1");
        reveal_strlit("2");
        reveal_strlit("3");
        reveal_strlit("4");
        reveal_strlit("5");
        reveal_strlit("6");
        reveal_strlit("7");
        reveal_strlit("8");
        reveal_strlit("9");
    }
    match digit {
        0 => "0",
        1 => "1",
        2 => "2",
        3 => "3",
        4 => "4",
        5 => "5",
        6 => "6",
        7 => "7",
        8 => "8",
        _ => "9",
    }
}

/// Returns the decimal form of `number`.
pub fn decimal_text(number: u64) -> (text: String)
    ensures
        text@ == decimal(number as nat),
    decreases number,
{
    if number < 10 {
        let mut text = String::new();
        text.append(digit_text(number));
        assert(text@ =~= decimal(number as nat));
        text
    } else {
        let mut text = decimal_text(number / 10);
        text.append(digit_text(number % 10));
        assert(text@ =~= decimal(number as nat));
        text
    }
}

/// Returns the decimal form of `number`, with a leading `-` where it is negative.
pub fn signed_decimal_text(number: i64) -> (text: String)
    ensures
        text@ == signed_decimal(number as int),
{
    if number < 0 {
        let magnitude: u64 = (-(number + 1)) as u64 + 1;
        let mut text = String::new();
        proof {
            reveal_strlit("-");
        }
        text.append("-");
        let digits = decimal_text(magnitude);
        text.append(digits.as_str());
        assert(text@ =~= signed_decimal(number as int));
        text
    } else {
        decimal_text(number as u64)
    }
}

/// Whether `byte` is a decimal digit.
pub open spec fn is_digit(byte: u8) -> bool {
    '0' as u8 <= byte <= '9' as u8
}

/// The value of `byte` as a decimal digit.
pub open spec fn digit_value(byte: u8) -> nat {
    if is_digit(byte) {
        (byte - '0' as u8) as nat
    } else {
        0
    }
}

/// The number whose decimal form is `digits`.
pub open spec fn digits_value(digits: Seq<u8>) -> nat
    decreases digits.len(),
{
    if digits.len() == 0 {
        0
    } else {
        digits_value(digits.drop_last()) * 10 + digit_value(digits.last())
    }
}

/// `text` without one leading `+`.
pub open spec fn without_plus(text: Seq<u8>) -> Seq<u8> {
    if text.len() > 0 && text[0] == '+' as u8 {
        text.drop_first()
    } else {
        text
    }
}

/// The length that `text` stands for: an optional `+` followed by one or more decimal digits,
/// whose value fits in a `usize`.
pub open spec fn length_spec(text: Seq<u8>) -> Option<nat> {
    let digits = without_plus(text);
    if {
        &&& digits.len() > 0
        &&& forall|i: int| 0 <= i < digits.len() ==> is_digit(#[trigger] digits[i])
        &&& digits_value(digits) <= usize::MAX
    } {
        Some(digits_value(digits))
    } else {
        None
    }
}

/// The value of a prefix of some digits is at most the value of all of them.
proof fn lemma_digits_value_prefix(digits: Seq<u8>, end: int)
    requires
        0 <= end <= digits.len(),
    ensures
        digits_value(digits.take(end)) <= digits_value(digits),
    decreases digits.len() - end,
{
    if end == digits.len() {
        assert(digits.take(end) =~= digits);
    } else {
        lemma_digits_value_prefix(digits, end + 1);
        assert(digits.take(end + 1).drop_last() =~= digits.take(end));
    }
}

/// Returns the length that `text` stands for.
pub fn parse_length(text: &[u8]) -> (length: Option<usize>)
    ensures
        match length {
            Some(length) => length_spec(text@) == Some(length as nat),
            None => length_spec(text@) is None,
        },
{
    let end: usize = text.len();
    let start: usize = if end > 0 && text[0] == '+' as u8 {
        1
    } else {
        0
    };
    let ghost digits = without_plus(text@);
    assert(digits =~= text@.subrange(start as int, end as int));
    if start == end {
        return None;
    }
    let mut length: usize = 0;
    let mut index: usize = start;
    while index < end
        invariant
            start <= index <= end == text@.len(),
            digits == without_plus(text@),
            digits == text@.subrange(start as int, end as int),
            forall|i: int| 0 <= i < index - start ==> is_digit(#[trigger] digits[i]),
            length == digits_value(digits.take(index - start)),
        decreases end - index,
    {
        let byte: u8 = text[index];
        assert(digits[index - start] == byte);
        if byte < '0' as u8 || byte > '9' as u8 {
            return None;
        }
        let digit: usize = (byte - '0' as u8) as usize;
        proof {
            lemma_digits_value_prefix(digits, index - start + 1);
            assert(digits.take(index - start + 1).drop_last() =~= digits.take(index - start));
        }
        if length > usize::MAX / 10 || length * 10 > usize::MAX - digit {
            return None;
        }
        length = length * 10 + digit;
        index += 1;
    }
    assert(digits.take(index - start) =~= digits);
    Some(length)
}

/// A pattern stands in a text where every element of it does.
pub proof fn law_occurrence_is_elementwise<A>(text: Seq<A>, pattern: Seq<A>, index: int)
    ensures
        occurs_at(text, pattern, index) == {
            &&& 0 <= index
            &&& index + pattern.len() <= text.len()
            &&& forall|i: int| 0 <= i < pattern.len() ==> text[index + i] == #[trigger] pattern[i]
        },
{
    if 0 <= index && index + pattern.len() <= text.len() {
        let there = text.subrange(index, index + pattern.len());
        if occurs_at(text, pattern, index) {
            assert forall|i: int| 0 <= i < pattern.len() implies text[index + i]
                == #[trigger] pattern[i] by {
                assert(there[i] == pattern[i]);
            }
        } else if forall|i: int|
            0 <= i < pattern.len() ==> text[index + i] == #[trigger] pattern[i] {
            assert(there =~= pattern);
        }
    }
}

/// A search finds `index` if and only if the pattern stands there and nowhere before it, and finds
/// nothing if and only if the pattern stands nowhere.
pub proof fn law_search_finds_the_leftmost_place(text: Seq<u8>, pattern: Seq<u8>)
    ensures
        forall|index: int|
            (find_spec(text, pattern) == Some(index)) <==> #[trigger] occurs_at(
                text,
                pattern,
                index,
            ) && forall|earlier: int|
                earlier < index ==> !#[trigger] occurs_at(text, pattern, earlier),
        find_spec(text, pattern) is None <==> forall|index: int| !#[trigger]
            occurs_at(text, pattern, index),
{
    lemma_find_from(text, pattern, 0);
}

/// A text is split at the leftmost delimiter, and what follows it is split further; a text in which
/// no delimiter stands is in one piece.
pub proof fn law_text_is_split_at_every_delimiter(text: Seq<u8>, delimiter: Seq<u8>, index: int)
    requires
        delimiter.len() > 0,
    ensures
        occurs_at(text, delimiter, index) && (forall|earlier: int|
            earlier < index ==> !#[trigger] occurs_at(text, delimiter, earlier)) ==> split_spec(
            text,
            delimiter,
        ) == seq![text.take(index)] + split_spec(text.skip(index + delimiter.len()), delimiter),
        (forall|place: int| !#[trigger] occurs_at(text, delimiter, place)) ==> split_spec(
            text,
            delimiter,
        ) == seq![text],
{
    lemma_find_from(text, delimiter, 0);
    if occurs_at(text, delimiter, index) && forall|earlier: int|
        earlier < index ==> !#[trigger] occurs_at(text, delimiter, earlier) {
        assert(find_spec(text, delimiter) == Some(index));
        assert(text.subrange(0, index) =~= text.take(index));
        assert(text.subrange(index + delimiter.len(), text.len() as int) =~= text.skip(
            index + delimiter.len(),
        ));
    }
}

/// A number below ten is written as its digit, and any other as what its tens are written as, with
/// the digit of its ones behind it; a negative one has a `-` in front.
pub proof fn law_numbers_are_written_in_decimal(number: nat)
    ensures
        number < 10 ==> decimal(number).len() == 1,
        number >= 10 ==> decimal(number).drop_last() == decimal(number / 10),
        decimal(number).len() > 0,
        decimal(number).last() as int == 48 + number % 10,
        signed_decimal(number as int) == decimal(number),
        number > 0 ==> signed_decimal(-(number as int)) == seq!['-'] + decimal(number),
{
    if number >= 10 {
        assert(decimal(number).drop_last() =~= decimal(number / 10));
    }
}

/// A length is read of one or more digits: each digit adds to ten times the digits before it, as
/// long as the sum fits in a `usize`.
pub proof fn law_lengths_are_read_in_decimal(digits: Seq<u8>, byte: u8)
    requires
        48 <= byte <= 57,
        forall|i: int| 0 <= i < digits.len() ==> 48 <= #[trigger] digits[i] <= 57,
    ensures
        length_spec(seq![byte]) == Some((byte - 48) as nat),
        digits.len() > 0 ==> length_spec(digits.push(byte)) == match length_spec(digits) {
            Some(length) => if length * 10 + (byte - 48) <= usize::MAX {
                Some((length * 10 + (byte - 48)) as nat)
            } else {
                None
            },
            None => None,
        },
        digits.len() > 0 ==> length_spec(seq![43u8] + digits) == length_spec(digits),
{
    let one = seq![byte];
    assert(one.drop_last() =~= Seq::empty());
    assert(digits_value(one.drop_last()) == 0);
    assert(forall|i: int| 0 <= i < one.len() ==> is_digit(#[trigger] one[i]));
    if digits.len() > 0 {
        let more = digits.push(byte);
        assert(more.drop_last() =~= digits);
        assert(forall|i: int| 0 <= i < digits.len() ==> is_digit(#[trigger] digits[i]));
        assert(forall|i: int| 0 <= i < more.len() ==> is_digit(#[trigger] more[i]));
        assert(digits[0] != 43 && more[0] == digits[0]);
        let signed = seq![43u8] + digits;
        assert(signed.drop_first() =~= digits);
    }
}

/// No length is read of a text without digits, or of one in which something else than a digit
/// stands, but for one leading `+`.
pub proof fn law_no_length_is_read_of_anything_else(text: Seq<u8>, index: int)
    ensures
        text.len() == 0 ==> length_spec(text) is None,
        text == seq![43u8] ==> length_spec(text) is None,
        0 <= index < text.len() && !(48 <= text[index] <= 57) && !(index == 0 && text[0] == 43)
            ==> length_spec(text) is None,
{
    let digits = without_plus(text);
    if 0 <= index < text.len() && !(48 <= text[index] <= 57) && !(index == 0 && text[0] == 43) {
        if text[0] == 43 {
            assert(digits[index - 1] == text[index]);
        } else {
            assert(digits[index] == text[index]);
        }
    }
}

} // verus!
