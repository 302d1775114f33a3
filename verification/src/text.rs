//! Text operations of the standard library that the handlers and error
//! messages rest on, each with what it is taken to do.

use vstd::prelude::*;
use vstd::string::StringExecFns;

verus! {

/// The text that `{:?}` prints for a string: the string between double
/// quotes, with quotes, backslashes and unprintable characters escaped.
pub uninterp spec fn debug_quoted(text: Seq<char>) -> Seq<char>;

/// `format!("{:?}", text)`: the debug form of a string, which is a function of
/// the string alone.
#[verifier::external_body]
pub(crate) fn debug_quote(text: &str) -> (quoted: String)
    ensures
        quoted@ == debug_quoted(text@),
{
    format!("{:?}", text)
}

/// `pattern` stands in `text` at place `at`.
pub open spec fn occurs_at(text: Seq<char>, pattern: Seq<char>, at: int) -> bool {
    &&& 0 <= at
    &&& at + pattern.len() <= text.len()
    &&& text.subrange(at, at + pattern.len()) == pattern
}

/// `pattern` stands in `text` at place `at`, and nowhere before.
pub open spec fn first_occurs_at(text: Seq<char>, pattern: Seq<char>, at: int) -> bool {
    &&& occurs_at(text, pattern, at)
    &&& forall|earlier: int| 0 <= earlier < at ==> !occurs_at(text, pattern, earlier)
}

/// `pattern` stands somewhere in `text`.
pub open spec fn contains_text(text: Seq<char>, pattern: Seq<char>) -> bool {
    exists|at: int| occurs_at(text, pattern, at)
}

/// `text` split on the first occurrence of `delimiter`: what stands before
/// it and what stands after it, or nothing where it does not occur.
pub open spec fn split_once_spec(text: Seq<char>, delimiter: Seq<char>) -> Option<
    (Seq<char>, Seq<char>),
> {
    if contains_text(text, delimiter) {
        let at = choose|at: int| first_occurs_at(text, delimiter, at);
        Some((text.take(at), text.skip(at + delimiter.len())))
    } else {
        None
    }
}

/// A pattern that occurs at all has a first occurrence, which is at or before
/// any place where it is known to stand.
pub proof fn lemma_first_occurrence(text: Seq<char>, pattern: Seq<char>, at: int)
    requires
        occurs_at(text, pattern, at),
    ensures
        exists|first: int| 0 <= first <= at && first_occurs_at(text, pattern, first),
    decreases at,
{
    if forall|earlier: int| 0 <= earlier < at ==> !occurs_at(text, pattern, earlier) {
        assert(first_occurs_at(text, pattern, at));
    } else {
        let earlier = choose|earlier: int| 0 <= earlier < at && occurs_at(text, pattern, earlier);
        lemma_first_occurrence(text, pattern, earlier);
    }
}

/// What a split yields is made of the text: the part before, the delimiter
/// and the part after give the text back, and the delimiter does not begin
/// within the part before.
pub proof fn lemma_split_once(text: Seq<char>, delimiter: Seq<char>)
    ensures
        match split_once_spec(text, delimiter) {
            Some((before, after)) => {
                &&& text == before + delimiter + after
                &&& first_occurs_at(text, delimiter, before.len() as int)
            },
            None => !contains_text(text, delimiter),
        },
{
    if contains_text(text, delimiter) {
        let somewhere = choose|at: int| occurs_at(text, delimiter, at);
        lemma_first_occurrence(text, delimiter, somewhere);
        let at = choose|at: int| first_occurs_at(text, delimiter, at);
        let before = text.take(at);
        let after = text.skip(at + delimiter.len());
        assert(text =~= before + text.subrange(at, at + delimiter.len()) + after);
    }
}

/// The split parts of a `str::split_once` result as sequences of characters.
pub open spec fn parts_view(parts: Option<(&str, &str)>) -> Option<(Seq<char>, Seq<char>)> {
    match parts {
        Some((before, after)) => Some((before@, after@)),
        None => None,
    }
}

/// `str::split_once` with a string delimiter: the text is split on the first
/// occurrence of the delimiter, which is left out of both parts.
#[verifier::external_body]
pub(crate) fn split_once<'a>(text: &'a str, delimiter: &str) -> (parts: Option<(&'a str, &'a str)>)
    ensures
        parts_view(parts) == split_once_spec(text@, delimiter@),
{
    text.split_once(delimiter)
}

/// `text` split on every occurrence of `delimiter`, found from left to
/// right, each occurrence beginning after the one before it has ended. There
/// is always at least one part.
pub open spec fn split_spec(text: Seq<char>, delimiter: Seq<char>) -> Seq<Seq<char>>
    decreases text.len(),
    when delimiter.len() > 0
{
    match split_once_spec(text, delimiter) {
        Some((before, after)) => {
            proof {
                lemma_split_once(text, delimiter);
            }
            seq![before] + split_spec(after, delimiter)
        },
        None => seq![text],
    }
}

/// The texts of a vector of strings.
pub open spec fn texts(strings: Seq<String>) -> Seq<Seq<char>> {
    strings.map_values(|string: String| string@)
}

/// Splits `text` on every occurrence of `delimiter`.
pub(crate) fn split(text: &str, delimiter: &str) -> (parts: Vec<String>)
    requires
        delimiter@.len() > 0,
    ensures
        texts(parts@) == split_spec(text@, delimiter@),
        parts@.len() > 0,
{
    let mut parts: Vec<String> = Vec::new();
    let mut rest = text;
    loop
        invariant
            delimiter@.len() > 0,
            texts(parts@) + split_spec(rest@, delimiter@) == split_spec(text@, delimiter@),
        decreases rest@.len(),
    {
        proof {
            lemma_split_once(rest@, delimiter@);
        }
        match split_once(rest, delimiter) {
            Some((before, after)) => {
                let ghost before_parts = parts@;
                parts.push(String::from_str(before));
                assert(texts(parts@) =~= texts(before_parts) + seq![before@]);
                assert(texts(parts@) + split_spec(after@, delimiter@) =~= texts(before_parts)
                    + split_spec(rest@, delimiter@));
                rest = after;
            },
            None => {
                let ghost before_parts = parts@;
                parts.push(String::from_str(rest));
                assert(texts(parts@) =~= texts(before_parts) + seq![rest@]);
                return parts;
            },
        }
    }
}

/// `text` ends with `suffix`.
pub open spec fn ends_with(text: Seq<char>, suffix: Seq<char>) -> bool {
    suffix.len() <= text.len() && text.skip(text.len() - suffix.len()) == suffix
}

/// `text` short of its last characters, as many as `suffix` has.
pub open spec fn without_suffix(text: Seq<char>, suffix: Seq<char>) -> Seq<char> {
    text.take(text.len() - suffix.len())
}

/// `text` without the `suffix` it ends with, or nothing where it does not end
/// with it.
pub open spec fn strip_suffix_spec(text: Seq<char>, suffix: Seq<char>) -> Option<Seq<char>> {
    if ends_with(text, suffix) {
        Some(without_suffix(text, suffix))
    } else {
        None
    }
}

/// An optional string slice as an optional sequence of characters.
pub open spec fn slice_view(text: Option<&str>) -> Option<Seq<char>> {
    match text {
        Some(text) => Some(text@),
        None => None,
    }
}

/// `str::strip_suffix` with a string suffix: the text before the suffix,
/// where the text ends with it.
#[verifier::external_body]
pub(crate) fn strip_suffix<'a>(text: &'a str, suffix: &str) -> (stripped: Option<&'a str>)
    ensures
        slice_view(stripped) == strip_suffix_spec(text@, suffix@),
{
    text.strip_suffix(suffix)
}

/// The character that writes a digit's value.
pub open spec fn digit_char(value: int) -> char {
    ((value + 48) as u8) as char
}

/// A natural number written in decimal digits, without leading zeros.
pub open spec fn digits_text(number: nat) -> Seq<char>
    decreases number,
{
    if number < 10 {
        seq![digit_char(number as int)]
    } else {
        digits_text(number / 10).push(digit_char((number % 10) as int))
    }
}

/// A whole number written in decimal digits, with a minus sign before them
/// where it is negative.
pub open spec fn decimal_text(number: int) -> Seq<char> {
    if number < 0 {
        seq!['-'] + digits_text((-number) as nat)
    } else {
        digits_text(number as nat)
    }
}

/// `i128::to_string`: the number written in decimal digits.
#[verifier::external_body]
pub(crate) fn decimal(number: i128) -> (text: String)
    ensures
        text@ == decimal_text(number as int),
{
    number.to_string()
}

/// The parts in order, with the separator between each two of them.
pub open spec fn joined(parts: Seq<Seq<char>>, separator: Seq<char>) -> Seq<char>
    decreases parts.len(),
{
    if parts.len() == 0 {
        Seq::<char>::empty()
    } else if parts.len() == 1 {
        parts[0]
    } else {
        joined(parts.drop_last(), separator) + separator + parts.last()
    }
}

/// `itertools::Itertools::join` over the strings of a vector: the strings in
/// order, with the separator between each two of them.
#[verifier::external_body]
pub(crate) fn join(parts: &Vec<String>, separator: &str) -> (text: String)
    ensures
        text@ == joined(texts(parts@), separator@),
{
    itertools::Itertools::join(&mut parts.iter(), separator)
}

/// The ASCII lower-case form of a character.
pub open spec fn lower_char(c: char) -> char {
    if 65 <= c as u32 <= 90 {
        ((c as u32 + 32) as u8) as char
    } else {
        c
    }
}

/// Two texts are the same but for the case of their ASCII letters.
pub open spec fn eq_uncased(a: Seq<char>, b: Seq<char>) -> bool {
    a.map_values(|c: char| lower_char(c)) == b.map_values(|c: char| lower_char(c))
}

/// The equality of `uncased::UncasedStr`: two strings are equal if they are
/// the same but for the case of their ASCII letters.
#[verifier::external_body]
pub(crate) fn uncased_eq(a: &str, b: &str) -> (equal: bool)
    ensures
        equal == eq_uncased(a@, b@),
{
    uncased::UncasedStr::new(a) == uncased::UncasedStr::new(b)
}

/// What a text reads as against a format of two holes, `{}middle{}end`: the
/// first hole takes what stands before the first occurrence of `middle`, the
/// text must end with `end`, and the second hole takes what stands between.
pub open spec fn read_two(middle: Seq<char>, end: Seq<char>, text: Seq<char>) -> Option<
    (Seq<char>, Seq<char>),
> {
    match split_once_spec(text, middle) {
        Some((first, rest)) => match strip_suffix_spec(rest, end) {
            Some(second) => Some((first, second)),
            None => None,
        },
        None => None,
    }
}

/// Two optional strings as optional sequences of characters.
pub open spec fn pair_view(pair: Option<(String, String)>) -> Option<(Seq<char>, Seq<char>)> {
    match pair {
        Some((first, second)) => Some((first@, second@)),
        None => None,
    }
}

/// `readformat::readf` with the format `{}middle{}end`, where neither
/// `middle` nor `end` holds a hole of its own: the inverse of formatting two
/// values into that format.
#[verifier::external_body]
pub(crate) fn read_format_two(middle: &str, end: &str, text: &str) -> (read: Option<(String, String)>)
    requires
        !contains_text(middle@, "{}"@),
        !contains_text(end@, "{}"@),
    ensures
        pair_view(read) == read_two(middle@, end@, text@),
{
    readformat::readf(&format!("{{}}{middle}{{}}{end}"), text).map(
        |read| {
            let [first, second]: [String; 2] = read.try_into().expect("one value for each hole");
            (first, second)
        },
    )
}

/// Why a text does not give a number.
#[derive(Debug, Clone, Copy, PartialEq, Eq, Structural)]
pub enum IntErrorKind {
    /// The text is empty.
    Empty,
    /// The text holds something that is no digit.
    InvalidDigit,
    /// The number is too large.
    PosOverflow,
    /// The number is too small.
    NegOverflow,
    /// The number is zero where zero is not allowed.
    Zero,
    /// A reason that has no name here.
    Other,
}

/// `c` is one of the digits `0` to `9`.
pub open spec fn is_digit(c: char) -> bool {
    48 <= c as u32 <= 57
}

/// The number that a run of decimal digits writes.
pub open spec fn digits_value(digits: Seq<char>) -> nat
    decreases digits.len(),
{
    if digits.len() == 0 {
        0
    } else {
        (digits_value(digits.drop_last()) * 10 + (digits.last() as u32 - 48)) as nat
    }
}

/// The number that a text writes in decimal digits, with or without a plus
/// sign before them; nothing where the text is anything else.
pub open spec fn unsigned_decimal(text: Seq<char>) -> Option<nat> {
    let digits = if text.len() > 0 && text[0] == '+' {
        text.skip(1)
    } else {
        text
    };
    if digits.len() > 0 && (forall|i: int| 0 <= i < digits.len() ==> is_digit(#[trigger] digits[i])) {
        Some(digits_value(digits))
    } else {
        None
    }
}

/// The reason that `str::parse::<u16>` gives for refusing a text.
pub uninterp spec fn u16_parse_fault(text: Seq<char>) -> IntErrorKind;

/// The `u16` that a number is, if it is one; the fault otherwise.
pub open spec fn fitting_u16(value: Option<nat>, fault: IntErrorKind) -> Result<u16, IntErrorKind> {
    match value {
        Some(value) if value <= u16::MAX => Ok(value as u16),
        _ => Err(fault),
    }
}

/// What reading a text as a `u16` yields: the number it writes in decimal
/// digits, if it writes one that fits.
pub open spec fn parsed_u16(text: Seq<char>) -> Result<u16, IntErrorKind> {
    fitting_u16(unsigned_decimal(text), u16_parse_fault(text))
}

/// `str::parse::<u16>`: the text must be decimal digits, with or without a
/// plus sign before them, that write a number within the type's range.
#[verifier::external_body]
pub(crate) fn parse_u16(text: &str) -> (parsed: Result<u16, IntErrorKind>)
    ensures
        parsed == fitting_u16(unsigned_decimal(text@), u16_parse_fault(text@)),
{
    text.parse::<u16>().map_err(
        |error| match error.kind() {
            std::num::IntErrorKind::Empty => IntErrorKind::Empty,
            std::num::IntErrorKind::InvalidDigit => IntErrorKind::InvalidDigit,
            std::num::IntErrorKind::PosOverflow => IntErrorKind::PosOverflow,
            std::num::IntErrorKind::NegOverflow => IntErrorKind::NegOverflow,
            std::num::IntErrorKind::Zero => IntErrorKind::Zero,
            _ => IntErrorKind::Other,
        },
    )
}

/// The reason that reading a ranged `u8` gives for refusing a text that does
/// not write a `u8`.
pub uninterp spec fn ranged_u8_parse_fault(text: Seq<char>) -> IntErrorKind;

/// The `u8` between `min` and `max` that a number is, if it is one. A `u8`
/// below the range is too small, one above it too large; what is no `u8` at
/// all has the fault.
pub open spec fn fitting_ranged_u8(min: u8, max: u8, value: Option<nat>, fault: IntErrorKind) -> Result<
    u8,
    IntErrorKind,
> {
    match value {
        Some(value) if value <= u8::MAX => if value < min {
            Err(IntErrorKind::NegOverflow)
        } else if value > max {
            Err(IntErrorKind::PosOverflow)
        } else {
            Ok(value as u8)
        },
        _ => Err(fault),
    }
}

/// What reading a text as a `u8` between `min` and `max` yields: the number
/// it writes in decimal digits, if it writes one and that lies in the range.
pub open spec fn parsed_ranged_u8(min: u8, max: u8, text: Seq<char>) -> Result<u8, IntErrorKind> {
    fitting_ranged_u8(min, max, unsigned_decimal(text), ranged_u8_parse_fault(text))
}

/// `deranged::RangedU8::<MIN, MAX>::from_str`: the text is read as a `u8`,
/// which must then lie between `MIN` and `MAX`; a number below the range is
/// refused as too small, one above it as too large.
#[verifier::external_body]
pub(crate) fn parse_ranged_u8<const MIN: u8, const MAX: u8>(text: &str) -> (parsed: Result<
    u8,
    IntErrorKind,
>)
    requires
        MIN <= MAX,
    ensures
        parsed == fitting_ranged_u8(
            MIN,
            MAX,
            unsigned_decimal(text@),
            ranged_u8_parse_fault(text@),
        ),
{
    text.parse::<deranged::RangedU8<MIN, MAX>>().map(|ranged| ranged.get()).map_err(
        |error| match error.kind() {
            std::num::IntErrorKind::Empty => IntErrorKind::Empty,
            std::num::IntErrorKind::InvalidDigit => IntErrorKind::InvalidDigit,
            std::num::IntErrorKind::PosOverflow => IntErrorKind::PosOverflow,
            std::num::IntErrorKind::NegOverflow => IntErrorKind::NegOverflow,
            std::num::IntErrorKind::Zero => IntErrorKind::Zero,
            _ => IntErrorKind::Other,
        },
    )
}

impl IntErrorKind {
    /// The reason in words.
    pub open spec fn message_spec(&self) -> Seq<char> {
        match self {
            IntErrorKind::Empty => "cannot parse integer from empty string"@,
            IntErrorKind::InvalidDigit => "invalid digit found in string"@,
            IntErrorKind::PosOverflow => "number too large to fit in target type"@,
            IntErrorKind::NegOverflow => "number too small to fit in target type"@,
            IntErrorKind::Zero => "number would be zero for non-zero type"@,
            IntErrorKind::Other => "the number could not be read"@,
        }
    }

    /// The reason in words.
    pub fn message(&self) -> (text: String)
        ensures
            text@ == self.message_spec(),
    {
        match self {
            IntErrorKind::Empty => String::from_str("cannot parse integer from empty string"),
            IntErrorKind::InvalidDigit => String::from_str("invalid digit found in string"),
            IntErrorKind::PosOverflow => String::from_str("number too large to fit in target type"),
            IntErrorKind::NegOverflow => String::from_str("number too small to fit in target type"),
            IntErrorKind::Zero => String::from_str("number would be zero for non-zero type"),
            IntErrorKind::Other => String::from_str("the number could not be read"),
        }
    }
}

/// An error's message followed by the report of what caused it.
pub open spec fn caused(message: Seq<char>, cause: Seq<char>) -> Seq<char> {
    message + ": "@ + cause
}

/// Writes an error's message followed by the report of what caused it.
pub fn with_cause(message: &str, cause: String) -> (report: String)
    ensures
        report@ == caused(message@, cause@),
{
    String::from_str(message).concat(": ").concat(cause.as_str())
}

} // verus!
