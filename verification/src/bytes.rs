//! Byte classes, scanning and trimming shared by the field-value parsers.

use vstd::prelude::*;

verus! {

/// Horizontal tab.
pub const TAB: u8 = 0x09;

/// Line feed.
pub const LINE_FEED: u8 = 0x0a;

/// Form feed.
pub const FORM_FEED: u8 = 0x0c;

/// Carriage return.
pub const CARRIAGE_RETURN: u8 = 0x0d;

/// Space.
pub const SPACE: u8 = 0x20;

/// Double quotation mark.
pub const QUOTE: u8 = 0x22;

/// Number sign.
pub const NUMBER_SIGN: u8 = 0x23;

/// Apostrophe.
pub const APOSTROPHE: u8 = 0x27;

/// Asterisk.
pub const STAR: u8 = 0x2a;

/// Comma.
pub const COMMA: u8 = 0x2c;

/// Full stop.
pub const DOT: u8 = 0x2e;

/// Slash.
pub const SLASH: u8 = 0x2f;

/// Colon.
pub const COLON: u8 = 0x3a;

/// Semicolon.
pub const SEMICOLON: u8 = 0x3b;

/// Equals sign.
pub const EQUALS: u8 = 0x3d;

/// Question mark.
pub const QUESTION_MARK: u8 = 0x3f;

/// Backslash.
pub const BACKSLASH: u8 = 0x5c;

/// A set of bytes.
#[derive(Clone, Copy, Debug, PartialEq, Eq, Structural)]
pub enum ByteClass {
    /// Space and tab.
    OptionalWhitespace,
    /// Space, tab, line feed and carriage return.
    HttpWhitespace,
    /// Space, tab, line feed, form feed and carriage return.
    AsciiWhitespace,
    /// Bytes of an HTTP token.
    Token,
    /// Bytes of an HTTP quoted string.
    QuotedString,
    /// ASCII digits.
    Digit,
    /// Letters, digits, hyphen and full stop.
    HostName,
    /// Letters and digits of either base-64 alphabet.
    Base64,
    /// ASCII whitespace and visible ASCII.
    Directive,
    /// ASCII whitespace, comma and semicolon.
    PolicySeparator,
    /// Exactly this byte.
    Exactly(u8),
    /// One of these two bytes.
    Either(u8, u8),
    /// Space, tab, or this byte.
    OptionalWhitespaceOr(u8),
}

/// Whether a byte is an ASCII letter.
pub open spec fn is_alpha(byte: u8) -> bool {
    0x41 <= byte <= 0x5a || 0x61 <= byte <= 0x7a
}

/// Whether a byte is an ASCII digit.
pub open spec fn is_digit(byte: u8) -> bool {
    0x30 <= byte <= 0x39
}

impl ByteClass {
    /// Whether a byte belongs to the class.
    pub open spec fn has(self, byte: u8) -> bool {
        match self {
            ByteClass::OptionalWhitespace => byte == SPACE || byte == TAB,
            ByteClass::HttpWhitespace => byte == SPACE || byte == TAB || byte == LINE_FEED || byte
                == CARRIAGE_RETURN,
            ByteClass::AsciiWhitespace => byte == SPACE || byte == TAB || byte == LINE_FEED || byte
                == FORM_FEED || byte == CARRIAGE_RETURN,
            ByteClass::Token => is_alpha(byte) || is_digit(byte) || byte == 0x21 || 0x23 <= byte
                <= 0x27 || byte == STAR || byte == 0x2b || byte == 0x2d || byte == DOT || 0x5e
                <= byte <= 0x60 || byte == 0x7c || byte == 0x7e,
            ByteClass::QuotedString => byte == TAB || 0x20 <= byte <= 0x7e || 0x80 <= byte,
            ByteClass::Digit => is_digit(byte),
            ByteClass::HostName => is_alpha(byte) || is_digit(byte) || byte == 0x2d || byte == DOT,
            ByteClass::Base64 => is_alpha(byte) || is_digit(byte) || byte == 0x2b || byte == SLASH
                || byte == 0x2d || byte == 0x5f,
            ByteClass::Directive => byte == TAB || byte == LINE_FEED || byte == FORM_FEED || byte
                == CARRIAGE_RETURN || 0x20 <= byte <= 0x7e,
            ByteClass::PolicySeparator => byte == SPACE || byte == TAB || byte == LINE_FEED || byte
                == FORM_FEED || byte == CARRIAGE_RETURN || byte == COMMA || byte == SEMICOLON,
            ByteClass::Exactly(wanted) => byte == wanted,
            ByteClass::Either(first, second) => byte == first || byte == second,
            ByteClass::OptionalWhitespaceOr(wanted) => byte == SPACE || byte == TAB || byte
                == wanted,
        }
    }

    /// Whether a byte belongs to the class.
    pub fn contains(self, byte: u8) -> (belongs: bool)
        ensures
            belongs == self.has(byte),
    {
        match self {
            ByteClass::OptionalWhitespace => byte == SPACE || byte == TAB,
            ByteClass::HttpWhitespace => matches!(byte, 0x09 | 0x0a | 0x0d | 0x20),
            ByteClass::AsciiWhitespace => matches!(byte, 0x09 | 0x0a | 0x0c | 0x0d | 0x20),
            ByteClass::Token => matches!(
                byte,
                0x21
                    | 0x23..=0x27
                    | 0x2a
                    | 0x2b
                    | 0x2d
                    | 0x2e
                    | 0x30..=0x39
                    | 0x41..=0x5a
                    | 0x5e..=0x7a
                    | 0x7c
                    | 0x7e
            ),
            ByteClass::QuotedString => matches!(byte, 0x09 | 0x20..=0x7e | 0x80..=0xff),
            ByteClass::Digit => matches!(byte, 0x30..=0x39),
            ByteClass::HostName => matches!(
                byte,
                0x2d | 0x2e | 0x30..=0x39 | 0x41..=0x5a | 0x61..=0x7a
            ),
            ByteClass::Base64 => matches!(
                byte,
                0x2b | 0x2d | 0x2f | 0x30..=0x39 | 0x41..=0x5a | 0x5f | 0x61..=0x7a
            ),
            ByteClass::Directive => matches!(
                byte,
                0x09 | 0x0a | 0x0c | 0x0d | 0x20 | 0x21..=0x7e
            ),
            ByteClass::PolicySeparator => matches!(
                byte,
                0x09 | 0x0a | 0x0c | 0x0d | 0x20 | 0x2c | 0x3b
            ),
            ByteClass::Exactly(wanted) => byte == wanted,
            ByteClass::Either(first, second) => byte == first || byte == second,
            ByteClass::OptionalWhitespaceOr(wanted) => byte == SPACE || byte == TAB || byte
                == wanted,
        }
    }

    /// Whether all bytes belong to the class.
    pub open spec fn has_all(self, bytes: Seq<u8>) -> bool {
        forall|i: int| 0 <= i < bytes.len() ==> self.has(#[trigger] bytes[i])
    }

    /// Whether all bytes belong to the class.
    pub fn contains_all(self, bytes: &[u8]) -> (belong: bool)
        ensures
            belong == self.has_all(bytes@),
    {
        let at: usize = find_outside(bytes, 0, self);
        proof {
            first_outside_is_first(bytes@, 0, self);
        }
        at == bytes.len()
    }
}

/// Index of the first byte of a class at or after `from`, or the length.
pub open spec fn first_in(bytes: Seq<u8>, from: int, class: ByteClass) -> int
    decreases bytes.len() - from,
{
    if from >= bytes.len() {
        bytes.len() as int
    } else if class.has(bytes[from]) {
        from
    } else {
        first_in(bytes, from + 1, class)
    }
}

/// Index of the first byte outside a class at or after `from`, or the length.
pub open spec fn first_outside(bytes: Seq<u8>, from: int, class: ByteClass) -> int
    decreases bytes.len() - from,
{
    if from >= bytes.len() {
        bytes.len() as int
    } else if !class.has(bytes[from]) {
        from
    } else {
        first_outside(bytes, from + 1, class)
    }
}

/// What `first_in` finds is the first byte of the class.
pub proof fn first_in_is_first(bytes: Seq<u8>, from: int, class: ByteClass)
    requires
        0 <= from,
    ensures
        first_in(bytes, from, class) <= bytes.len(),
        from <= bytes.len() ==> from <= first_in(bytes, from, class),
        first_in(bytes, from, class) < bytes.len() ==> class.has(
            bytes[first_in(bytes, from, class)],
        ),
        forall|i: int|
            from <= i < first_in(bytes, from, class) ==> !class.has(#[trigger] bytes[i]),
    decreases bytes.len() - from,
{
    if from < bytes.len() && !class.has(bytes[from]) {
        first_in_is_first(bytes, from + 1, class);
    }
}

/// What `first_outside` finds is the first byte outside the class.
pub proof fn first_outside_is_first(bytes: Seq<u8>, from: int, class: ByteClass)
    requires
        0 <= from,
    ensures
        first_outside(bytes, from, class) <= bytes.len(),
        from <= bytes.len() ==> from <= first_outside(bytes, from, class),
        first_outside(bytes, from, class) < bytes.len() ==> !class.has(
            bytes[first_outside(bytes, from, class)],
        ),
        forall|i: int|
            from <= i < first_outside(bytes, from, class) ==> class.has(#[trigger] bytes[i]),
    decreases bytes.len() - from,
{
    if from < bytes.len() && class.has(bytes[from]) {
        first_outside_is_first(bytes, from + 1, class);
    }
}

/// Finds the first byte of a class at or after `from`.
pub fn find_in(bytes: &[u8], from: usize, class: ByteClass) -> (at: usize)
    requires
        from <= bytes@.len(),
    ensures
        at == first_in(bytes@, from as int, class),
        from <= at <= bytes@.len(),
{
    let mut at: usize = from;
    while at < bytes.len() && !class.contains(bytes[at])
        invariant
            from <= at <= bytes@.len(),
            first_in(bytes@, at as int, class) == first_in(bytes@, from as int, class),
        decreases bytes@.len() - at,
    {
        at += 1;
    }
    at
}

/// Finds the first byte outside a class at or after `from`.
pub fn find_outside(bytes: &[u8], from: usize, class: ByteClass) -> (at: usize)
    requires
        from <= bytes@.len(),
    ensures
        at == first_outside(bytes@, from as int, class),
        from <= at <= bytes@.len(),
{
    let mut at: usize = from;
    while at < bytes.len() && class.contains(bytes[at])
        invariant
            from <= at <= bytes@.len(),
            first_outside(bytes@, at as int, class) == first_outside(bytes@, from as int, class),
        decreases bytes@.len() - at,
    {
        at += 1;
    }
    at
}

/// Bytes without a leading run of a class.
pub open spec fn without_leading(bytes: Seq<u8>, class: ByteClass) -> Seq<u8> {
    bytes.subrange(first_outside(bytes, 0, class), bytes.len() as int)
}

/// Bytes without a trailing run of a class.
pub open spec fn without_trailing(bytes: Seq<u8>, class: ByteClass) -> Seq<u8>
    decreases bytes.len(),
{
    if bytes.len() > 0 && class.has(bytes.last()) {
        without_trailing(bytes.drop_last(), class)
    } else {
        bytes
    }
}

/// Bytes without leading and trailing runs of a class.
pub open spec fn trimmed(bytes: Seq<u8>, class: ByteClass) -> Seq<u8> {
    without_trailing(without_leading(bytes, class), class)
}

/// Trimming leaves a part of what it trims.
pub proof fn trimmed_is_part(bytes: Seq<u8>, class: ByteClass)
    ensures
        without_trailing(bytes, class).len() <= bytes.len(),
        without_trailing(bytes, class) == bytes.take(without_trailing(bytes, class).len() as int),
    decreases bytes.len(),
{
    if bytes.len() > 0 && class.has(bytes.last()) {
        trimmed_is_part(bytes.drop_last(), class);
    }
    assert(without_trailing(bytes, class) =~= bytes.take(
        without_trailing(bytes, class).len() as int,
    ));
}

/// Removes a trailing run of a class.
pub fn trim_trailing(bytes: &[u8], class: ByteClass) -> (rest: &[u8])
    ensures
        rest@ == without_trailing(bytes@, class),
        rest@.len() <= bytes@.len(),
{
    let mut end: usize = bytes.len();
    assert(bytes@.take(end as int) =~= bytes@);
    while end > 0 && class.contains(bytes[end - 1])
        invariant
            end <= bytes@.len(),
            without_trailing(bytes@.take(end as int), class) == without_trailing(bytes@, class),
        decreases end,
    {
        assert(bytes@.take(end as int).drop_last() =~= bytes@.take(end - 1));
        end -= 1;
    }
    assert(bytes@.subrange(0, end as int) =~= bytes@.take(end as int));
    &bytes[0..end]
}

/// Removes leading and trailing runs of a class.
pub fn trim(bytes: &[u8], class: ByteClass) -> (rest: &[u8])
    ensures
        rest@ == trimmed(bytes@, class),
        rest@.len() <= bytes@.len(),
{
    let start: usize = find_outside(bytes, 0, class);
    let rest: &[u8] = &bytes[start..bytes.len()];
    trim_trailing(rest, class)
}

/// A byte in lower case.
pub open spec fn lower(byte: u8) -> u8 {
    if 0x41 <= byte <= 0x5a {
        (byte + 0x20) as u8
    } else {
        byte
    }
}

/// Bytes in lower case.
pub open spec fn lowered(bytes: Seq<u8>) -> Seq<u8> {
    Seq::new(bytes.len(), |i: int| lower(bytes[i]))
}

/// Whether two byte strings agree without regard to ASCII case.
pub open spec fn same_word(left: Seq<u8>, right: Seq<u8>) -> bool {
    lowered(left) == lowered(right)
}

/// Bytes of a text.
pub open spec fn text(chars: Seq<char>) -> Seq<u8> {
    vstd::utf8::encode_utf8(chars)
}

/// A byte in lower case.
pub fn to_lower(byte: u8) -> (lowered: u8)
    ensures
        lowered == lower(byte),
{
    if 0x41 <= byte && byte <= 0x5a {
        byte + 0x20
    } else {
        byte
    }
}

/// Whether two byte strings agree without regard to ASCII case.
pub fn eq_ignore_ascii_case(left: &[u8], right: &[u8]) -> (same: bool)
    ensures
        same == same_word(left@, right@),
{
    if left.len() != right.len() {
        assert(lowered(left@).len() != lowered(right@).len());
        return false;
    }
    let mut at: usize = 0;
    while at < left.len()
        invariant
            at <= left@.len(),
            left@.len() == right@.len(),
            forall|i: int| 0 <= i < at ==> lower(left@[i]) == lower(#[trigger] right@[i]),
        decreases left@.len() - at,
    {
        if to_lower(left[at]) != to_lower(right[at]) {
            assert(lowered(left@)[at as int] != lowered(right@)[at as int]);
            return false;
        }
        at += 1;
    }
    assert(lowered(left@) =~= lowered(right@));
    true
}

/// Whether bytes begin with a word, without regard to ASCII case.
pub open spec fn starts_word(bytes: Seq<u8>, word: Seq<u8>) -> bool {
    word.len() <= bytes.len() && same_word(bytes.take(word.len() as int), word)
}

/// Whether bytes begin with a word, without regard to ASCII case.
pub fn starts_ignore_ascii_case(bytes: &[u8], word: &[u8]) -> (starts: bool)
    ensures
        starts == starts_word(bytes@, word@),
{
    if word.len() > bytes.len() {
        return false;
    }
    assert(bytes@.subrange(0, word@.len() as int) =~= bytes@.take(word@.len() as int));
    eq_ignore_ascii_case(&bytes[0..word.len()], word)
}

/// Value of decimal digits.
pub open spec fn decimal(digits: Seq<u8>) -> nat
    decreases digits.len(),
{
    if digits.len() == 0 {
        0
    } else {
        decimal(digits.drop_last()) * 10 + ((digits.last() - 0x30) as nat)
    }
}

/// A prefix is not greater than the whole.
proof fn decimal_grows(digits: Seq<u8>, count: int)
    requires
        0 <= count <= digits.len(),
        ByteClass::Digit.has_all(digits),
    ensures
        decimal(digits.take(count)) <= decimal(digits),
    decreases digits.len() - count,
{
    if count == digits.len() {
        assert(digits.take(count) =~= digits);
    } else {
        decimal_grows(digits, count + 1);
        assert(digits.take(count + 1).drop_last() =~= digits.take(count));
    }
}

/// Reads decimal digits whose value is at most `maximum`.
pub fn parse_decimal(digits: &[u8], maximum: u32) -> (value: Option<u32>)
    requires
        maximum <= 0xffff,
        ByteClass::Digit.has_all(digits@),
    ensures
        match value {
            Some(value) => value == decimal(digits@) && value <= maximum,
            None => decimal(digits@) > maximum,
        },
{
    let mut value: u32 = 0;
    let mut at: usize = 0;
    while at < digits.len()
        invariant
            at <= digits@.len(),
            maximum <= 0xffff,
            value <= maximum,
            ByteClass::Digit.has_all(digits@),
            value == decimal(digits@.take(at as int)),
        decreases digits@.len() - at,
    {
        proof {
            assert(digits@.take(at + 1).drop_last() =~= digits@.take(at as int));
            assert(ByteClass::Digit.has(digits@[at as int]));
            decimal_grows(digits@, at + 1);
        }
        value = value * 10 + (digits[at] - 0x30) as u32;
        at += 1;
        if value > maximum {
            return None;
        }
    }
    assert(digits@.take(at as int) =~= digits@);
    Some(value)
}

/// Whether two byte strings are equal.
pub fn same_bytes(left: &[u8], right: &[u8]) -> (same: bool)
    ensures
        same == (left@ == right@),
{
    if left.len() != right.len() {
        return false;
    }
    let mut at: usize = 0;
    while at < left.len()
        invariant
            at <= left@.len(),
            left@.len() == right@.len(),
            forall|i: int| 0 <= i < at ==> left@[i] == #[trigger] right@[i],
        decreases left@.len() - at,
    {
        if left[at] != right[at] {
            return false;
        }
        at += 1;
    }
    assert(left@ =~= right@);
    true
}

/// Copies bytes, or gives up where no memory can be had for them: no bytes need
/// none.
pub fn try_copy(bytes: &[u8]) -> (copied: Option<Vec<u8>>)
    ensures
        match copied {
            Some(copy) => copy@ == bytes@,
            None => bytes@.len() > 0,
        },
{
    let mut copy: Vec<u8> = Vec::new();
    if bytes.len() > 0 && copy.try_reserve(bytes.len()).is_err() {
        return None;
    }
    copy.extend_from_slice(bytes);
    assert(copy@ =~= bytes@);
    Some(copy)
}

} // verus!
