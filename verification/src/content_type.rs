//! Strict classification of one `Content-Type` field line.

use vstd::prelude::*;

use crate::bytes::{
    eq_ignore_ascii_case, find_in, find_outside, to_lower, trim, ByteClass, BACKSLASH, EQUALS,
    QUOTE, SEMICOLON, SLASH,
};
use crate::text::{ascii_text, is_ascii};

verus! {

/// Maximum charset parameters retained from one `Content-Type` field value.
pub const MAX_CONTENT_TYPE_CHARSETS: usize = 16;

/// Why a `Content-Type` field could not be reduced to typed inputs.
#[derive(Clone, Copy, Debug, PartialEq, Eq, Structural)]
pub enum MalformedContentType {
    /// The field contained non-ASCII bytes.
    NonAscii,
    /// The media type was empty or lacked an exact `type/subtype` pair.
    InvalidMediaType,
    /// A parameter name, separator, token, or quoted string was malformed.
    InvalidParameter,
    /// A charset value was empty or not an HTTP token after quote removal.
    InvalidCharset,
}

/// Classification of one field line, in specifications.
pub enum ContentTypeModel {
    /// A media type and its charset parameters, in lower case.
    Parsed {
        /// `type/subtype`.
        media_type: Seq<char>,
        /// Charsets, in parameter order.
        charsets: Seq<Seq<char>>,
    },
    /// A malformed field, and why.
    Malformed(MalformedContentType),
    /// More charset parameters than are retained.
    TooManyCharsets,
}

/// A parameter, in specifications.
pub struct ContentTypeParameterModel {
    /// Name.
    pub name: Seq<u8>,
    /// Value; between the quotes where it is quoted.
    pub value: Seq<u8>,
    /// Whether the value is quoted.
    pub quoted: bool,
    /// Index of the semicolon behind the parameter, or the length.
    pub next: int,
}

/// Index of the quote that closes a string whose content starts at `from`.
pub open spec fn closing_quote(value: Seq<u8>, from: int) -> Option<int>
    decreases value.len() + 1 - from,
{
    if from >= value.len() {
        None
    } else if value[from] == QUOTE {
        Some(from)
    } else if value[from] == BACKSLASH {
        if from + 1 >= value.len() {
            None
        } else {
            closing_quote(value, from + 2)
        }
    } else {
        closing_quote(value, from + 1)
    }
}

/// A closing quote lies inside the value.
pub proof fn closing_quote_is_inside(value: Seq<u8>, from: int)
    requires
        0 <= from,
    ensures
        closing_quote(value, from) matches Some(at) ==> from <= at < value.len(),
    decreases value.len() + 1 - from,
{
    if from < value.len() && value[from] != QUOTE {
        if value[from] == BACKSLASH {
            if from + 1 < value.len() {
                closing_quote_is_inside(value, from + 2);
            }
        } else {
            closing_quote_is_inside(value, from + 1);
        }
    }
}

/// Start, end, quotedness and follower of the parameter value that begins at
/// `start`.
pub open spec fn value_span(value: Seq<u8>, start: int) -> Option<(int, int, bool, int)> {
    if start >= value.len() {
        None
    } else if value[start] == QUOTE {
        match closing_quote(value, start + 1) {
            Some(end) => Some((start + 1, end, true, end + 1)),
            None => None,
        }
    } else {
        let end = crate::bytes::first_outside(value, start, ByteClass::Token);
        if end == start {
            None
        } else {
            Some((start, end, false, end))
        }
    }
}

/// The parameter behind the semicolon at `at`.
pub open spec fn parameter_at(value: Seq<u8>, at: int) -> Option<ContentTypeParameterModel> {
    let ows = ByteClass::OptionalWhitespace;
    let name_start = crate::bytes::first_outside(value, at + 1, ows);
    let name_end = crate::bytes::first_outside(value, name_start, ByteClass::Token);
    let equals = crate::bytes::first_outside(value, name_end, ows);
    let start = crate::bytes::first_outside(value, equals + 1, ows);
    if name_end == name_start || equals >= value.len() || value[equals] != EQUALS {
        None
    } else {
        match value_span(value, start) {
            None => None,
            Some((from, to, quoted, follower)) => {
                let next = crate::bytes::first_outside(value, follower, ows);
                if next < value.len() && value[next] != SEMICOLON {
                    None
                } else {
                    Some(
                        ContentTypeParameterModel {
                            name: value.subrange(name_start, name_end),
                            value: value.subrange(from, to),
                            quoted,
                            next,
                        },
                    )
                }
            },
        }
    }
}

/// A parameter lies inside the value.
pub proof fn parameter_at_is_inside(value: Seq<u8>, at: int)
    requires
        0 <= at < value.len(),
    ensures
        parameter_at(value, at) matches Some(parameter) ==> at < parameter.next <= value.len(),
        parameter_at(value, at) matches Some(parameter) ==> (parameter.next < value.len()
            ==> value[parameter.next] == SEMICOLON),
{
    let ows = ByteClass::OptionalWhitespace;
    crate::bytes::first_outside_is_first(value, at + 1, ows);
    let name_start = crate::bytes::first_outside(value, at + 1, ows);
    crate::bytes::first_outside_is_first(value, name_start, ByteClass::Token);
    let name_end = crate::bytes::first_outside(value, name_start, ByteClass::Token);
    crate::bytes::first_outside_is_first(value, name_end, ows);
    let equals = crate::bytes::first_outside(value, name_end, ows);
    if equals < value.len() {
        crate::bytes::first_outside_is_first(value, equals + 1, ows);
        let start = crate::bytes::first_outside(value, equals + 1, ows);
        closing_quote_is_inside(value, start + 1);
        crate::bytes::first_outside_is_first(value, start, ByteClass::Token);
        if let Some((from, to, quoted, follower)) = value_span(value, start) {
            crate::bytes::first_outside_is_first(value, follower, ows);
        }
    }
}

/// Content of a quoted charset in lower case, without the backslashes that
/// quote other bytes; a last backslash leaves nothing.
pub open spec fn unquoted_charset(content: Seq<u8>) -> Option<Seq<u8>>
    decreases content.len(),
{
    if content.len() == 0 {
        Some(Seq::empty())
    } else if content[0] == BACKSLASH {
        if content.len() == 1 {
            None
        } else {
            match unquoted_charset(content.subrange(2, content.len() as int)) {
                Some(rest) => Some(seq![crate::bytes::lower(content[1])] + rest),
                None => None,
            }
        }
    } else {
        match unquoted_charset(content.subrange(1, content.len() as int)) {
            Some(rest) => Some(seq![crate::bytes::lower(content[0])] + rest),
            None => None,
        }
    }
}

/// The charset that a parameter value stands for.
pub open spec fn charset_of(parameter: ContentTypeParameterModel) -> Seq<u8> {
    if parameter.quoted {
        match unquoted_charset(parameter.value) {
            Some(charset) => charset,
            None => Seq::empty(),
        }
    } else {
        crate::bytes::lowered(parameter.value)
    }
}

/// The charsets of the parameters from the semicolon at `at` on, behind those
/// already found.
pub open spec fn charsets_from(
    value: Seq<u8>,
    at: int,
    media_type: Seq<char>,
    charsets: Seq<Seq<char>>,
) -> ContentTypeModel
    decreases value.len() - at,
{
    if at < 0 || at >= value.len() {
        ContentTypeModel::Parsed { media_type, charsets }
    } else {
        match parameter_at(value, at) {
            None => ContentTypeModel::Malformed(MalformedContentType::InvalidParameter),
            Some(parameter) => {
                proof {
                    parameter_at_is_inside(value, at);
                }
                if !crate::bytes::same_word(parameter.name, crate::bytes::text("charset"@)) {
                    charsets_from(value, parameter.next, media_type, charsets)
                } else {
                    let charset = charset_of(parameter);
                    if charset.len() == 0 || !ByteClass::Token.has_all(charset) {
                        ContentTypeModel::Malformed(MalformedContentType::InvalidCharset)
                    } else if charsets.len() >= MAX_CONTENT_TYPE_CHARSETS {
                        ContentTypeModel::TooManyCharsets
                    } else {
                        charsets_from(
                            value,
                            parameter.next,
                            media_type,
                            charsets.push(crate::text::ascii_chars(charset)),
                        )
                    }
                }
            },
        }
    }
}

/// Whether bytes are an exact `type/subtype` pair of tokens.
pub open spec fn is_media_type(media: Seq<u8>) -> bool {
    let slash = crate::bytes::first_in(media, 0, ByteClass::Exactly(SLASH));
    &&& 0 < slash
    &&& slash + 1 < media.len()
    &&& ByteClass::Token.has_all(media.subrange(0, slash))
    &&& ByteClass::Token.has_all(media.subrange(slash + 1, media.len() as int))
}

/// What stands in front of the parameters of a field line.
pub open spec fn media_of(field: Seq<u8>) -> Seq<u8> {
    let value = crate::bytes::trimmed(field, ByteClass::AsciiWhitespace);
    let media_end = crate::bytes::first_in(value, 0, ByteClass::Exactly(SEMICOLON));
    crate::bytes::trimmed(value.subrange(0, media_end), ByteClass::AsciiWhitespace)
}

/// What a field line says.
pub open spec fn classified(field: Seq<u8>) -> ContentTypeModel {
    let value = crate::bytes::trimmed(field, ByteClass::AsciiWhitespace);
    let media_end = crate::bytes::first_in(value, 0, ByteClass::Exactly(SEMICOLON));
    let media = media_of(field);
    if !crate::text::is_ascii_bytes(field) {
        ContentTypeModel::Malformed(MalformedContentType::NonAscii)
    } else if !is_media_type(media) {
        ContentTypeModel::Malformed(MalformedContentType::InvalidMediaType)
    } else {
        charsets_from(
            value,
            media_end,
            crate::text::ascii_chars(crate::bytes::lowered(media)),
            Seq::empty(),
        )
    }
}

/// Parsed inputs from one exact field line.
#[derive(Debug, PartialEq, Eq)]
pub struct ParsedContentType {
    media_type: String,
    charsets: Vec<String>,
}

/// Texts, in specifications.
pub open spec fn texts(strings: Seq<String>) -> Seq<Seq<char>> {
    Seq::new(strings.len(), |i: int| strings[i]@)
}

impl ParsedContentType {
    /// `type/subtype`, in specifications.
    pub closed spec fn media_type_of(self) -> Seq<char> {
        self.media_type@
    }

    /// Charsets, in specifications.
    pub closed spec fn charsets_of(self) -> Seq<Seq<char>> {
        texts(self.charsets@)
    }

    /// ASCII-lowercase `type/subtype`.
    pub fn media_type(&self) -> (media_type: &str)
        ensures
            media_type@ == self.media_type_of(),
    {
        self.media_type.as_str()
    }

    /// ASCII-lowercase charset values in parameter order.
    pub fn charsets(&self) -> (charsets: &[String])
        ensures
            texts(charsets@) == self.charsets_of(),
    {
        self.charsets.as_slice()
    }
}

/// Classification of one field line.
#[derive(Debug, PartialEq, Eq)]
pub enum ContentTypeInput {
    /// A syntactically reduced media type and its charset parameters.
    Parsed(ParsedContentType),
    /// A malformed field, retained only as a non-sensitive typed reason.
    Malformed(MalformedContentType),
}

impl View for ContentTypeInput {
    type V = ContentTypeModel;

    open spec fn view(&self) -> ContentTypeModel {
        match self {
            ContentTypeInput::Parsed(parsed) => ContentTypeModel::Parsed {
                media_type: parsed.media_type_of(),
                charsets: parsed.charsets_of(),
            },
            ContentTypeInput::Malformed(reason) => ContentTypeModel::Malformed(*reason),
        }
    }
}

/// Why a field line was not classified.
#[derive(Clone, Copy, Debug, PartialEq, Eq, Structural)]
pub enum ContentTypeFailure {
    /// More charset parameters than are retained.
    TooManyCharsets,
    /// No memory could be had.
    AllocationFailed,
}

/// A parameter.
struct ContentTypeParameter<'a> {
    name: &'a [u8],
    value: &'a [u8],
    quoted: bool,
    next: usize,
}

impl<'a> ContentTypeParameter<'a> {
    spec fn model(self) -> ContentTypeParameterModel {
        ContentTypeParameterModel {
            name: self.name@,
            value: self.value@,
            quoted: self.quoted,
            next: self.next as int,
        }
    }
}

/// Finds the quote that closes a string whose opening quote is at
/// `opening_quote`.
fn parse_quoted_parameter(value: &[u8], opening_quote: usize) -> (closing: Option<usize>)
    requires
        opening_quote < value@.len(),
    ensures
        match closing {
            Some(at) => closing_quote(value@, opening_quote + 1) == Some(at as int)
                && opening_quote < at < value@.len(),
            None => closing_quote(value@, opening_quote + 1) is None,
        },
{
    let len: usize = value.len();
    let mut cursor: usize = opening_quote + 1;
    while cursor < len
        invariant
            len == value@.len(),
            opening_quote < cursor <= len,
            closing_quote(value@, cursor as int) == closing_quote(value@, opening_quote + 1),
        decreases len - cursor,
    {
        if value[cursor] == QUOTE {
            return Some(cursor);
        }
        if value[cursor] == BACKSLASH {
            if cursor + 1 == len {
                return None;
            }
            cursor += 1;
        }
        cursor += 1;
    }
    None
}

/// Reads the parameter behind the semicolon at `semicolon`.
fn parse_content_type_parameter<'a>(value: &'a [u8], semicolon: usize) -> (parameter: Option<
    ContentTypeParameter<'a>,
>)
    requires
        semicolon < value@.len(),
    ensures
        match parameter {
            Some(parameter) => parameter_at(value@, semicolon as int) == Some(parameter.model()),
            None => parameter_at(value@, semicolon as int) is None,
        },
{
    let len: usize = value.len();
    let name_start: usize = find_outside(value, semicolon + 1, ByteClass::OptionalWhitespace);
    let name_end: usize = find_outside(value, name_start, ByteClass::Token);
    if name_end == name_start {
        return None;
    }
    let equals: usize = find_outside(value, name_end, ByteClass::OptionalWhitespace);
    if equals == len || value[equals] != EQUALS {
        return None;
    }
    let start: usize = find_outside(value, equals + 1, ByteClass::OptionalWhitespace);
    if start == len {
        return None;
    }
    let (from, to, quoted, follower): (usize, usize, bool, usize) = if value[start] == QUOTE {
        match parse_quoted_parameter(value, start) {
            Some(end) => (start + 1, end, true, end + 1),
            None => return None,
        }
    } else {
        let end: usize = find_outside(value, start, ByteClass::Token);
        if end == start {
            return None;
        }
        (start, end, false, end)
    };
    let next: usize = find_outside(value, follower, ByteClass::OptionalWhitespace);
    if next < len && value[next] != SEMICOLON {
        return None;
    }
    Some(
        ContentTypeParameter {
            name: &value[name_start..name_end],
            value: &value[from..to],
            quoted,
            next,
        },
    )
}

/// Copies bytes in lower case; no bytes need no memory.
fn try_lower(bytes: &[u8]) -> (result: Result<Vec<u8>, ContentTypeFailure>)
    ensures
        match result {
            Ok(copied) => copied@ == crate::bytes::lowered(bytes@),
            Err(failure) => failure is AllocationFailed && bytes@.len() > 0,
        },
{
    let mut copied: Vec<u8> = Vec::new();
    if bytes.len() > 0 && copied.try_reserve(bytes.len()).is_err() {
        return Err(ContentTypeFailure::AllocationFailed);
    }
    let mut at: usize = 0;
    while at < bytes.len()
        invariant
            at <= bytes@.len(),
            copied@ == crate::bytes::lowered(bytes@).take(at as int),
        decreases bytes@.len() - at,
    {
        copied.push(to_lower(bytes[at]));
        assert(copied@ =~= crate::bytes::lowered(bytes@).take(at + 1));
        at += 1;
    }
    assert(crate::bytes::lowered(bytes@).take(at as int) =~= crate::bytes::lowered(bytes@));
    Ok(copied)
}

/// Copies a quoted charset in lower case, without the backslashes that quote
/// other bytes; no bytes need no memory.
fn unescape_quoted_charset(content: &[u8]) -> (result: Result<Vec<u8>, ContentTypeFailure>)
    ensures
        match result {
            Ok(copied) => copied@ == match unquoted_charset(content@) {
                Some(charset) => charset,
                None => Seq::empty(),
            },
            Err(failure) => failure is AllocationFailed && content@.len() > 0,
        },
{
    let len: usize = content.len();
    let mut copied: Vec<u8> = Vec::new();
    if len > 0 && copied.try_reserve(len).is_err() {
        return Err(ContentTypeFailure::AllocationFailed);
    }
    let mut cursor: usize = 0;
    assert(content@.subrange(0, len as int) =~= content@);
    proof {
        if let Some(charset) = unquoted_charset(content@) {
            assert(copied@ + charset =~= charset);
        }
    }
    while cursor < len
        invariant
            len == content@.len(),
            cursor <= len,
            match unquoted_charset(content@.subrange(cursor as int, len as int)) {
                Some(rest) => unquoted_charset(content@) == Some(copied@ + rest),
                None => unquoted_charset(content@) is None,
            },
        decreases len - cursor,
    {
        let ghost rest = content@.subrange(cursor as int, len as int);
        let ghost before = copied@;
        if content[cursor] == BACKSLASH {
            if cursor + 1 == len {
                let nothing: Vec<u8> = Vec::new();
                assert(nothing@ =~= Seq::<u8>::empty());
                return Ok(nothing);
            }
            cursor += 1;
            assert(content@.subrange(cursor + 1, len as int) =~= rest.subrange(
                2,
                rest.len() as int,
            ));
        } else {
            assert(content@.subrange(cursor + 1, len as int) =~= rest.subrange(
                1,
                rest.len() as int,
            ));
        }
        let byte: u8 = to_lower(content[cursor]);
        copied.push(byte);
        cursor += 1;
        proof {
            if let Some(left) = unquoted_charset(content@.subrange(cursor as int, len as int)) {
                assert(before + (seq![byte] + left) =~= copied@ + left);
            }
        }
    }
    assert(copied@ + Seq::<u8>::empty() =~= copied@);
    Ok(copied)
}

/// Token bytes are ASCII.
proof fn tokens_are_ascii(bytes: Seq<u8>)
    requires
        ByteClass::Token.has_all(bytes),
    ensures
        crate::text::is_ascii_bytes(bytes),
{
    assert forall|i: int| 0 <= i < bytes.len() implies #[trigger] bytes[i] < 0x80 by {
        assert(ByteClass::Token.has(bytes[i]));
    }
}

/// Part of ASCII bytes is ASCII, and so is its lower case.
proof fn lowered_part_is_ascii(bytes: Seq<u8>)
    requires
        crate::text::is_ascii_bytes(bytes),
    ensures
        crate::text::is_ascii_bytes(crate::bytes::lowered(bytes)),
{
    assert forall|i: int| 0 <= i < bytes.len() implies #[trigger] crate::bytes::lowered(bytes)[i]
        < 0x80 by {
        assert(bytes[i] < 0x80);
    }
}

/// A media type is ASCII.
proof fn media_type_is_ascii(media: Seq<u8>)
    requires
        is_media_type(media),
    ensures
        crate::text::is_ascii_bytes(media),
{
    let slash = crate::bytes::first_in(media, 0, ByteClass::Exactly(SLASH));
    crate::bytes::first_in_is_first(media, 0, ByteClass::Exactly(SLASH));
    let left = media.subrange(0, slash);
    let right = media.subrange(slash + 1, media.len() as int);
    tokens_are_ascii(left);
    tokens_are_ascii(right);
    assert forall|i: int| 0 <= i < media.len() implies #[trigger] media[i] < 0x80 by {
        if i < slash {
            assert(left[i] == media[i]);
        } else if i > slash {
            assert(right[i - slash - 1] == media[i]);
        }
    }
}

/// Reads the media type in front of the parameters.
fn parse_media_type(media: &[u8]) -> (result: Result<Option<String>, ContentTypeFailure>)
    ensures
        match result {
            Ok(Some(text)) => is_media_type(media@) && text@ == crate::text::ascii_chars(
                crate::bytes::lowered(media@),
            ),
            Ok(None) => !is_media_type(media@),
            Err(failure) => failure is AllocationFailed && is_media_type(media@),
        },
{
    let slash: usize = find_in(media, 0, ByteClass::Exactly(SLASH));
    if slash == 0 || media.len() - slash <= 1 || !ByteClass::Token.contains_all(&media[0..slash])
        || !ByteClass::Token.contains_all(&media[slash + 1..media.len()]) {
        return Ok(None);
    }
    proof {
        media_type_is_ascii(media@);
        lowered_part_is_ascii(media@);
    }
    match try_lower(media) {
        Ok(lowered) => Ok(Some(ascii_text(lowered.as_slice()))),
        Err(failure) => Err(failure),
    }
}

/// Classifies one field line. Memory is only needed behind a valid media type:
/// a field without one is classified in any case.
pub fn parse_content_type(field: &[u8]) -> (result: Result<ContentTypeInput, ContentTypeFailure>)
    ensures
        match result {
            Ok(input) => input@ == classified(field@),
            Err(ContentTypeFailure::TooManyCharsets) => classified(field@) is TooManyCharsets,
            Err(ContentTypeFailure::AllocationFailed) => crate::text::is_ascii_bytes(field@)
                && is_media_type(media_of(field@)),
        },
{
    if !is_ascii(field) {
        return Ok(ContentTypeInput::Malformed(MalformedContentType::NonAscii));
    }
    let value: &[u8] = trim(field, ByteClass::AsciiWhitespace);
    let len: usize = value.len();
    let media_end: usize = find_in(value, 0, ByteClass::Exactly(SEMICOLON));
    let media: &[u8] = trim(&value[0..media_end], ByteClass::AsciiWhitespace);
    if media.len() == 0 {
        proof {
            crate::bytes::first_in_is_first(media@, 0, ByteClass::Exactly(SLASH));
        }
        return Ok(ContentTypeInput::Malformed(MalformedContentType::InvalidMediaType));
    }
    let media_type: String = match parse_media_type(media) {
        Ok(Some(media_type)) => media_type,
        Ok(None) => return Ok(
            ContentTypeInput::Malformed(MalformedContentType::InvalidMediaType),
        ),
        Err(failure) => return Err(failure),
    };
    let mut charsets: Vec<String> = Vec::new();
    let mut cursor: usize = media_end;
    assert(texts(charsets@) =~= Seq::<Seq<char>>::empty());
    while cursor < len
        invariant
            len == value@.len(),
            cursor <= len,
            is_media_type(media_of(field@)),
            crate::text::is_ascii_bytes(field@),
            classified(field@) == charsets_from(
                value@,
                cursor as int,
                media_type@,
                texts(charsets@),
            ),
        decreases len - cursor,
    {
        let parameter = match parse_content_type_parameter(value, cursor) {
            Some(parameter) => parameter,
            None => return Ok(
                ContentTypeInput::Malformed(MalformedContentType::InvalidParameter),
            ),
        };
        proof {
            parameter_at_is_inside(value@, cursor as int);
        }
        if eq_ignore_ascii_case(parameter.name, "charset".as_bytes()) {
            let charset: Vec<u8> = match if parameter.quoted {
                unescape_quoted_charset(parameter.value)
            } else {
                try_lower(parameter.value)
            } {
                Ok(charset) => charset,
                Err(failure) => return Err(failure),
            };
            if charset.len() == 0 || !ByteClass::Token.contains_all(charset.as_slice()) {
                return Ok(ContentTypeInput::Malformed(MalformedContentType::InvalidCharset));
            }
            if charsets.len() >= MAX_CONTENT_TYPE_CHARSETS {
                return Err(ContentTypeFailure::TooManyCharsets);
            }
            if charsets.try_reserve(1).is_err() {
                return Err(ContentTypeFailure::AllocationFailed);
            }
            proof {
                tokens_are_ascii(charset@);
            }
            let ghost before = charsets@;
            charsets.push(ascii_text(charset.as_slice()));
            assert(texts(charsets@) =~= texts(before).push(crate::text::ascii_chars(charset@)));
        }
        cursor = parameter.next;
    }
    Ok(ContentTypeInput::Parsed(ParsedContentType { media_type, charsets }))
}

} // verus!
