//! Selection of a media type and charset from `Content-Type` field values.

use vstd::prelude::*;

use crate::bytes::{
    eq_ignore_ascii_case, find_in, find_outside, same_bytes, trim, trim_trailing, try_copy,
    ByteClass, BACKSLASH, COMMA, EQUALS, QUOTE, SEMICOLON, SLASH,
};
use crate::style_fetch::StyleFetchRejection;

verus! {

/// A media type without parameters, in specifications.
pub struct EssenceModel {
    /// The part before the slash.
    pub main_type: Seq<u8>,
    /// The part behind the slash.
    pub subtype: Seq<u8>,
}

/// A media type with its charset parameter, in specifications.
pub struct MimeModel {
    /// The media type.
    pub essence: EssenceModel,
    /// Its charset.
    pub charset: Option<Seq<u8>>,
}

/// Content of a quoted string and where it ends, in specifications.
pub struct QuotedModel {
    /// Content, without the backslashes that quote other bytes.
    pub content: Seq<u8>,
    /// Index of the closing quote, or the length.
    pub end: int,
}

/// A parameter value, in specifications.
pub struct ParameterModel {
    /// Content of the value.
    pub content: Seq<u8>,
    /// Whether the content can be taken.
    pub valid: bool,
    /// Index of the semicolon behind the value, or the length.
    pub next: int,
}

/// Bytes that may be absent.
pub open spec fn optional_bytes(bytes: Option<Vec<u8>>) -> Option<Seq<u8>> {
    match bytes {
        Some(present) => Some(present@),
        None => None,
    }
}

/// The semicolon as a class.
pub open spec fn semicolon() -> ByteClass {
    ByteClass::Exactly(SEMICOLON)
}

/// The quoted string whose first byte behind the quote is at `from`.
pub open spec fn quoted(value: Seq<u8>, from: int) -> QuotedModel
    decreases value.len() - from,
{
    if from >= value.len() || value[from] == QUOTE {
        QuotedModel { content: Seq::empty(), end: from }
    } else if value[from] == BACKSLASH && from + 1 >= value.len() {
        QuotedModel { content: seq![BACKSLASH], end: from + 1 }
    } else {
        let at = if value[from] == BACKSLASH {
            from + 1
        } else {
            from
        };
        let rest = quoted(value, at + 1);
        QuotedModel { content: seq![value[at]] + rest.content, end: rest.end }
    }
}

/// A quoted string ends inside the value, and is not longer than it.
pub proof fn quoted_ends(value: Seq<u8>, from: int)
    requires
        0 <= from <= value.len(),
    ensures
        from <= quoted(value, from).end <= value.len(),
        quoted(value, from).content.len() <= value.len() - from,
    decreases value.len() - from,
{
    if from < value.len() && value[from] != QUOTE && !(value[from] == BACKSLASH && from + 1
        >= value.len()) {
        let at = if value[from] == BACKSLASH {
            from + 1
        } else {
            from
        };
        quoted_ends(value, at + 1);
    }
}

/// The parameter value that starts at `start`.
pub open spec fn parameter_value(value: Seq<u8>, start: int) -> ParameterModel {
    if value[start] == QUOTE {
        let string = quoted(value, start + 1);
        ParameterModel {
            content: string.content,
            valid: ByteClass::QuotedString.has_all(string.content),
            next: crate::bytes::first_in(value, string.end, semicolon()),
        }
    } else {
        let next = crate::bytes::first_in(value, start, semicolon());
        let content = crate::bytes::without_trailing(
            value.subrange(start, next),
            ByteClass::HttpWhitespace,
        );
        ParameterModel {
            content,
            valid: content.len() > 0 && ByteClass::QuotedString.has_all(content),
            next,
        }
    }
}

/// A parameter value ends inside the value, and is not longer than it.
pub proof fn parameter_value_ends(value: Seq<u8>, start: int)
    requires
        0 <= start < value.len(),
    ensures
        start <= parameter_value(value, start).next <= value.len(),
        parameter_value(value, start).next < value.len() ==> value[parameter_value(
            value,
            start,
        ).next] == SEMICOLON,
        parameter_value(value, start).content.len() <= value.len(),
{
    if value[start] == QUOTE {
        quoted_ends(value, start + 1);
        crate::bytes::first_in_is_first(value, quoted(value, start + 1).end, semicolon());
    } else {
        crate::bytes::first_in_is_first(value, start, semicolon());
        crate::bytes::trimmed_is_part(
            value.subrange(start, parameter_value(value, start).next),
            ByteClass::HttpWhitespace,
        );
    }
}

/// The first charset parameter behind the semicolon at `at` whose content can
/// be taken.
pub open spec fn charset_parameter(value: Seq<u8>, at: int) -> Option<Seq<u8>>
    decreases value.len() - at,
{
    if at < 0 || at >= value.len() {
        None
    } else {
        let name_start = crate::bytes::first_outside(value, at + 1, ByteClass::HttpWhitespace);
        let name_end = crate::bytes::first_in(
            value,
            name_start,
            ByteClass::Either(SEMICOLON, EQUALS),
        );
        proof {
            crate::bytes::first_outside_is_first(value, at + 1, ByteClass::HttpWhitespace);
            crate::bytes::first_in_is_first(
                value,
                name_start,
                ByteClass::Either(SEMICOLON, EQUALS),
            );
            if name_end + 1 < value.len() {
                parameter_value_ends(value, name_end + 1);
            }
        }
        if name_end >= value.len() {
            None
        } else if value[name_end] == SEMICOLON {
            charset_parameter(value, name_end)
        } else if name_end + 1 >= value.len() {
            None
        } else {
            let parameter = parameter_value(value, name_end + 1);
            if crate::bytes::same_word(
                value.subrange(name_start, name_end),
                crate::bytes::text("charset"@),
            ) && parameter.valid {
                Some(parameter.content)
            } else {
                charset_parameter(value, parameter.next)
            }
        }
    }
}

/// The media type that a candidate value names.
pub open spec fn mime_of(candidate: Seq<u8>) -> Option<MimeModel> {
    let value = crate::bytes::trimmed(candidate, ByteClass::HttpWhitespace);
    let slash = crate::bytes::first_in(value, 0, ByteClass::Exactly(SLASH));
    let parameters = crate::bytes::first_in(value, slash + 1, semicolon());
    let main_type = value.subrange(0, slash);
    let subtype = crate::bytes::without_trailing(
        value.subrange(slash + 1, parameters),
        ByteClass::HttpWhitespace,
    );
    if 0 < slash < value.len() && ByteClass::Token.has_all(main_type) && subtype.len() > 0
        && ByteClass::Token.has_all(subtype) {
        Some(
            MimeModel {
                essence: EssenceModel { main_type, subtype },
                charset: charset_parameter(value, parameters),
            },
        )
    } else {
        None
    }
}

/// A media type without parameters.
#[derive(Clone, Copy, Debug)]
pub struct MimeEssence<'a> {
    /// The part before the slash.
    pub main_type: &'a [u8],
    /// The part behind the slash.
    pub subtype: &'a [u8],
}

impl<'a> MimeEssence<'a> {
    /// The media type, in specifications.
    pub open spec fn model(self) -> EssenceModel {
        EssenceModel { main_type: self.main_type@, subtype: self.subtype@ }
    }
}

impl EssenceModel {
    /// Whether this is `*/*`.
    pub open spec fn is_wildcard(self) -> bool {
        self.main_type == crate::bytes::text("*"@) && self.subtype == crate::bytes::text("*"@)
    }

    /// Whether this is `text/css`.
    pub open spec fn is_css(self) -> bool {
        crate::bytes::same_word(self.main_type, crate::bytes::text("text"@))
            && crate::bytes::same_word(self.subtype, crate::bytes::text("css"@))
    }

    /// Whether two media types agree without regard to case.
    pub open spec fn agrees(self, other: Self) -> bool {
        crate::bytes::same_word(self.main_type, other.main_type) && crate::bytes::same_word(
            self.subtype,
            other.subtype,
        )
    }
}

impl<'a> MimeEssence<'a> {
    /// Whether this is `*/*`.
    pub fn is_wildcard(self) -> (wildcard: bool)
        ensures
            wildcard == self.model().is_wildcard(),
    {
        same_bytes(self.main_type, "*".as_bytes()) && same_bytes(self.subtype, "*".as_bytes())
    }

    /// Whether this is `text/css`.
    pub fn is_css(self) -> (css: bool)
        ensures
            css == self.model().is_css(),
    {
        eq_ignore_ascii_case(self.main_type, "text".as_bytes()) && eq_ignore_ascii_case(
            self.subtype,
            "css".as_bytes(),
        )
    }

    /// Whether two media types agree without regard to case.
    pub fn equals(self, other: Self) -> (same: bool)
        ensures
            same == self.model().agrees(other.model()),
    {
        eq_ignore_ascii_case(self.main_type, other.main_type) && eq_ignore_ascii_case(
            self.subtype,
            other.subtype,
        )
    }
}

/// A media type with its charset parameter.
#[derive(Debug)]
pub struct ParsedMime<'a> {
    /// The media type.
    pub essence: MimeEssence<'a>,
    /// Its charset.
    pub charset: Option<Vec<u8>>,
}

impl<'a> ParsedMime<'a> {
    /// The media type and charset, in specifications.
    pub open spec fn model(self) -> MimeModel {
        MimeModel { essence: self.essence.model(), charset: optional_bytes(self.charset) }
    }
}

/// One parameter value.
struct ParameterValue {
    valid: bool,
    captured: Option<Vec<u8>>,
    next: usize,
}

/// Reads a quoted parameter value whose opening quote is at `start`.
fn parse_quoted_parameter_value(value: &[u8], start: usize, capture: bool) -> (result: Result<
    ParameterValue,
    StyleFetchRejection,
>)
    requires
        start < value@.len(),
        value@[start as int] == QUOTE,
    ensures
        match result {
            Ok(parsed) => {
                let model = parameter_value(value@, start as int);
                &&& parsed.valid == model.valid
                &&& parsed.next == model.next
                &&& parsed.captured is Some == capture
                &&& capture ==> optional_bytes(parsed.captured) == Some(model.content)
            },
            Err(rejection) => capture && start + 1 < value@.len() && rejection
                == StyleFetchRejection::AllocationFailed,
        },
{
    let end: usize = value.len();
    let mut position: usize = start + 1;
    let mut valid: bool = true;
    let mut bytes: Vec<u8> = Vec::new();
    if capture && position < end {
        if bytes.try_reserve(end - position).is_err() {
            return Err(StyleFetchRejection::AllocationFailed);
        }
    }
    let ghost string = quoted(value@, start + 1);
    let ghost mut seen: Seq<u8> = Seq::empty();
    assert(seen + string.content =~= string.content);
    while position < value.len() && value[position] != QUOTE
        invariant
            start < position <= value@.len(),
            string == quoted(value@, start + 1),
            seen + quoted(value@, position as int).content == string.content,
            quoted(value@, position as int).end == string.end,
            valid == ByteClass::QuotedString.has_all(seen),
            capture ==> bytes@ == seen,
        decreases value@.len() - position,
    {
        let ghost before = quoted(value@, position as int);
        let ghost prior = seen;
        let mut byte: u8 = value[position];
        position += 1;
        if byte == BACKSLASH && position < value.len() {
            byte = value[position];
            position += 1;
        }
        valid = valid && ByteClass::QuotedString.contains(byte);
        if capture {
            bytes.push(byte);
        }
        proof {
            seen = seen.push(byte);
            let after = quoted(value@, position as int);
            assert(before.content =~= seq![byte] + after.content);
            assert(prior + before.content =~= seen + after.content);
            assert(ByteClass::QuotedString.has_all(seen) == (ByteClass::QuotedString.has_all(prior)
                && ByteClass::QuotedString.has(byte))) by {
                if ByteClass::QuotedString.has_all(seen) {
                    assert forall|i: int| 0 <= i < prior.len() implies ByteClass::QuotedString.has(
                        #[trigger] prior[i],
                    ) by {
                        assert(seen[i] == prior[i]);
                    }
                    assert(seen[prior.len() as int] == byte);
                }
            }
        }
    }
    assert(seen + Seq::<u8>::empty() =~= seen);
    let next: usize = find_in(value, position, ByteClass::Exactly(SEMICOLON));
    let captured: Option<Vec<u8>> = if capture {
        Some(bytes)
    } else {
        None
    };
    Ok(ParameterValue { valid, captured, next })
}

/// Reads an unquoted parameter value that starts at `start`.
fn parse_unquoted_parameter_value(value: &[u8], start: usize, capture: bool) -> (result: Result<
    ParameterValue,
    StyleFetchRejection,
>)
    requires
        start < value@.len(),
        value@[start as int] != QUOTE,
    ensures
        match result {
            Ok(parsed) => {
                let model = parameter_value(value@, start as int);
                &&& parsed.valid == model.valid
                &&& parsed.next == model.next
                &&& capture && model.valid ==> optional_bytes(parsed.captured) == Some(
                    model.content,
                )
            },
            Err(rejection) => capture && parameter_value(value@, start as int).content.len() > 0
                && rejection == StyleFetchRejection::AllocationFailed,
        },
{
    let next: usize = find_in(value, start, ByteClass::Exactly(SEMICOLON));
    let unquoted: &[u8] = trim_trailing(&value[start..next], ByteClass::HttpWhitespace);
    if unquoted.len() == 0 {
        return Ok(ParameterValue { valid: false, captured: None, next });
    }
    let valid: bool = ByteClass::QuotedString.contains_all(unquoted);
    let captured: Option<Vec<u8>> = if capture {
        match try_copy(unquoted) {
            Some(copied) => Some(copied),
            None => return Err(StyleFetchRejection::AllocationFailed),
        }
    } else {
        None
    };
    Ok(ParameterValue { valid, captured, next })
}

/// Whether a parameter named charset with a value stands behind the semicolon
/// at `at`.
pub open spec fn has_charset_parameter(value: Seq<u8>, at: int) -> bool
    decreases value.len() - at,
{
    if at < 0 || at >= value.len() {
        false
    } else {
        let name_start = crate::bytes::first_outside(value, at + 1, ByteClass::HttpWhitespace);
        let name_end = crate::bytes::first_in(
            value,
            name_start,
            ByteClass::Either(SEMICOLON, EQUALS),
        );
        proof {
            crate::bytes::first_outside_is_first(value, at + 1, ByteClass::HttpWhitespace);
            crate::bytes::first_in_is_first(
                value,
                name_start,
                ByteClass::Either(SEMICOLON, EQUALS),
            );
            if name_end + 1 < value.len() {
                parameter_value_ends(value, name_end + 1);
            }
        }
        if name_end >= value.len() {
            false
        } else if value[name_end] == SEMICOLON {
            has_charset_parameter(value, name_end)
        } else if name_end + 1 >= value.len() {
            false
        } else {
            crate::bytes::same_word(
                value.subrange(name_start, name_end),
                crate::bytes::text("charset"@),
            ) || has_charset_parameter(value, parameter_value(value, name_end + 1).next)
        }
    }
}

/// Whether a candidate value names a media type with a charset parameter.
pub open spec fn names_charset(candidate: Seq<u8>) -> bool {
    let value = crate::bytes::trimmed(candidate, ByteClass::HttpWhitespace);
    let slash = crate::bytes::first_in(value, 0, ByteClass::Exactly(SLASH));
    mime_of(candidate) is Some && has_charset_parameter(
        value,
        crate::bytes::first_in(value, slash + 1, semicolon()),
    )
}

/// A charset comes from a charset parameter.
proof fn charset_is_named(value: Seq<u8>, at: int)
    requires
        charset_parameter(value, at) is Some,
    ensures
        has_charset_parameter(value, at),
    decreases value.len() - at,
{
    let name_start = crate::bytes::first_outside(value, at + 1, ByteClass::HttpWhitespace);
    let name_end = crate::bytes::first_in(value, name_start, ByteClass::Either(SEMICOLON, EQUALS));
    crate::bytes::first_outside_is_first(value, at + 1, ByteClass::HttpWhitespace);
    crate::bytes::first_in_is_first(value, name_start, ByteClass::Either(SEMICOLON, EQUALS));
    if name_end < value.len() {
        if value[name_end] == SEMICOLON {
            charset_is_named(value, name_end);
        } else if name_end + 1 < value.len() {
            parameter_value_ends(value, name_end + 1);
            if !crate::bytes::same_word(
                value.subrange(name_start, name_end),
                crate::bytes::text("charset"@),
            ) {
                charset_is_named(value, parameter_value(value, name_end + 1).next);
            }
        }
    }
}

/// A candidate with a charset names one.
proof fn candidate_is_named(candidate: Seq<u8>)
    requires
        mime_of(candidate) matches Some(mime) && mime.charset is Some,
    ensures
        names_charset(candidate),
{
    let value = crate::bytes::trimmed(candidate, ByteClass::HttpWhitespace);
    let slash = crate::bytes::first_in(value, 0, ByteClass::Exactly(SLASH));
    charset_is_named(value, crate::bytes::first_in(value, slash + 1, semicolon()));
}

/// Reads the media type and charset of one candidate value. Memory is only
/// needed for a charset parameter.
pub fn parse_mime_candidate<'a>(candidate: &'a [u8]) -> (result: Result<
    Option<ParsedMime<'a>>,
    StyleFetchRejection,
>)
    ensures
        match result {
            Ok(Some(parsed)) => mime_of(candidate@) == Some(parsed.model()),
            Ok(None) => mime_of(candidate@) is None,
            Err(rejection) => rejection == StyleFetchRejection::AllocationFailed && names_charset(
                candidate@,
            ),
        },
{
    let value: &'a [u8] = trim(candidate, ByteClass::HttpWhitespace);
    let end: usize = value.len();
    let slash: usize = find_in(value, 0, ByteClass::Exactly(SLASH));
    if slash == 0 || slash == end {
        return Ok(None);
    }
    let main_type: &'a [u8] = &value[0..slash];
    if !ByteClass::Token.contains_all(main_type) {
        return Ok(None);
    }
    let parameters: usize = find_in(value, slash + 1, ByteClass::Exactly(SEMICOLON));
    let subtype: &'a [u8] = trim_trailing(
        &value[slash + 1..parameters],
        ByteClass::HttpWhitespace,
    );
    if subtype.len() == 0 || !ByteClass::Token.contains_all(subtype) {
        return Ok(None);
    }
    proof {
        crate::bytes::first_in_is_first(value@, slash + 1, semicolon());
    }
    let ghost wanted = charset_parameter(value@, parameters as int);
    let mut position: usize = parameters;
    let mut charset: Option<Vec<u8>> = None;
    let mut done: bool = false;
    while !done && position < end
        invariant
            end == value@.len(),
            position <= end,
            value@ == crate::bytes::trimmed(candidate@, ByteClass::HttpWhitespace),
            position < end ==> value@[position as int] == SEMICOLON,
            charset is Some ==> done && wanted == optional_bytes(charset),
            charset is None && !done ==> wanted == charset_parameter(value@, position as int),
            charset is None && done ==> wanted is None,
            mime_of(candidate@) is Some,
            slash == crate::bytes::first_in(value@, 0, ByteClass::Exactly(SLASH)),
            parameters == crate::bytes::first_in(value@, slash + 1, semicolon()),
            !done && has_charset_parameter(value@, position as int) ==> has_charset_parameter(
                value@,
                parameters as int,
            ),
        decreases
            end - position,
            if done {
                0int
            } else {
                1int
            },
    {
        let ghost at = position as int;
        let name_start: usize = find_outside(value, position + 1, ByteClass::HttpWhitespace);
        let name_end: usize = find_in(value, name_start, ByteClass::Either(SEMICOLON, EQUALS));
        proof {
            crate::bytes::first_in_is_first(
                value@,
                name_start as int,
                ByteClass::Either(SEMICOLON, EQUALS),
            );
        }
        if name_end == end {
            done = true;
        } else if value[name_end] == SEMICOLON {
            position = name_end;
        } else if name_end + 1 == end {
            done = true;
        } else {
            let name: &[u8] = &value[name_start..name_end];
            let capture: bool = eq_ignore_ascii_case(name, "charset".as_bytes());
            proof {
                parameter_value_ends(value@, name_end + 1);
            }
            let parsed = if value[name_end + 1] == QUOTE {
                parse_quoted_parameter_value(value, name_end + 1, capture)
            } else {
                parse_unquoted_parameter_value(value, name_end + 1, capture)
            };
            match parsed {
                Ok(parameter) => {
                    position = parameter.next;
                    if capture && parameter.valid {
                        charset = parameter.captured;
                        done = true;
                    }
                },
                Err(rejection) => {
                    assert(has_charset_parameter(value@, at));
                    return Err(rejection);
                },
            }
        }
    }
    Ok(Some(ParsedMime { essence: MimeEssence { main_type, subtype }, charset }))
}

/// A charset parameter is not longer than the value that it is in.
proof fn charset_parameter_is_part(value: Seq<u8>, at: int)
    ensures
        charset_parameter(value, at) matches Some(charset) ==> charset.len() <= value.len(),
    decreases value.len() - at,
{
    if 0 <= at < value.len() {
        let name_start = crate::bytes::first_outside(value, at + 1, ByteClass::HttpWhitespace);
        let name_end = crate::bytes::first_in(
            value,
            name_start,
            ByteClass::Either(SEMICOLON, EQUALS),
        );
        crate::bytes::first_outside_is_first(value, at + 1, ByteClass::HttpWhitespace);
        crate::bytes::first_in_is_first(value, name_start, ByteClass::Either(SEMICOLON, EQUALS));
        if name_end < value.len() {
            if value[name_end] == SEMICOLON {
                charset_parameter_is_part(value, name_end);
            } else if name_end + 1 < value.len() {
                parameter_value_ends(value, name_end + 1);
                charset_parameter_is_part(value, parameter_value(value, name_end + 1).next);
            }
        }
    }
}

/// The charset of a media type is not longer than the candidate that names it.
proof fn candidate_charset_is_part(candidate: Seq<u8>)
    ensures
        mime_of(candidate) matches Some(mime) ==> (mime.charset matches Some(charset)
            ==> charset.len() <= candidate.len()),
{
    let value = crate::bytes::trimmed(candidate, ByteClass::HttpWhitespace);
    let slash = crate::bytes::first_in(value, 0, ByteClass::Exactly(SLASH));
    crate::bytes::first_outside_is_first(candidate, 0, ByteClass::HttpWhitespace);
    crate::bytes::trimmed_is_part(
        crate::bytes::without_leading(candidate, ByteClass::HttpWhitespace),
        ByteClass::HttpWhitespace,
    );
    charset_parameter_is_part(value, crate::bytes::first_in(value, slash + 1, semicolon()));
}

/// What was selected so far, in specifications.
pub struct SelectionModel {
    /// Selected media type.
    pub selected: Option<EssenceModel>,
    /// Charset of the selected media type.
    pub selected_charset: Option<Seq<u8>>,
    /// Last media type that was not a repetition.
    pub previous: Option<EssenceModel>,
    /// Charset that a repetition inherits.
    pub previous_charset: Option<Seq<u8>>,
}

impl SelectionModel {
    /// Nothing was selected yet.
    pub open spec fn empty() -> Self {
        SelectionModel {
            selected: None,
            selected_charset: None,
            previous: None,
            previous_charset: None,
        }
    }

    /// Charsets are not longer than `len`.
    pub open spec fn is_within(self, len: nat) -> bool {
        &&& self.selected_charset matches Some(charset) ==> charset.len() <= len
        &&& self.previous_charset matches Some(charset) ==> charset.len() <= len
    }

    /// What is selected after one more candidate: a repetition of the previous
    /// media type inherits its charset, and a wildcard selects the previous one.
    pub open spec fn after(self, candidate: Seq<u8>) -> Self {
        if candidate == crate::bytes::text("error"@) {
            self
        } else {
            match mime_of(candidate) {
                None => self,
                Some(mime) => if mime.essence.is_wildcard() {
                    SelectionModel { selected: self.previous, ..self }
                } else {
                    let repeated = self.previous matches Some(previous) && mime.essence.agrees(
                        previous,
                    );
                    let charset = if mime.charset is Some {
                        mime.charset
                    } else if repeated {
                        self.previous_charset
                    } else {
                        None
                    };
                    SelectionModel {
                        selected: Some(mime.essence),
                        selected_charset: charset,
                        previous: if repeated {
                            self.previous
                        } else {
                            Some(mime.essence)
                        },
                        previous_charset: if (!repeated && self.previous_charset is Some)
                            || mime.charset is Some {
                            charset
                        } else {
                            self.previous_charset
                        },
                    }
                },
            }
        }
    }
}

/// Whether the byte at `index` opens or closes a quoted part.
pub open spec fn toggles_quotes(value: Seq<u8>, index: int) -> bool {
    value[index] == QUOTE && (index == 0 || value[index - 1] != BACKSLASH)
}

/// Whether the byte at `index` lies in a quoted part.
pub open spec fn in_quotes(value: Seq<u8>, index: int) -> bool
    decreases index,
{
    if index <= 0 {
        false
    } else {
        in_quotes(value, index - 1) != toggles_quotes(value, index - 1)
    }
}

/// Whether the byte at `index` ends a candidate.
pub open spec fn ends_candidate(value: Seq<u8>, index: int) -> bool {
    value[index] == COMMA && !in_quotes(value, index)
}

/// Where the candidate that `index` lies in starts.
pub open spec fn candidate_start(value: Seq<u8>, index: int) -> int
    decreases index,
{
    if index <= 0 {
        0
    } else if ends_candidate(value, index - 1) {
        index
    } else {
        candidate_start(value, index - 1)
    }
}

/// What the candidates that end before `index` select.
pub open spec fn selection(value: Seq<u8>, index: int) -> SelectionModel
    decreases index,
{
    if index <= 0 {
        SelectionModel::empty()
    } else if ends_candidate(value, index - 1) {
        selection(value, index - 1).after(
            value.subrange(candidate_start(value, index - 1), index - 1),
        )
    } else {
        selection(value, index - 1)
    }
}

/// What all candidates of a value select.
pub open spec fn complete_selection(value: Seq<u8>) -> SelectionModel {
    let len = value.len() as int;
    let start = candidate_start(value, len);
    if start < len {
        selection(value, len).after(value.subrange(start, len))
    } else {
        selection(value, len)
    }
}

/// Whether a candidate that ends before `index` names a charset.
pub open spec fn charset_named_before(value: Seq<u8>, index: int) -> bool
    decreases index,
{
    if index <= 0 {
        false
    } else {
        charset_named_before(value, index - 1) || (ends_candidate(value, index - 1)
            && names_charset(value.subrange(candidate_start(value, index - 1), index - 1)))
    }
}

/// Whether a candidate of a value names a charset.
pub open spec fn charset_named(value: Seq<u8>) -> bool {
    let len = value.len() as int;
    charset_named_before(value, len) || names_charset(
        value.subrange(candidate_start(value, len), len),
    )
}

/// The media type and charset that a comma-separated value selects.
pub open spec fn extracted_mime(value: Seq<u8>) -> Option<MimeModel> {
    let selected = complete_selection(value);
    match selected.selected {
        Some(essence) => Some(MimeModel { essence, charset: selected.selected_charset }),
        None => None,
    }
}

/// Copies bytes that may be absent.
fn try_copy_optional(bytes: &Option<Vec<u8>>) -> (result: Result<
    Option<Vec<u8>>,
    StyleFetchRejection,
>)
    ensures
        match result {
            Ok(copied) => optional_bytes(copied) == optional_bytes(*bytes),
            Err(rejection) => rejection == StyleFetchRejection::AllocationFailed && (optional_bytes(
                *bytes,
            ) matches Some(present) && present.len() > 0),
        },
{
    match bytes {
        None => Ok(None),
        Some(present) => match try_copy(present.as_slice()) {
            Some(copied) => Ok(Some(copied)),
            None => Err(StyleFetchRejection::AllocationFailed),
        },
    }
}

/// Charsets that candidates before `index` select are not longer than the value.
proof fn selected_charset_is_part(value: Seq<u8>, index: int)
    requires
        index <= value.len(),
    ensures
        selection(value, index).is_within(value.len()),
    decreases index,
{
    if index > 0 {
        selected_charset_is_part(value, index - 1);
        if ends_candidate(value, index - 1) {
            candidate_start_is_inside(value, index - 1);
            candidate_charset_is_part(
                value.subrange(candidate_start(value, index - 1), index - 1),
            );
        }
    }
}

/// The charset that a value selects is not longer than the value.
pub proof fn extracted_charset_is_part(value: Seq<u8>)
    ensures
        extracted_mime(value) matches Some(mime) ==> (mime.charset matches Some(charset)
            ==> charset.len() <= value.len()),
{
    let len = value.len() as int;
    selected_charset_is_part(value, len);
    candidate_start_is_inside(value, len);
    candidate_charset_is_part(value.subrange(candidate_start(value, len), len));
}

/// What was selected so far.
struct MimeExtractionState<'a> {
    selected: Option<MimeEssence<'a>>,
    selected_charset: Option<Vec<u8>>,
    previous: Option<MimeEssence<'a>>,
    previous_charset: Option<Vec<u8>>,
}

/// A media type that may be absent.
spec fn optional_essence<'a>(essence: Option<MimeEssence<'a>>) -> Option<EssenceModel> {
    match essence {
        Some(present) => Some(present.model()),
        None => None,
    }
}

impl<'a> MimeExtractionState<'a> {
    spec fn model(self) -> SelectionModel {
        SelectionModel {
            selected: optional_essence(self.selected),
            selected_charset: optional_bytes(self.selected_charset),
            previous: optional_essence(self.previous),
            previous_charset: optional_bytes(self.previous_charset),
        }
    }

    /// Takes one more candidate into account.
    fn process(&mut self, candidate: &'a [u8]) -> (result: Result<(), StyleFetchRejection>)
        ensures
            match result {
                Ok(_) => final(self).model() == old(self).model().after(candidate@),
                Err(rejection) => rejection == StyleFetchRejection::AllocationFailed && (
                names_charset(candidate@) || old(self).model().previous_charset is Some),
            },
    {
        if same_bytes(candidate, "error".as_bytes()) {
            return Ok(());
        }
        let parsed = match parse_mime_candidate(candidate) {
            Ok(Some(parsed)) => parsed,
            Ok(None) => return Ok(()),
            Err(rejection) => return Err(rejection),
        };
        if parsed.essence.is_wildcard() {
            self.selected = self.previous;
            return Ok(());
        }
        proof {
            if parsed.charset is Some {
                candidate_is_named(candidate@);
            }
        }
        let repeated: bool = match self.previous {
            Some(previous) => parsed.essence.equals(previous),
            None => false,
        };
        let has_charset: bool = parsed.charset.is_some();
        let selected_charset: Option<Vec<u8>> = if has_charset {
            parsed.charset
        } else if repeated {
            match try_copy_optional(&self.previous_charset) {
                Ok(copied) => copied,
                Err(rejection) => return Err(rejection),
            }
        } else {
            None
        };
        if (!repeated && self.previous_charset.is_some()) || has_charset {
            match try_copy_optional(&selected_charset) {
                Ok(copied) => {
                    self.previous_charset = copied;
                },
                Err(rejection) => return Err(rejection),
            }
        }
        if !repeated {
            self.previous = Some(parsed.essence);
        }
        self.selected = Some(parsed.essence);
        self.selected_charset = selected_charset;
        Ok(())
    }
}

/// Only a charset that was named can be inherited.
proof fn inherited_was_named(value: Seq<u8>, index: int)
    requires
        0 <= index <= value.len(),
        selection(value, index).previous_charset is Some,
    ensures
        charset_named_before(value, index),
    decreases index,
{
    if index > 0 {
        if selection(value, index - 1).previous_charset is Some {
            inherited_was_named(value, index - 1);
        } else {
            candidate_is_named(value.subrange(candidate_start(value, index - 1), index - 1));
        }
    }
}

/// A charset that was named before was named later, too.
proof fn named_stays(value: Seq<u8>, index: int, later: int)
    requires
        charset_named_before(value, index),
        index <= later,
    ensures
        charset_named_before(value, later),
    decreases later - index,
{
    if index < later {
        named_stays(value, index, later - 1);
    }
}

/// A candidate starts inside the value.
proof fn candidate_start_is_inside(value: Seq<u8>, index: int)
    requires
        0 <= index,
    ensures
        0 <= candidate_start(value, index) <= index,
    decreases index,
{
    if index > 0 {
        candidate_start_is_inside(value, index - 1);
    }
}

/// Selects a media type and charset from a comma-separated value. Memory is
/// only needed for charset parameters.
pub fn extract_mime_type<'a>(value: &'a [u8]) -> (result: Result<
    Option<ParsedMime<'a>>,
    StyleFetchRejection,
>)
    ensures
        match result {
            Ok(Some(extracted)) => extracted_mime(value@) == Some(extracted.model()),
            Ok(None) => extracted_mime(value@) is None,
            Err(rejection) => rejection == StyleFetchRejection::AllocationFailed && charset_named(
                value@,
            ),
        },
{
    let mut state: MimeExtractionState<'a> = MimeExtractionState {
        selected: None,
        selected_charset: None,
        previous: None,
        previous_charset: None,
    };
    let mut quoted_part: bool = false;
    let mut start: usize = 0;
    let mut index: usize = 0;
    while index < value.len()
        invariant
            index <= value@.len(),
            start <= index,
            start == candidate_start(value@, index as int),
            quoted_part == in_quotes(value@, index as int),
            state.model() == selection(value@, index as int),
        decreases value@.len() - index,
    {
        let byte: u8 = value[index];
        if byte == QUOTE && (index == 0 || value[index - 1] != BACKSLASH) {
            quoted_part = !quoted_part;
        } else if byte == COMMA && !quoted_part {
            let candidate: &'a [u8] = &value[start..index];
            match state.process(candidate) {
                Ok(_) => {},
                Err(rejection) => {
                    proof {
                        if !names_charset(candidate@) {
                            inherited_was_named(value@, index as int);
                        }
                        named_stays(value@, index + 1, value@.len() as int);
                    }
                    return Err(rejection);
                },
            }
            start = index + 1;
        }
        index += 1;
    }
    if start < value.len() {
        let candidate: &'a [u8] = &value[start..value.len()];
        match state.process(candidate) {
            Ok(_) => {},
            Err(rejection) => {
                proof {
                    if !names_charset(candidate@) {
                        inherited_was_named(value@, index as int);
                    }
                }
                return Err(rejection);
            },
        }
    }
    match state.selected {
        Some(essence) => Ok(Some(ParsedMime { essence, charset: state.selected_charset })),
        None => Ok(None),
    }
}

} // verus!
