//! Lenient selection of a media type and charset, for values that name no
//! media type by the strict rules.

use vstd::prelude::*;

use crate::bytes::{
    eq_ignore_ascii_case, find_in, find_outside, same_bytes, try_copy, ByteClass, BACKSLASH,
    COMMA, QUOTE, SEMICOLON, SLASH,
};
use crate::mime::extract_mime_type;
use crate::style_fetch::StyleFetchRejection;

verus! {

/// Index of the quote that closes a string whose content starts at `from`, or
/// the length.
pub open spec fn string_end(value: Seq<u8>, from: int) -> int
    decreases value.len() + 2 - from,
{
    if from >= value.len() {
        value.len() as int
    } else if value[from] == QUOTE {
        from
    } else if value[from] == BACKSLASH {
        string_end(value, from + 2)
    } else {
        string_end(value, from + 1)
    }
}

/// A string ends inside the value.
pub proof fn string_end_is_inside(value: Seq<u8>, from: int)
    requires
        0 <= from,
    ensures
        string_end(value, from) <= value.len(),
        from <= value.len() ==> from <= string_end(value, from),
    decreases value.len() + 2 - from,
{
    if from < value.len() && value[from] != QUOTE {
        if value[from] == BACKSLASH {
            string_end_is_inside(value, from + 2);
        } else {
            string_end_is_inside(value, from + 1);
        }
    }
}

/// Index of the first delimiter outside strings at or after `from`, or the
/// length.
pub open spec fn delimiter_at(value: Seq<u8>, from: int, delimiter: u8) -> int
    decreases value.len() + 2 - from,
{
    if from < 0 || from >= value.len() {
        value.len() as int
    } else if value[from] == delimiter {
        from
    } else if value[from] == QUOTE {
        proof {
            string_end_is_inside(value, from + 1);
        }
        delimiter_at(value, string_end(value, from + 1) + 1, delimiter)
    } else {
        delimiter_at(value, from + 1, delimiter)
    }
}

/// What `delimiter_at` finds is a delimiter, or the length.
pub proof fn delimiter_at_is_delimiter(value: Seq<u8>, from: int, delimiter: u8)
    requires
        0 <= from,
    ensures
        delimiter_at(value, from, delimiter) <= value.len(),
        from <= value.len() ==> from <= delimiter_at(value, from, delimiter),
        delimiter_at(value, from, delimiter) < value.len() ==> value[delimiter_at(
            value,
            from,
            delimiter,
        )] == delimiter,
    decreases value.len() + 2 - from,
{
    if from < value.len() && value[from] != delimiter {
        if value[from] == QUOTE {
            string_end_is_inside(value, from + 1);
            delimiter_at_is_delimiter(value, string_end(value, from + 1) + 1, delimiter);
        } else {
            delimiter_at_is_delimiter(value, from + 1, delimiter);
        }
    }
}

/// Finds the quote that closes a string whose opening quote is at `quote_start`.
pub fn legacy_find_string_end(value: &[u8], quote_start: usize) -> (end: usize)
    requires
        quote_start < value@.len(),
    ensures
        end == string_end(value@, quote_start + 1),
        quote_start < end <= value@.len(),
{
    let len: usize = value.len();
    let mut position: usize = quote_start + 1;
    proof {
        string_end_is_inside(value@, quote_start + 1);
    }
    while position < len
        invariant
            len == value@.len(),
            string_end(value@, position as int) == string_end(value@, quote_start + 1),
        ensures
            string_end(value@, position as int) == string_end(value@, quote_start + 1),
            position >= len || value@[position as int] == QUOTE,
        decreases len + 2 - position,
    {
        if value[position] == QUOTE {
            break ;
        }
        if value[position] == BACKSLASH {
            proof {
                if position + 2 >= len {
                    assert(string_end(value@, position + 2) == len);
                }
            }
            position = position.saturating_add(2);
        } else {
            position += 1;
        }
    }
    if position < len {
        position
    } else {
        len
    }
}

/// Finds the first delimiter outside strings at or after `start`.
pub fn legacy_find_media_delimiter(value: &[u8], start: usize, delimiter: u8) -> (at: usize)
    requires
        start <= value@.len(),
    ensures
        at == delimiter_at(value@, start as int, delimiter),
        start <= at <= value@.len(),
        at < value@.len() ==> value@[at as int] == delimiter,
{
    let len: usize = value.len();
    let mut position: usize = start;
    proof {
        delimiter_at_is_delimiter(value@, start as int, delimiter);
    }
    while position < len
        invariant
            len == value@.len(),
            position <= len,
            delimiter_at(value@, position as int, delimiter) == delimiter_at(
                value@,
                start as int,
                delimiter,
            ),
        ensures
            position <= len,
            delimiter_at(value@, position as int, delimiter) == delimiter_at(
                value@,
                start as int,
                delimiter,
            ),
            position == len || value@[position as int] == delimiter,
        decreases len - position,
    {
        if value[position] == delimiter {
            break ;
        }
        if value[position] == QUOTE {
            let quote_end: usize = legacy_find_string_end(value, position);
            if quote_end == len {
                assert(delimiter_at(value@, len + 1, delimiter) == len);
                position = len;
            } else {
                position = quote_end + 1;
            }
        } else {
            position += 1;
        }
    }
    position
}

/// Optional whitespace as a class.
pub open spec fn blank() -> ByteClass {
    ByteClass::OptionalWhitespace
}

/// Where the charset of a parameter starts that begins at `from`, if the
/// parameter names one.
pub open spec fn charset_at(value: Seq<u8>, from: int) -> Option<int> {
    let name = crate::bytes::first_outside(value, from, blank());
    let end = name + crate::bytes::text("charset="@).len();
    if end <= value.len() && crate::bytes::same_word(
        value.subrange(name, end),
        crate::bytes::text("charset="@),
    ) {
        Some(end)
    } else {
        None
    }
}

/// Start and end of the last charset among the parameters from `from` on, or
/// `found` where none names one.
pub open spec fn last_charset(value: Seq<u8>, from: int, found: Option<(int, int)>) -> Option<
    (int, int),
>
    decreases value.len() + 2 - from,
{
    if from < 0 || from > value.len() {
        found
    } else {
        let end = delimiter_at(value, from, SEMICOLON);
        proof {
            delimiter_at_is_delimiter(value, from, SEMICOLON);
        }
        let latest = match charset_at(value, from) {
            Some(start) => Some((start, end)),
            None => found,
        };
        if end >= value.len() {
            latest
        } else {
            last_charset(value, end + 1, latest)
        }
    }
}

/// Content of a string, without the backslashes that quote other bytes.
pub open spec fn unescaped(content: Seq<u8>) -> Seq<u8>
    decreases content.len(),
{
    if content.len() == 0 {
        content
    } else if content[0] == BACKSLASH && content.len() > 1 {
        seq![content[1]] + unescaped(content.subrange(2, content.len() as int))
    } else {
        seq![content[0]] + unescaped(content.subrange(1, content.len() as int))
    }
}

/// Text of the charset that lies between `start` and `limit`.
pub open spec fn charset_text(value: Seq<u8>, start: int, limit: int) -> Seq<u8> {
    let begin = crate::bytes::first_outside(value, start, blank());
    if begin < value.len() && value[begin] == QUOTE {
        let end = string_end(value, begin + 1);
        unescaped(
            value.subrange(
                begin + 1,
                if end < limit {
                    end
                } else {
                    limit
                },
            ),
        )
    } else {
        value.subrange(
            begin,
            crate::bytes::first_in(value, begin, ByteClass::OptionalWhitespaceOr(SEMICOLON)),
        )
    }
}

/// Charset of a value whose media type ends at `type_end`.
pub open spec fn legacy_charset(value: Seq<u8>, type_end: int) -> Option<Seq<u8>> {
    let parameters = crate::bytes::first_in(value, type_end, ByteClass::Exactly(SEMICOLON));
    if parameters >= value.len() {
        None
    } else {
        match last_charset(value, parameters + 1, None) {
            Some((start, limit)) => Some(charset_text(value, start, limit)),
            None => None,
        }
    }
}

/// A charset starts before the end of its parameter.
proof fn charset_at_is_inside(value: Seq<u8>, from: int)
    requires
        0 <= from <= value.len(),
    ensures
        crate::bytes::first_outside(value, from, blank()) <= delimiter_at(value, from, SEMICOLON),
        charset_at(value, from) matches Some(start) ==> from <= start <= delimiter_at(
            value,
            from,
            SEMICOLON,
        ),
{
    let name = crate::bytes::first_outside(value, from, blank());
    let end = delimiter_at(value, from, SEMICOLON);
    let word = crate::bytes::text("charset="@);
    crate::bytes::first_outside_is_first(value, from, blank());
    delimiter_at_is_delimiter(value, from, SEMICOLON);
    if name > end {
        assert(blank().has(value[end]));
    }
    if let Some(start) = charset_at(value, from) {
        if start > end {
            let part = value.subrange(name, start);
            let i = end - name;
            assert(part[i] == SEMICOLON);
            assert(crate::bytes::lowered(part)[i] == crate::bytes::lowered(word)[i]);
            charset_word_has_no_semicolon(i);
        }
    }
}

/// The name of a charset parameter holds no semicolon.
proof fn charset_word_has_no_semicolon(i: int)
    requires
        0 <= i < crate::bytes::text("charset="@).len(),
    ensures
        crate::bytes::lower(crate::bytes::text("charset="@)[i]) != SEMICOLON,
{
    reveal_strlit("charset=");
    assert("charset=".is_ascii());
    vstd::utf8::is_ascii_chars_encode_utf8("charset="@);
}

/// Finds the charset of a value whose media type ends at `type_end`.
pub fn legacy_charset_parameter(value: &[u8], type_end: usize) -> (result: Result<
    Option<Vec<u8>>,
    StyleFetchRejection,
>)
    requires
        type_end <= value@.len(),
    ensures
        match result {
            Ok(charset) => crate::mime::optional_bytes(charset) == legacy_charset(
                value@,
                type_end as int,
            ),
            Err(rejection) => rejection == StyleFetchRejection::AllocationFailed && (legacy_charset(
                value@,
                type_end as int,
            ) matches Some(charset) && charset.len() > 0),
        },
{
    let len: usize = value.len();
    let parameters: usize = find_in(value, type_end, ByteClass::Exactly(SEMICOLON));
    if parameters == len {
        return Ok(None);
    }
    let name: &[u8] = "charset=".as_bytes();
    let ghost wanted = last_charset(value@, parameters + 1, None);
    let mut current: usize = parameters + 1;
    let mut found: bool = false;
    let mut start: usize = 0;
    let mut limit: usize = 0;
    let mut done: bool = false;
    while !done
        invariant
            len == value@.len(),
            name@ == crate::bytes::text("charset="@),
            current <= len,
            found ==> start <= limit <= len && (limit < len ==> value@[limit as int] == SEMICOLON),
            !done ==> wanted == last_charset(
                value@,
                current as int,
                if found {
                    Some((start as int, limit as int))
                } else {
                    None
                },
            ),
            done ==> wanted == (if found {
                Some((start as int, limit as int))
            } else {
                None
            }),
        decreases
            len - current,
            if done {
                0int
            } else {
                1int
            },
    {
        let end: usize = legacy_find_media_delimiter(value, current, SEMICOLON);
        let name_start: usize = find_outside(value, current, ByteClass::OptionalWhitespace);
        proof {
            charset_at_is_inside(value@, current as int);
        }
        if name.len() <= len - name_start && eq_ignore_ascii_case(
            &value[name_start..name_start + name.len()],
            name,
        ) {
            found = true;
            start = name_start + name.len();
            limit = end;
        }
        if end == len {
            done = true;
        } else {
            current = end + 1;
        }
    }
    if !found {
        return Ok(None);
    }
    let begin: usize = find_outside(value, start, ByteClass::OptionalWhitespace);
    proof {
        crate::bytes::first_outside_is_first(value@, start as int, blank());
        if begin > limit {
            assert(blank().has(value@[limit as int]));
        }
    }
    if begin < len && value[begin] == QUOTE {
        let string: usize = legacy_find_string_end(value, begin);
        let end: usize = if string < limit {
            string
        } else {
            limit
        };
        return unescape(&value[begin + 1..end]);
    }
    let end: usize = find_in(value, begin, ByteClass::OptionalWhitespaceOr(SEMICOLON));
    match try_copy(&value[begin..end]) {
        Some(copied) => Ok(Some(copied)),
        None => Err(StyleFetchRejection::AllocationFailed),
    }
}

/// Copies a string without the backslashes that quote other bytes; no bytes
/// need no memory.
fn unescape(content: &[u8]) -> (result: Result<Option<Vec<u8>>, StyleFetchRejection>)
    ensures
        match result {
            Ok(copied) => crate::mime::optional_bytes(copied) == Some(unescaped(content@)),
            Err(rejection) => rejection == StyleFetchRejection::AllocationFailed && unescaped(
                content@,
            ).len() > 0,
        },
{
    let len: usize = content.len();
    let mut copied: Vec<u8> = Vec::new();
    if len > 0 && copied.try_reserve(len).is_err() {
        return Err(StyleFetchRejection::AllocationFailed);
    }
    let mut position: usize = 0;
    assert(content@.subrange(0, len as int) =~= content@);
    assert(copied@ + unescaped(content@) =~= unescaped(content@));
    while position < len
        invariant
            len == content@.len(),
            position <= len,
            copied@ + unescaped(content@.subrange(position as int, len as int)) == unescaped(
                content@,
            ),
        decreases len - position,
    {
        let ghost rest = content@.subrange(position as int, len as int);
        let ghost before = copied@;
        if content[position] == BACKSLASH && position + 1 < len {
            position += 1;
            assert(content@.subrange(position + 1, len as int) =~= rest.subrange(
                2,
                rest.len() as int,
            ));
        } else {
            assert(content@.subrange(position + 1, len as int) =~= rest.subrange(
                1,
                rest.len() as int,
            ));
        }
        let byte: u8 = content[position];
        copied.push(byte);
        position += 1;
        let ghost left = content@.subrange(position as int, len as int);
        assert(unescaped(rest) =~= seq![byte] + unescaped(left));
        assert(before + unescaped(rest) =~= copied@ + unescaped(left));
    }
    assert(copied@ + Seq::<u8>::empty() =~= copied@);
    Ok(Some(copied))
}

/// What was selected so far, in specifications.
pub struct LegacyModel {
    /// Selected media type.
    pub media_type: Option<Seq<u8>>,
    /// Selected charset.
    pub charset: Option<Seq<u8>>,
    /// Whether a charset was seen.
    pub had_charset: bool,
}

impl LegacyModel {
    /// Nothing was selected yet.
    pub open spec fn empty() -> Self {
        LegacyModel { media_type: None, charset: None, had_charset: false }
    }

    /// What is selected after one more part of a value.
    pub open spec fn after(self, part: Seq<u8>) -> Self {
        let type_start = crate::bytes::first_outside(part, 0, blank());
        let type_end = crate::bytes::first_in(
            part,
            type_start,
            ByteClass::OptionalWhitespaceOr(SEMICOLON),
        );
        let media_type = part.subrange(type_start, type_end);
        if media_type.len() == 0 || !media_type.contains(SLASH) || media_type
            == crate::bytes::text("*/*"@) {
            self
        } else {
            let charset = legacy_charset(part, type_end);
            let repeated = self.media_type matches Some(previous) && crate::bytes::same_word(
                previous,
                media_type,
            );
            let decides = (!repeated && self.had_charset) || charset is Some;
            LegacyModel {
                media_type: if repeated {
                    self.media_type
                } else {
                    Some(media_type)
                },
                charset: if !decides {
                    self.charset
                } else if charset is Some {
                    charset
                } else {
                    Some(Seq::empty())
                },
                had_charset: self.had_charset || decides,
            }
        }
    }
}

/// What the parts of a value from `start` on select.
pub open spec fn legacy_selection(value: Seq<u8>, start: int, state: LegacyModel) -> LegacyModel
    decreases value.len() + 1 - start,
{
    if start < 0 || start > value.len() {
        state
    } else {
        let end = delimiter_at(value, start, COMMA);
        proof {
            delimiter_at_is_delimiter(value, start, COMMA);
        }
        let next = state.after(value.subrange(start, end));
        if end + 1 >= value.len() {
            next
        } else {
            legacy_selection(value, end + 1, next)
        }
    }
}

/// Whether a part of a value selects a media type with a charset of some bytes.
pub open spec fn names_legacy_charset(part: Seq<u8>) -> bool {
    let type_start = crate::bytes::first_outside(part, 0, blank());
    let type_end = crate::bytes::first_in(
        part,
        type_start,
        ByteClass::OptionalWhitespaceOr(SEMICOLON),
    );
    let media_type = part.subrange(type_start, type_end);
    &&& media_type.contains(SLASH) && media_type != crate::bytes::text("*/*"@)
    &&& legacy_charset(part, type_end) matches Some(charset)
    &&& charset.len() > 0
}

/// Whether a part of a value from `start` on selects a media type with a charset
/// of some bytes.
pub open spec fn legacy_charset_named(value: Seq<u8>, start: int) -> bool
    decreases value.len() + 1 - start,
{
    if start < 0 || start > value.len() {
        false
    } else {
        let end = delimiter_at(value, start, COMMA);
        proof {
            delimiter_at_is_delimiter(value, start, COMMA);
        }
        names_legacy_charset(value.subrange(start, end)) || (end + 1 < value.len()
            && legacy_charset_named(value, end + 1))
    }
}

/// Whether a response is a stylesheet by its media type, and its charset, in
/// specifications.
pub struct ResponseMimeModel {
    /// Whether the media type is `text/css`.
    pub is_css: bool,
    /// Selected charset.
    pub charset: Option<Seq<u8>>,
}

/// What a value selects by the lenient rules.
pub open spec fn legacy_mime(value: Seq<u8>) -> Option<ResponseMimeModel> {
    let selected = legacy_selection(value, 0, LegacyModel::empty());
    match selected.media_type {
        Some(media_type) => Some(
            ResponseMimeModel {
                is_css: crate::bytes::same_word(media_type, crate::bytes::text("text/css"@)),
                charset: selected.charset,
            },
        ),
        None => None,
    }
}

/// What a response selects: the merged value by the strict rules, or else its
/// last field by the lenient ones.
pub open spec fn response_mime(merged: Seq<u8>, latest: Seq<u8>) -> Option<ResponseMimeModel> {
    match crate::mime::extracted_mime(merged) {
        Some(mime) => Some(
            ResponseMimeModel { is_css: mime.essence.is_css(), charset: mime.charset },
        ),
        None => legacy_mime(latest),
    }
}

/// The last charset lies inside its parameter.
proof fn last_charset_is_inside(value: Seq<u8>, from: int, found: Option<(int, int)>)
    requires
        0 <= from,
        found matches Some((start, limit)) ==> 0 <= start <= limit <= value.len() && (limit
            < value.len() ==> value[limit] == SEMICOLON),
    ensures
        last_charset(value, from, found) matches Some((start, limit)) ==> 0 <= start <= limit
            <= value.len() && (limit < value.len() ==> value[limit] == SEMICOLON),
    decreases value.len() + 2 - from,
{
    if from <= value.len() {
        let end = delimiter_at(value, from, SEMICOLON);
        delimiter_at_is_delimiter(value, from, SEMICOLON);
        charset_at_is_inside(value, from);
        if end < value.len() {
            let latest = match charset_at(value, from) {
                Some(start) => Some((start, end)),
                None => found,
            };
            last_charset_is_inside(value, end + 1, latest);
        }
    }
}

/// Removing backslashes does not lengthen a string.
proof fn unescaped_is_part(content: Seq<u8>)
    ensures
        unescaped(content).len() <= content.len(),
    decreases content.len(),
{
    if content.len() > 0 {
        if content[0] == BACKSLASH && content.len() > 1 {
            unescaped_is_part(content.subrange(2, content.len() as int));
        } else {
            unescaped_is_part(content.subrange(1, content.len() as int));
        }
    }
}

/// The charset of a part is not longer than the part.
proof fn legacy_charset_is_part(part: Seq<u8>, type_end: int)
    requires
        0 <= type_end <= part.len(),
    ensures
        legacy_charset(part, type_end) matches Some(charset) ==> charset.len() <= part.len(),
{
    let parameters = crate::bytes::first_in(part, type_end, ByteClass::Exactly(SEMICOLON));
    crate::bytes::first_in_is_first(part, type_end, ByteClass::Exactly(SEMICOLON));
    if parameters < part.len() {
        last_charset_is_inside(part, parameters + 1, None);
        if let Some((start, limit)) = last_charset(part, parameters + 1, None) {
            let begin = crate::bytes::first_outside(part, start, blank());
            crate::bytes::first_outside_is_first(part, start, blank());
            if begin > limit {
                assert(blank().has(part[limit]));
            }
            if begin < part.len() && part[begin] == QUOTE {
                let end = string_end(part, begin + 1);
                string_end_is_inside(part, begin + 1);
                unescaped_is_part(
                    part.subrange(
                        begin + 1,
                        if end < limit {
                            end
                        } else {
                            limit
                        },
                    ),
                );
            } else {
                crate::bytes::first_in_is_first(
                    part,
                    begin,
                    ByteClass::OptionalWhitespaceOr(SEMICOLON),
                );
            }
        }
    }
}

/// The charset that parts select is not longer than their value.
proof fn legacy_selection_is_part(value: Seq<u8>, start: int, state: LegacyModel)
    requires
        state.charset matches Some(charset) ==> charset.len() <= value.len(),
    ensures
        legacy_selection(value, start, state).charset matches Some(charset) ==> charset.len()
            <= value.len(),
    decreases value.len() + 1 - start,
{
    if 0 <= start <= value.len() {
        let end = delimiter_at(value, start, COMMA);
        delimiter_at_is_delimiter(value, start, COMMA);
        let part = value.subrange(start, end);
        let type_start = crate::bytes::first_outside(part, 0, blank());
        crate::bytes::first_outside_is_first(part, 0, blank());
        crate::bytes::first_in_is_first(
            part,
            type_start,
            ByteClass::OptionalWhitespaceOr(SEMICOLON),
        );
        legacy_charset_is_part(
            part,
            crate::bytes::first_in(part, type_start, ByteClass::OptionalWhitespaceOr(SEMICOLON)),
        );
        if end + 1 < value.len() {
            legacy_selection_is_part(value, end + 1, state.after(part));
        }
    }
}

/// The charset that a response selects is not longer than the value that names
/// it.
pub proof fn response_charset_is_part(merged: Seq<u8>, latest: Seq<u8>)
    requires
        latest.len() <= merged.len(),
    ensures
        response_mime(merged, latest) matches Some(mime) ==> (mime.charset matches Some(charset)
            ==> charset.len() <= merged.len()),
{
    crate::mime::extracted_charset_is_part(merged);
    legacy_selection_is_part(latest, 0, LegacyModel::empty());
}

/// What was selected so far.
struct LegacyMimeState<'a> {
    media_type: Option<&'a [u8]>,
    charset: Option<Vec<u8>>,
    had_charset: bool,
}

impl<'a> LegacyMimeState<'a> {
    spec fn model(self) -> LegacyModel {
        LegacyModel {
            media_type: match self.media_type {
                Some(media_type) => Some(media_type@),
                None => None,
            },
            charset: crate::mime::optional_bytes(self.charset),
            had_charset: self.had_charset,
        }
    }

    /// Takes one more part into account.
    fn process(&mut self, part: &'a [u8]) -> (result: Result<(), StyleFetchRejection>)
        ensures
            match result {
                Ok(_) => final(self).model() == old(self).model().after(part@),
                Err(rejection) => rejection == StyleFetchRejection::AllocationFailed
                    && names_legacy_charset(part@),
            },
    {
        let type_start: usize = find_outside(part, 0, ByteClass::OptionalWhitespace);
        let type_end: usize = find_in(
            part,
            type_start,
            ByteClass::OptionalWhitespaceOr(SEMICOLON),
        );
        let media_type: &'a [u8] = &part[type_start..type_end];
        if media_type.len() == 0 {
            return Ok(());
        }
        let slash: usize = find_in(media_type, 0, ByteClass::Exactly(SLASH));
        proof {
            crate::bytes::first_in_is_first(media_type@, 0, ByteClass::Exactly(SLASH));
            if slash < media_type@.len() {
                assert(media_type@[slash as int] == SLASH);
            }
        }
        if slash == media_type.len() || same_bytes(media_type, "*/*".as_bytes()) {
            return Ok(());
        }
        let charset: Option<Vec<u8>> = match legacy_charset_parameter(part, type_end) {
            Ok(charset) => charset,
            Err(rejection) => return Err(rejection),
        };
        let repeated: bool = match self.media_type {
            Some(previous) => eq_ignore_ascii_case(previous, media_type),
            None => false,
        };
        if !repeated {
            self.media_type = Some(media_type);
        }
        let present: bool = charset.is_some();
        if (!repeated && self.had_charset) || present {
            self.had_charset = true;
            self.charset = match charset {
                Some(charset) => Some(charset),
                None => {
                    let nothing: Vec<u8> = Vec::new();
                    assert(nothing@ =~= Seq::<u8>::empty());
                    Some(nothing)
                },
            };
        }
        Ok(())
    }
}

/// Whether a response is a stylesheet by its media type, and its charset.
#[derive(Debug)]
pub struct ExtractedResponseMime {
    /// Whether the media type is `text/css`.
    pub is_css: bool,
    /// Selected charset.
    pub charset: Option<Vec<u8>>,
}

impl ExtractedResponseMime {
    /// Media type and charset, in specifications.
    pub open spec fn model(self) -> ResponseMimeModel {
        ResponseMimeModel {
            is_css: self.is_css,
            charset: crate::mime::optional_bytes(self.charset),
        }
    }
}

/// Selects a media type and charset by the lenient rules. Memory is only needed
/// for a charset parameter.
pub fn extract_legacy_mime_type(value: &[u8]) -> (result: Result<
    Option<ExtractedResponseMime>,
    StyleFetchRejection,
>)
    ensures
        match result {
            Ok(Some(extracted)) => legacy_mime(value@) == Some(extracted.model()),
            Ok(None) => legacy_mime(value@) is None,
            Err(rejection) => rejection == StyleFetchRejection::AllocationFailed
                && legacy_charset_named(value@, 0),
        },
{
    let len: usize = value.len();
    let mut state = LegacyMimeState { media_type: None, charset: None, had_charset: false };
    let mut start: usize = 0;
    let mut done: bool = false;
    while !done
        invariant
            len == value@.len(),
            start <= len,
            !done ==> legacy_selection(value@, 0, LegacyModel::empty()) == legacy_selection(
                value@,
                start as int,
                state.model(),
            ),
            done ==> legacy_selection(value@, 0, LegacyModel::empty()) == state.model(),
            !done && legacy_charset_named(value@, start as int) ==> legacy_charset_named(value@, 0),
        decreases
            len - start,
            if done {
                0int
            } else {
                1int
            },
    {
        let end: usize = legacy_find_media_delimiter(value, start, COMMA);
        let part: &[u8] = &value[start..end];
        match state.process(part) {
            Ok(_) => {},
            Err(rejection) => return Err(rejection),
        }
        if len - end <= 1 {
            done = true;
        } else {
            start = end + 1;
        }
    }
    match state.media_type {
        Some(media_type) => Ok(
            Some(
                ExtractedResponseMime {
                    is_css: eq_ignore_ascii_case(media_type, "text/css".as_bytes()),
                    charset: state.charset,
                },
            ),
        ),
        None => Ok(None),
    }
}

/// Selects the media type and charset of a response. Memory is only needed for
/// charset parameters.
pub fn extract_response_mime(merged: &[u8], latest: &[u8]) -> (result: Result<
    Option<ExtractedResponseMime>,
    StyleFetchRejection,
>)
    ensures
        match result {
            Ok(Some(extracted)) => response_mime(merged@, latest@) == Some(extracted.model()),
            Ok(None) => response_mime(merged@, latest@) is None,
            Err(rejection) => rejection == StyleFetchRejection::AllocationFailed && (
            crate::mime::charset_named(merged@) || (crate::mime::extracted_mime(merged@) is None
                && legacy_charset_named(latest@, 0))),
        },
{
    match extract_mime_type(merged) {
        Ok(Some(extracted)) => Ok(
            Some(
                ExtractedResponseMime {
                    is_css: extracted.essence.is_css(),
                    charset: extracted.charset,
                },
            ),
        ),
        Ok(None) => extract_legacy_mime_type(latest),
        Err(rejection) => Err(rejection),
    }
}

} // verus!
