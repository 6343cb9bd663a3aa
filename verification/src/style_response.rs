//! Admission of the response headers that a stylesheet brings.

use vstd::prelude::*;

use crate::bytes::{eq_ignore_ascii_case, find_in, same_bytes, trim, ByteClass, COMMA};
use crate::headers::{FieldModel, Headers};
use crate::legacy_mime::extract_response_mime;
use crate::style_fetch::{
    StyleFetchLimit, StyleFetchMime, StyleFetchRejection, MAX_STYLE_FETCH_CONTENT_TYPE_BYTES,
    MAX_STYLE_FETCH_WIRE_HEADER_BYTES,
};
use crate::text::decode_text;

verus! {

/// Retained response headers, in specifications.
pub struct ResponseHeadersModel {
    /// Comma-merged `Content-Type` values.
    pub content_type: Option<Seq<u8>>,
    /// Selected charset.
    pub charset: Option<Seq<u8>>,
    /// Admitted classification.
    pub mime: StyleFetchMime,
    /// Whether sniffing was forbidden.
    pub nosniff: bool,
}

impl ResponseHeadersModel {
    /// Bytes that are retained.
    pub open spec fn retained(self) -> nat {
        optional_len(self.content_type) + optional_len(self.charset)
    }
}

/// Length of bytes that may be absent.
pub open spec fn optional_len(bytes: Option<Seq<u8>>) -> nat {
    match bytes {
        Some(present) => present.len(),
        None => 0,
    }
}

/// Response headers that a later decoder and parser need.
pub struct StyleFetchResponseHeaders {
    content_type: Option<Vec<u8>>,
    charset: Option<Vec<u8>>,
    mime: StyleFetchMime,
    nosniff: bool,
}

impl View for StyleFetchResponseHeaders {
    type V = ResponseHeadersModel;

    closed spec fn view(&self) -> ResponseHeadersModel {
        ResponseHeadersModel {
            content_type: crate::mime::optional_bytes(self.content_type),
            charset: crate::mime::optional_bytes(self.charset),
            mime: self.mime,
            nosniff: self.nosniff,
        }
    }
}

/// A slice that may be absent.
pub open spec fn optional_slice(slice: Option<&[u8]>) -> Option<Seq<u8>> {
    match slice {
        Some(present) => Some(present@),
        None => None,
    }
}

impl StyleFetchResponseHeaders {
    /// Comma-merged `Content-Type` field bytes, when any were present.
    pub fn content_type(&self) -> (content_type: Option<&[u8]>)
        ensures
            optional_slice(content_type) == self@.content_type,
    {
        match &self.content_type {
            Some(bytes) => Some(bytes.as_slice()),
            None => None,
        }
    }

    /// Charset selected by MIME extraction, when one was selected.
    pub fn charset(&self) -> (charset: Option<&[u8]>)
        ensures
            optional_slice(charset) == self@.charset,
    {
        match &self.charset {
            Some(bytes) => Some(bytes.as_slice()),
            None => None,
        }
    }

    /// Admitted MIME classification.
    pub fn mime(&self) -> (mime: StyleFetchMime)
        ensures
            mime == self@.mime,
    {
        self.mime
    }

    /// Whether the first comma-delimited `X-Content-Type-Options` value was
    /// `nosniff`.
    pub fn nosniff(&self) -> (nosniff: bool)
        ensures
            nosniff == self@.nosniff,
    {
        self.nosniff
    }

    /// Bytes retained for a later decoder and parser, up to the greatest count.
    pub fn retained_bytes(&self) -> (bytes: usize)
        ensures
            bytes == if self@.retained() <= usize::MAX {
                self@.retained()
            } else {
                usize::MAX as nat
            },
    {
        let content_type: usize = match &self.content_type {
            Some(bytes) => bytes.len(),
            None => 0,
        };
        let charset: usize = match &self.charset {
            Some(bytes) => bytes.len(),
            None => 0,
        };
        content_type.saturating_add(charset)
    }

    /// Bytes retained for a later decoder and parser.
    pub fn checked_retained_bytes(&self) -> (result: Result<usize, StyleFetchRejection>)
        ensures
            match result {
                Ok(bytes) => bytes == self@.retained(),
                Err(rejection) => rejection == StyleFetchRejection::CounterOverflow
                    && self@.retained() > usize::MAX,
            },
    {
        let content_type: usize = match &self.content_type {
            Some(bytes) => bytes.len(),
            None => 0,
        };
        let charset: usize = match &self.charset {
            Some(bytes) => bytes.len(),
            None => 0,
        };
        match content_type.checked_add(charset) {
            Some(bytes) => Ok(bytes),
            None => Err(StyleFetchRejection::CounterOverflow),
        }
    }
}

/// Values joined by commas; values before the first nonempty one leave none.
pub open spec fn joined(values: Seq<Seq<u8>>) -> Seq<u8>
    decreases values.len(),
{
    if values.len() == 0 {
        Seq::empty()
    } else {
        let before = joined(values.drop_last());
        if before.len() == 0 {
            values.last()
        } else {
            before.push(COMMA) + values.last()
        }
    }
}

/// A part is not longer than the whole.
proof fn joined_grows(values: Seq<Seq<u8>>, count: int)
    requires
        0 <= count <= values.len(),
    ensures
        joined(values.take(count)).len() <= joined(values).len(),
    decreases values.len() - count,
{
    if count == values.len() {
        assert(values.take(count) =~= values);
    } else {
        joined_grows(values, count + 1);
        assert(values.take(count + 1).drop_last() =~= values.take(count));
    }
}

/// Length of values with separators of this length between them.
pub open spec fn separated_len(values: Seq<Seq<u8>>, separator: nat) -> nat
    decreases values.len(),
{
    if values.len() == 0 {
        0
    } else if values.len() == 1 {
        values[0].len()
    } else {
        separated_len(values.drop_last(), separator) + separator + values.last().len()
    }
}

/// A part is not longer than the whole.
proof fn separated_len_grows(values: Seq<Seq<u8>>, separator: nat, count: int)
    requires
        0 <= count <= values.len(),
    ensures
        separated_len(values.take(count), separator) <= separated_len(values, separator),
    decreases values.len() - count,
{
    if count == values.len() {
        assert(values.take(count) =~= values);
    } else {
        separated_len_grows(values, separator, count + 1);
        assert(values.take(count + 1).drop_last() =~= values.take(count));
        if count == 0 {
            assert(values.take(0).len() == 0);
        }
    }
}

/// `Content-Type` values of a response.
pub open spec fn content_types(headers: Seq<FieldModel>) -> Seq<Seq<u8>> {
    crate::headers::values_of(headers, crate::bytes::text("content-type"@))
}

/// `X-Content-Type-Options` values of a response.
pub open spec fn content_type_options(headers: Seq<FieldModel>) -> Seq<Seq<u8>> {
    crate::headers::values_of(headers, crate::bytes::text("x-content-type-options"@))
}

/// Whether sniffing is forbidden: the first value of the first field says so.
pub open spec fn forbids_sniffing(options: Seq<Seq<u8>>) -> bool {
    options.len() > 0 && crate::bytes::same_word(
        crate::bytes::trimmed(
            options[0].subrange(
                0,
                crate::bytes::first_in(options[0], 0, ByteClass::Exactly(COMMA)),
            ),
            ByteClass::HttpWhitespace,
        ),
        crate::bytes::text("nosniff"@),
    )
}

/// Outcome of admitting response headers, with whether their media type is
/// unknown.
pub open spec fn admitted_headers(headers: Seq<FieldModel>) -> Result<
    (ResponseHeadersModel, bool),
    StyleFetchRejection,
> {
    let types = content_types(headers);
    let options = content_type_options(headers);
    let merged = joined(types);
    let relevant = merged.len() + separated_len(options, 2);
    let selected = if types.len() == 0 {
        None
    } else {
        crate::legacy_mime::response_mime(merged, types.last())
    };
    let nosniff = forbids_sniffing(options);
    if merged.len() > usize::MAX {
        Err(StyleFetchRejection::CounterOverflow)
    } else if merged.len() > MAX_STYLE_FETCH_CONTENT_TYPE_BYTES {
        Err(StyleFetchRejection::Limit(StyleFetchLimit::ContentTypeBytes))
    } else if relevant > usize::MAX {
        Err(StyleFetchRejection::CounterOverflow)
    } else if relevant > MAX_STYLE_FETCH_WIRE_HEADER_BYTES {
        Err(StyleFetchRejection::Limit(StyleFetchLimit::WireHeaderBytes))
    } else {
        match selected {
            Some(mime) => if mime.is_css {
                Ok(
                    (
                        ResponseHeadersModel {
                            content_type: Some(merged),
                            charset: mime.charset,
                            mime: StyleFetchMime::Css,
                            nosniff,
                        },
                        false,
                    ),
                )
            } else if nosniff {
                Err(StyleFetchRejection::NoSniff)
            } else {
                Err(StyleFetchRejection::MimeNotCss)
            },
            None => if nosniff {
                Err(StyleFetchRejection::NoSniff)
            } else {
                Ok(
                    (
                        ResponseHeadersModel {
                            content_type: if types.len() == 0 {
                                None
                            } else {
                                Some(merged)
                            },
                            charset: None,
                            mime: StyleFetchMime::Unknown,
                            nosniff,
                        },
                        true,
                    ),
                )
            },
        }
    }
}

/// Joins `Content-Type` values by commas.
fn merge_content_type_values(values: &Vec<&[u8]>) -> (result: Result<
    Option<Vec<u8>>,
    StyleFetchRejection,
>)
    ensures
        ({
            let strings = crate::headers::byte_strings(values@);
            match result {
                Ok(Some(merged)) => values@.len() > 0 && merged@ == joined(strings)
                    && merged@.len() <= MAX_STYLE_FETCH_CONTENT_TYPE_BYTES,
                Ok(None) => values@.len() == 0,
                Err(StyleFetchRejection::CounterOverflow) => joined(strings).len() > usize::MAX,
                Err(StyleFetchRejection::Limit(limit)) => limit == StyleFetchLimit::ContentTypeBytes
                    && MAX_STYLE_FETCH_CONTENT_TYPE_BYTES < joined(strings).len() <= usize::MAX,
                Err(rejection) => rejection == StyleFetchRejection::AllocationFailed && 0
                    < joined(strings).len() <= MAX_STYLE_FETCH_CONTENT_TYPE_BYTES,
            }
        }),
{
    let ghost strings = crate::headers::byte_strings(values@);
    let mut length: usize = 0;
    let mut at: usize = 0;
    while at < values.len()
        invariant
            at <= values@.len(),
            strings == crate::headers::byte_strings(values@),
            length == joined(strings.take(at as int)).len(),
        decreases values@.len() - at,
    {
        let added: usize = values[at].len();
        proof {
            assert(strings.take(at + 1).drop_last() =~= strings.take(at as int));
            assert(strings.take(at + 1).last() == strings[at as int]);
            joined_grows(strings, at + 1);
        }
        if length != 0 {
            length = match length.checked_add(1) {
                Some(length) => length,
                None => return Err(StyleFetchRejection::CounterOverflow),
            };
        }
        length = match length.checked_add(added) {
            Some(length) => length,
            None => return Err(StyleFetchRejection::CounterOverflow),
        };
        at += 1;
    }
    assert(strings.take(at as int) =~= strings);
    if values.len() == 0 {
        return Ok(None);
    }
    if length > MAX_STYLE_FETCH_CONTENT_TYPE_BYTES {
        return Err(StyleFetchRejection::Limit(StyleFetchLimit::ContentTypeBytes));
    }
    let mut merged: Vec<u8> = Vec::new();
    if length > 0 && merged.try_reserve(length).is_err() {
        return Err(StyleFetchRejection::AllocationFailed);
    }
    at = 0;
    assert(merged@ =~= joined(strings.take(0)));
    while at < values.len()
        invariant
            at <= values@.len(),
            strings == crate::headers::byte_strings(values@),
            merged@ == joined(strings.take(at as int)),
        decreases values@.len() - at,
    {
        let ghost before = merged@;
        assert(strings.take(at + 1).drop_last() =~= strings.take(at as int));
        assert(strings.take(at + 1).last() == strings[at as int]);
        if merged.len() != 0 {
            merged.push(COMMA);
        }
        let ghost led = merged@;
        merged.extend_from_slice(values[at]);
        assert(merged@ =~= led + strings[at as int]);
        at += 1;
    }
    assert(strings.take(at as int) =~= strings);
    Ok(Some(merged))
}

/// Length of values with separators of this length between them.
fn merged_field_value_len(values: &Vec<&[u8]>, separator: usize) -> (result: Result<
    usize,
    StyleFetchRejection,
>)
    ensures
        ({
            let len = separated_len(crate::headers::byte_strings(values@), separator as nat);
            match result {
                Ok(bytes) => bytes == len,
                Err(rejection) => rejection == StyleFetchRejection::CounterOverflow && len
                    > usize::MAX,
            }
        }),
{
    let ghost strings = crate::headers::byte_strings(values@);
    let mut length: usize = 0;
    let mut at: usize = 0;
    while at < values.len()
        invariant
            at <= values@.len(),
            strings == crate::headers::byte_strings(values@),
            length == separated_len(strings.take(at as int), separator as nat),
        decreases values@.len() - at,
    {
        let added: usize = values[at].len();
        proof {
            assert(strings.take(at + 1).drop_last() =~= strings.take(at as int));
            assert(strings.take(at + 1).last() == strings[at as int]);
            separated_len_grows(strings, separator as nat, at + 1);
        }
        if at != 0 {
            length = match length.checked_add(separator) {
                Some(length) => length,
                None => return Err(StyleFetchRejection::CounterOverflow),
            };
        }
        length = match length.checked_add(added) {
            Some(length) => length,
            None => return Err(StyleFetchRejection::CounterOverflow),
        };
        at += 1;
    }
    assert(strings.take(at as int) =~= strings);
    Ok(length)
}

/// Whether the first value of the first field forbids sniffing.
fn first_xcto_value_is_nosniff(values: &Vec<&[u8]>) -> (nosniff: bool)
    ensures
        nosniff == forbids_sniffing(crate::headers::byte_strings(values@)),
{
    if values.len() == 0 {
        return false;
    }
    let field: &[u8] = values[0];
    let end: usize = find_in(field, 0, ByteClass::Exactly(COMMA));
    eq_ignore_ascii_case(trim(&field[0..end], ByteClass::HttpWhitespace), "nosniff".as_bytes())
}

/// The charset that is retained of a response is not longer than its
/// `Content-Type`, so that what is retained of the headers is at most twice the
/// bound of a `Content-Type`.
pub proof fn retained_headers_are_bounded(headers: Seq<FieldModel>)
    ensures
        admitted_headers(headers) matches Ok((model, _)) ==> {
            &&& model.charset matches Some(charset) ==> {
                &&& model.content_type matches Some(content_type)
                &&& charset.len() <= content_type.len()
            }
            &&& model.retained() <= 2 * MAX_STYLE_FETCH_CONTENT_TYPE_BYTES
            &&& model.retained() <= 8192
        },
{
    let types = content_types(headers);
    if types.len() > 0 {
        crate::legacy_mime::response_charset_is_part(joined(types), types.last());
    }
}

/// Whether memory is asked for while headers are admitted: to hold a
/// `Content-Type` of some bytes within its bound.
pub open spec fn stores_content_type(headers: Seq<FieldModel>) -> bool {
    0 < joined(content_types(headers)).len() <= MAX_STYLE_FETCH_CONTENT_TYPE_BYTES
}

/// No bytes name no charset.
proof fn nothing_names_no_charset(merged: Seq<u8>, latest: Seq<u8>)
    requires
        merged.len() == 0,
        latest.len() == 0,
    ensures
        !crate::mime::charset_named(merged),
        !crate::legacy_mime::legacy_charset_named(latest, 0),
{
    let candidate = merged.subrange(crate::mime::candidate_start(merged, 0), 0);
    let value = crate::bytes::trimmed(candidate, ByteClass::HttpWhitespace);
    crate::bytes::first_outside_is_first(candidate, 0, ByteClass::HttpWhitespace);
    crate::bytes::trimmed_is_part(
        crate::bytes::without_leading(candidate, ByteClass::HttpWhitespace),
        ByteClass::HttpWhitespace,
    );
    assert(value.len() == 0);
    assert(crate::mime::mime_of(candidate) is None);
    crate::legacy_mime::delimiter_at_is_delimiter(latest, 0, COMMA);
    let part = latest.subrange(0, crate::legacy_mime::delimiter_at(latest, 0, COMMA));
    crate::bytes::first_outside_is_first(part, 0, crate::legacy_mime::blank());
    crate::bytes::first_in_is_first(
        part,
        0,
        ByteClass::OptionalWhitespaceOr(crate::bytes::SEMICOLON),
    );
    assert(!crate::legacy_mime::names_legacy_charset(part));
}

/// Admits the headers of a response. Bounds come before memory, which may be
/// missing only for a `Content-Type` within its bound.
pub fn admit_response_headers(headers: &Headers) -> (result: Result<
    (StyleFetchResponseHeaders, bool),
    StyleFetchRejection,
>)
    ensures
        match result {
            Ok((admitted, unknown)) => admitted_headers(headers@) == Ok::<_, StyleFetchRejection>(
                (admitted@, unknown),
            ),
            Err(rejection) => admitted_headers(headers@) == Err::<
                (ResponseHeadersModel, bool),
                _,
            >(rejection) || (rejection == StyleFetchRejection::AllocationFailed
                && stores_content_type(headers@)),
        },
{
    let types: Vec<&[u8]> = headers.values("content-type");
    let options: Vec<&[u8]> = headers.values("x-content-type-options");
    let ghost strings = crate::headers::byte_strings(types@);
    assert(types@.len() > 0 ==> strings.last() == types@.last()@);
    let merged: Option<Vec<u8>> = match merge_content_type_values(&types) {
        Ok(merged) => merged,
        Err(rejection) => return Err(rejection),
    };
    let option_bytes: usize = match merged_field_value_len(&options, 2) {
        Ok(bytes) => bytes,
        Err(rejection) => return Err(rejection),
    };
    let merged_bytes: usize = match &merged {
        Some(merged) => merged.len(),
        None => 0,
    };
    match merged_bytes.checked_add(option_bytes) {
        None => return Err(StyleFetchRejection::CounterOverflow),
        Some(relevant) => {
            if relevant > MAX_STYLE_FETCH_WIRE_HEADER_BYTES {
                return Err(StyleFetchRejection::Limit(StyleFetchLimit::WireHeaderBytes));
            }
        },
    }
    let nosniff: bool = first_xcto_value_is_nosniff(&options);
    let mut charset: Option<Vec<u8>> = None;
    let mut unknown: bool = true;
    if let Some(value) = &merged {
        proof {
            if value@.len() == 0 {
                nothing_names_no_charset(value@, types@[types@.len() - 1]@);
            }
        }
        match extract_response_mime(value.as_slice(), types[types.len() - 1]) {
            Err(rejection) => return Err(rejection),
            Ok(None) => {},
            Ok(Some(extracted)) => {
                if !extracted.is_css {
                    if nosniff {
                        return Err(StyleFetchRejection::NoSniff);
                    }
                    return Err(StyleFetchRejection::MimeNotCss);
                }
                charset = extracted.charset;
                unknown = false;
            },
        }
    }
    if unknown && nosniff {
        return Err(StyleFetchRejection::NoSniff);
    }
    Ok(
        (
            StyleFetchResponseHeaders {
                content_type: merged,
                charset,
                mime: if unknown {
                    StyleFetchMime::Unknown
                } else {
                    StyleFetchMime::Css
                },
                nosniff,
            },
            unknown,
        ),
    )
}

/// `Location` values of a response.
pub open spec fn locations(headers: Seq<FieldModel>) -> Seq<Seq<u8>> {
    crate::headers::values_of(headers, crate::bytes::text("location"@))
}

/// A field value without optional whitespace around it.
pub open spec fn bare(value: Seq<u8>) -> Seq<u8> {
    crate::bytes::trimmed(value, ByteClass::OptionalWhitespace)
}

/// Where a redirect leads: repeated fields must agree, and the value is UTF-8.
pub open spec fn redirect_location(headers: Seq<FieldModel>) -> Result<
    Seq<char>,
    StyleFetchRejection,
> {
    let values = locations(headers);
    if values.len() == 0 {
        Err(StyleFetchRejection::RedirectLocationMissing)
    } else if exists|i: int| 0 <= i < values.len() && bare(#[trigger] values[i]) != bare(values[0]) {
        Err(StyleFetchRejection::RedirectLocationConflict)
    } else {
        match crate::text::utf8_text(bare(values[0])) {
            Some(text) => Ok(text),
            None => Err(StyleFetchRejection::RedirectLocationNonUtf8),
        }
    }
}

/// Finds where a redirect leads.
pub fn single_location<'a>(headers: &'a Headers) -> (result: Result<&'a str, StyleFetchRejection>)
    ensures
        match result {
            Ok(location) => redirect_location(headers@) == Ok::<_, StyleFetchRejection>(location@),
            Err(rejection) => redirect_location(headers@) == Err::<Seq<char>, _>(rejection),
        },
{
    let values: Vec<&'a [u8]> = headers.values("location");
    let ghost strings = crate::headers::byte_strings(values@);
    if values.len() == 0 {
        return Err(StyleFetchRejection::RedirectLocationMissing);
    }
    let first: &'a [u8] = trim(values[0], ByteClass::OptionalWhitespace);
    let mut at: usize = 1;
    while at < values.len()
        invariant
            1 <= at <= values@.len(),
            strings == crate::headers::byte_strings(values@),
            strings == locations(headers@),
            first@ == bare(strings[0]),
            forall|i: int| 0 <= i < at ==> bare(#[trigger] strings[i]) == first@,
        decreases values@.len() - at,
    {
        if !same_bytes(trim(values[at], ByteClass::OptionalWhitespace), first) {
            assert(bare(strings[at as int]) != bare(strings[0]));
            return Err(StyleFetchRejection::RedirectLocationConflict);
        }
        at += 1;
    }
    match decode_text(first) {
        Some(location) => Ok(location),
        None => Err(StyleFetchRejection::RedirectLocationNonUtf8),
    }
}

} // verus!
