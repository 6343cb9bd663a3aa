//! Which responses are taken for stylesheets, and what their media types say.

use vstd::prelude::*;

use crate::bytes::ByteClass;
use crate::headers::FieldModel;
use crate::style_fetch::{StyleFetchLimit, StyleFetchRejection};

verus! {

/// Media type that the headers of a response select.
pub open spec fn selected(headers: Seq<FieldModel>) -> Option<
    crate::legacy_mime::ResponseMimeModel,
> {
    let types = crate::headers::values_of(headers, crate::bytes::text("content-type"@));
    if types.len() == 0 {
        None
    } else {
        crate::legacy_mime::response_mime(crate::style_response::joined(types), types.last())
    }
}

/// Whether the headers that decide are short enough.
pub open spec fn inside_bounds(headers: Seq<FieldModel>) -> bool {
    let types = crate::headers::values_of(headers, crate::bytes::text("content-type"@));
    let options = crate::headers::values_of(
        headers,
        crate::bytes::text("x-content-type-options"@),
    );
    &&& crate::style_response::joined(types).len() <= 4096
    &&& crate::style_response::joined(types).len() + crate::style_response::separated_len(
        options,
        2,
    ) <= 65536
}

/// Whether headers were admitted as those of a stylesheet.
pub open spec fn admitted_as_css(headers: Seq<FieldModel>) -> bool {
    crate::style_response::admitted_headers(headers) matches Ok((admitted, unknown))
        && admitted.mime is Css && !unknown
}

/// A response whose media type is that of a stylesheet is admitted as one,
/// whatever its options say; nothing else is admitted as one.
pub proof fn css_is_admitted(headers: Seq<FieldModel>)
    ensures
        inside_bounds(headers) && (selected(headers) matches Some(mime) && mime.is_css)
            <==> admitted_as_css(headers),
        admitted_as_css(headers) ==> (crate::style_response::admitted_headers(
            headers,
        ) matches Ok((admitted, _)) && admitted.charset == selected(headers)->0.charset),
{
    assert(4 * 1024 == 4096 && 64 * 1024 == 65536);
}

/// Sniffing is refused only where no stylesheet was named: where the options
/// forbid it and the media type is absent or another one. Without such options
/// another media type is refused for itself, and an absent one is left open.
pub proof fn sniffing_matters_without_css(headers: Seq<FieldModel>)
    requires
        inside_bounds(headers),
    ensures
        ({
            let answer = crate::style_response::admitted_headers(headers);
            let forbidden = crate::style_response::forbids_sniffing(
                crate::headers::values_of(
                    headers,
                    crate::bytes::text("x-content-type-options"@),
                ),
            );
            &&& answer matches Err(rejection) ==> rejection is NoSniff || rejection is MimeNotCss
            &&& (answer matches Err(StyleFetchRejection::NoSniff)) <==> forbidden && !(selected(
                headers,
            ) matches Some(mime) && mime.is_css)
            &&& (answer matches Err(StyleFetchRejection::MimeNotCss)) <==> !forbidden && (selected(
                headers,
            ) matches Some(mime) && !mime.is_css)
            &&& answer matches Ok((admitted, _)) ==> admitted.nosniff == forbidden
            &&& (answer matches Ok((_, unknown)) && unknown) <==> !forbidden && selected(headers) is None
            &&& answer matches Ok((admitted, unknown)) ==> unknown == (admitted.mime is Unknown)
                && (unknown ==> admitted.charset is None)
        }),
{
    assert(4 * 1024 == 4096 && 64 * 1024 == 65536);
}

/// Longer headers are refused, and the answer names the bound.
pub proof fn headers_are_bounded(headers: Seq<FieldModel>)
    ensures
        ({
            let types = crate::headers::values_of(headers, crate::bytes::text("content-type"@));
            let merged = crate::style_response::joined(types).len();
            let answer = crate::style_response::admitted_headers(headers);
            &&& 4096 < merged <= usize::MAX ==> answer == Err::<
                (crate::style_response::ResponseHeadersModel, bool),
                _,
            >(StyleFetchRejection::Limit(StyleFetchLimit::ContentTypeBytes))
            &&& answer is Ok ==> inside_bounds(headers)
            &&& answer matches Err(StyleFetchRejection::Limit(limit)) ==> !inside_bounds(headers)
                && (limit is ContentTypeBytes || (limit is WireHeaderBytes && merged <= 4096))
        }),
{
    assert(4 * 1024 == 4096 && 64 * 1024 == 65536);
}

/// An options field takes nothing from headers that were admitted as those of a
/// stylesheet, wherever it stands, as long as the headers stay inside their
/// bounds.
pub proof fn options_take_nothing_from_css(
    before: Seq<FieldModel>,
    after: Seq<FieldModel>,
    options: Seq<u8>,
)
    requires
        admitted_as_css(before + after),
        inside_bounds(
            before + seq![
                FieldModel { name: crate::bytes::text("x-content-type-options"@), value: options },
            ] + after,
        ),
    ensures
        ({
            let more = before + seq![
                FieldModel { name: crate::bytes::text("x-content-type-options"@), value: options },
            ] + after;
            &&& admitted_as_css(more)
            &&& crate::style_response::admitted_headers(
                more,
            )->Ok_0.0.charset == crate::style_response::admitted_headers(
                before + after,
            )->Ok_0.0.charset
            &&& crate::style_response::admitted_headers(
                more,
            )->Ok_0.0.content_type == crate::style_response::admitted_headers(
                before + after,
            )->Ok_0.0.content_type
        }),
{
    let field = FieldModel { name: crate::bytes::text("x-content-type-options"@), value: options };
    let one = seq![field];
    let name = crate::bytes::text("content-type"@);
    names_differ();
    assert(one.drop_last() =~= Seq::empty());
    assert(crate::headers::values_of(one.drop_last(), name) =~= Seq::empty());
    assert(crate::headers::values_of(one, name) =~= Seq::empty());
    crate::fetch_laws::values_join(before, after, name);
    crate::fetch_laws::values_join(before, one, name);
    crate::fetch_laws::values_join(before + one, after, name);
    assert(crate::headers::values_of(before + one + after, name) =~= crate::headers::values_of(
        before + after,
        name,
    ));
    css_is_admitted(before + after);
    css_is_admitted(before + one + after);
}

/// The names of the two fields differ.
proof fn names_differ()
    ensures
        crate::bytes::text("content-type"@) != crate::bytes::text("x-content-type-options"@),
{
    reveal_strlit("content-type");
    assert("content-type".is_ascii());
    vstd::utf8::is_ascii_chars_encode_utf8("content-type"@);
    reveal_strlit("x-content-type-options");
    assert("x-content-type-options".is_ascii());
    vstd::utf8::is_ascii_chars_encode_utf8("x-content-type-options"@);
    assert(crate::bytes::text("content-type"@).len() == 12);
    assert(crate::bytes::text("x-content-type-options"@).len() == 22);
}

/// Options forbid sniffing exactly by the part of their first field before its
/// first comma, without whitespace around it and without regard to case.
pub proof fn first_option_decides(
    left: Seq<u8>,
    word: Seq<u8>,
    right: Seq<u8>,
    behind: Seq<u8>,
    others: Seq<Seq<u8>>,
)
    requires
        ByteClass::HttpWhitespace.has_all(left),
        ByteClass::HttpWhitespace.has_all(right),
        forall|i: int| 0 <= i < word.len() ==> #[trigger] word[i] != ',' as u8,
        word.len() > 0 ==> !ByteClass::HttpWhitespace.has(word[0])
            && !ByteClass::HttpWhitespace.has(word.last()),
    ensures
        crate::style_response::forbids_sniffing(seq![left + word + right] + others)
            <==> crate::bytes::same_word(word, crate::bytes::text("nosniff"@)),
        crate::style_response::forbids_sniffing(
            seq![left + word + right + seq![',' as u8] + behind] + others,
        ) <==> crate::bytes::same_word(word, crate::bytes::text("nosniff"@)),
        !crate::style_response::forbids_sniffing(Seq::empty()),
{
    let part = left + word + right;
    let comma = ByteClass::Exactly(',' as u8);
    let longer = part + seq![',' as u8] + behind;
    assert forall|i: int| 0 <= i < part.len() implies !comma.has(#[trigger] part[i])
        && !comma.has(longer[i]) by {
        assert(longer[i] == part[i]);
        if i < left.len() {
            assert(ByteClass::HttpWhitespace.has(left[i]));
        } else if i < left.len() + word.len() {
            assert(part[i] == word[i - left.len()]);
        } else {
            assert(ByteClass::HttpWhitespace.has(right[i - left.len() - word.len()]));
        }
    }
    crate::byte_laws::scan_ends_at(part, 0, comma, part.len() as int);
    crate::byte_laws::scan_ends_at(longer, 0, comma, part.len() as int);
    assert(part.subrange(0, part.len() as int) =~= part);
    assert(longer.subrange(0, part.len() as int) =~= part);
    crate::byte_laws::trimming_is_exact(left, word, right, ByteClass::HttpWhitespace);
    assert((seq![part] + others)[0] == part);
    assert((seq![longer] + others)[0] == longer);
}

/// Values are merged in their order, with a comma before each behind the first
/// that is not empty.
pub proof fn values_are_merged_in_order(values: Seq<Seq<u8>>, next: Seq<u8>)
    ensures
        crate::style_response::joined(seq![next]) == next,
        crate::style_response::joined(values).len() > 0 ==> crate::style_response::joined(
            values.push(next),
        ) == crate::style_response::joined(values) + seq![',' as u8] + next,
        crate::style_response::joined(values).len() == 0 ==> crate::style_response::joined(
            values.push(next),
        ) == next,
        crate::style_response::separated_len(seq![next], 2) == next.len(),
        values.len() > 0 ==> crate::style_response::separated_len(values.push(next), 2)
            == crate::style_response::separated_len(values, 2) + 2 + next.len(),
{
    assert(values.push(next).drop_last() =~= values);
    assert(seq![next].drop_last() =~= Seq::<Seq<u8>>::empty());
    assert(crate::style_response::joined(Seq::<Seq<u8>>::empty()) =~= Seq::empty());
    assert(crate::style_response::joined(values).push(',' as u8) + next
        =~= crate::style_response::joined(values) + seq![',' as u8] + next);
}

} // verus!
