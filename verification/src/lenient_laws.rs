//! How a media type is read by the lenient rules.

use vstd::prelude::*;

use crate::bytes::ByteClass;
use crate::legacy_mime::{LegacyModel, ResponseMimeModel};

verus! {

/// Without quotes the first delimiter is the first one.
proof fn plain_delimiter(value: Seq<u8>, from: int, delimiter: u8, at: int)
    requires
        0 <= from <= at <= value.len(),
        forall|i: int|
            from <= i < at ==> #[trigger] value[i] != delimiter && value[i] != '"' as u8,
        at < value.len() ==> value[at] == delimiter,
    ensures
        crate::legacy_mime::delimiter_at(value, from, delimiter) == at,
    decreases at - from,
{
    if from < at {
        assert(value[from] != delimiter);
        plain_delimiter(value, from + 1, delimiter, at);
    }
}

/// Without quotes some place is the first delimiter.
proof fn some_delimiter(value: Seq<u8>, from: int, delimiter: u8) -> (at: int)
    requires
        0 <= from <= value.len(),
        forall|i: int| 0 <= i < value.len() ==> #[trigger] value[i] != '"' as u8,
    ensures
        from <= at <= value.len(),
        crate::legacy_mime::delimiter_at(value, from, delimiter) == at,
        forall|i: int| from <= i < at ==> #[trigger] value[i] != delimiter,
        at < value.len() ==> value[at] == delimiter,
    decreases value.len() - from,
{
    if from == value.len() || value[from] == delimiter {
        from
    } else {
        assert(value[from] != '"' as u8);
        some_delimiter(value, from + 1, delimiter)
    }
}

/// Nothing names nothing.
proof fn nothing_is_named(state: LegacyModel)
    ensures
        state.after(Seq::<u8>::empty()) == state,
{
    let empty = Seq::<u8>::empty();
    crate::byte_laws::run_ends_at(empty, 0, ByteClass::OptionalWhitespace, 0);
    crate::byte_laws::scan_ends_at(empty, 0, ByteClass::OptionalWhitespaceOr(';' as u8), 0);
}

/// Reading parts goes on alike behind another beginning.
proof fn parts_behind(
    whole: Seq<u8>,
    offset: int,
    part: Seq<u8>,
    from: int,
    state: LegacyModel,
)
    requires
        0 <= offset,
        0 <= from <= part.len(),
        offset + part.len() == whole.len(),
        part == whole.subrange(offset, whole.len() as int),
        forall|i: int| 0 <= i < part.len() ==> #[trigger] part[i] != '"' as u8,
    ensures
        crate::legacy_mime::legacy_selection(whole, offset + from, state)
            == crate::legacy_mime::legacy_selection(part, from, state),
    decreases part.len() - from,
{
    let end = some_delimiter(part, from, ',' as u8);
    assert forall|i: int| offset + from <= i < offset + end implies #[trigger] whole[i]
        != ',' as u8 && whole[i] != '"' as u8 by {
        assert(whole[i] == part[i - offset]);
    }
    if end < part.len() {
        assert(whole[offset + end] == part[end]);
    }
    plain_delimiter(whole, offset + from, ',' as u8, offset + end);
    assert(whole.subrange(offset + from, offset + end) =~= part.subrange(from, end));
    if end + 1 < part.len() {
        parts_behind(whole, offset, part, end + 1, state.after(part.subrange(from, end)));
    }
}

/// A comma separates parts: a value reads as what stands in front of it and then
/// what stands behind it, in that order.
pub proof fn commas_separate_parts(
    left: Seq<u8>,
    right: Seq<u8>,
    from: int,
    state: LegacyModel,
)
    requires
        0 <= from <= left.len(),
        right.len() > 0,
        forall|i: int| 0 <= i < left.len() ==> #[trigger] left[i] != '"' as u8,
        forall|i: int| 0 <= i < right.len() ==> #[trigger] right[i] != '"' as u8,
    ensures
        crate::legacy_mime::legacy_selection(left + seq![',' as u8] + right, from, state)
            == crate::legacy_mime::legacy_selection(
            right,
            0,
            crate::legacy_mime::legacy_selection(left, from, state),
        ),
    decreases left.len() - from,
{
    let whole = left + seq![',' as u8] + right;
    let at = left.len() as int;
    let end = some_delimiter(left, from, ',' as u8);
    assert forall|i: int| from <= i < end implies #[trigger] whole[i] != ',' as u8 && whole[i]
        != '"' as u8 by {
        assert(whole[i] == left[i]);
    }
    assert(whole[at] == ',' as u8);
    if end < at {
        assert(whole[end] == left[end]);
    }
    plain_delimiter(whole, from, ',' as u8, end);
    assert(whole.subrange(from, end) =~= left.subrange(from, end));
    let next = state.after(left.subrange(from, end));
    assert(whole.subrange(at + 1, whole.len() as int) =~= right);
    if end + 1 < at {
        commas_separate_parts(left, right, end + 1, next);
    } else if end + 1 == at {
        plain_delimiter(whole, at, ',' as u8, at);
        assert(whole.subrange(at, at) =~= Seq::empty());
        nothing_is_named(next);
        parts_behind(whole, at + 1, right, 0, next);
    } else {
        parts_behind(whole, at + 1, right, 0, next);
    }
}

/// The word that names a charset, as bytes.
proof fn charset_word()
    ensures
        crate::bytes::text("charset="@).len() == 8,
{
    reveal_strlit("charset=");
    assert("charset=".is_ascii());
    vstd::utf8::is_ascii_chars_encode_utf8("charset="@);
}

/// A part is its media type, up to whitespace or a semicolon, and the charset
/// behind its parameter of that name. The media type and the charset of an
/// earlier part stay where this one repeats the type and has no charset.
pub proof fn parts_are_read(
    state: LegacyModel,
    media_type: Seq<u8>,
    word: Seq<u8>,
    charset: Seq<u8>,
)
    requires
        forall|i: int|
            0 <= i < media_type.len() ==> !ByteClass::OptionalWhitespaceOr(';' as u8).has(
                #[trigger] media_type[i],
            ) && media_type[i] != '"' as u8,
        media_type.contains('/' as u8),
        media_type != crate::bytes::text("*/*"@),
        crate::bytes::same_word(word, crate::bytes::text("charset="@)),
        forall|i: int|
            0 <= i < word.len() ==> #[trigger] word[i] != ';' as u8 && word[i] != '"' as u8
                && !ByteClass::OptionalWhitespace.has(word[i]),
        forall|i: int|
            0 <= i < charset.len() ==> !ByteClass::OptionalWhitespaceOr(';' as u8).has(
                #[trigger] charset[i],
            ) && charset[i] != '"' as u8,
    ensures
        ({
            let bare = state.after(media_type);
            let named = state.after(media_type + seq![';' as u8] + word + charset);
            let repeats = state.media_type matches Some(previous) && crate::bytes::same_word(
                previous,
                media_type,
            );
            &&& repeats ==> bare == state
            &&& !repeats ==> bare.media_type == Some(media_type)
            &&& !repeats && !state.had_charset ==> bare.charset == state.charset
                && !bare.had_charset
            &&& !repeats && state.had_charset ==> bare.charset == Some(Seq::<u8>::empty())
                && bare.had_charset
            &&& named.charset == Some(charset)
            &&& named.had_charset
            &&& repeats ==> named.media_type == state.media_type
            &&& !repeats ==> named.media_type == Some(media_type)
        }),
{
    charset_word();
    let blank = ByteClass::OptionalWhitespace;
    let ends = ByteClass::OptionalWhitespaceOr(';' as u8);
    let len = media_type.len() as int;
    assert(media_type.len() > 0);
    assert(!ends.has(media_type[0]));
    crate::byte_laws::run_ends_at(media_type, 0, blank, 0);
    crate::byte_laws::scan_ends_at(media_type, 0, ends, len);
    assert(media_type.subrange(0, len) =~= media_type);
    crate::byte_laws::scan_ends_at(media_type, len, ByteClass::Exactly(';' as u8), len);
    let part = media_type + seq![';' as u8] + word + charset;
    let start = len + 9;
    crate::source_laws::same_letters(word, crate::bytes::text("charset="@));
    assert(part[0] == media_type[0]);
    crate::byte_laws::run_ends_at(part, 0, blank, 0);
    assert forall|i: int| 0 <= i < len implies !ends.has(#[trigger] part[i]) by {
        assert(part[i] == media_type[i]);
    }
    assert(part[len] == ';' as u8);
    crate::byte_laws::scan_ends_at(part, 0, ends, len);
    assert(part.subrange(0, len) =~= media_type);
    crate::byte_laws::scan_ends_at(part, len, ByteClass::Exactly(';' as u8), len);
    assert(part[len + 1] == word[0]);
    crate::byte_laws::run_ends_at(part, len + 1, blank, len + 1);
    assert(part.subrange(len + 1, start) =~= word);
    assert forall|i: int| len + 1 <= i < part.len() implies #[trigger] part[i] != ';' as u8
        && part[i] != '"' as u8 by {
        if i < start {
            assert(part[i] == word[i - len - 1]);
        } else {
            assert(part[i] == charset[i - start]);
        }
    }
    plain_delimiter(part, len + 1, ';' as u8, part.len() as int);
    assert(crate::legacy_mime::charset_at(part, len + 1) == Some(start));
    assert(crate::legacy_mime::last_charset(part, len + 1, None) == Some(
        (start, part.len() as int),
    ));
    if charset.len() > 0 {
        assert(part[start] == charset[0]);
    }
    crate::byte_laws::run_ends_at(part, start, blank, start);
    assert forall|i: int| start <= i < part.len() implies !ends.has(#[trigger] part[i]) by {
        assert(part[i] == charset[i - start]);
    }
    crate::byte_laws::scan_ends_at(part, start, ends, part.len() as int);
    assert(part.subrange(start, part.len() as int) =~= charset);
}

/// A part that names no media type, or the wildcard, changes nothing.
pub proof fn other_parts_change_nothing(state: LegacyModel, part: Seq<u8>)
    requires
        !part.contains('/' as u8) || part == crate::bytes::text("*/*"@),
    ensures
        state.after(part) == state,
{
    let blank = ByteClass::OptionalWhitespace;
    let ends = ByteClass::OptionalWhitespaceOr(';' as u8);
    crate::bytes::first_outside_is_first(part, 0, blank);
    let start = crate::bytes::first_outside(part, 0, blank);
    crate::bytes::first_in_is_first(part, start, ends);
    let end = crate::bytes::first_in(part, start, ends);
    let media_type = part.subrange(start, end);
    if !part.contains('/' as u8) {
        if media_type.contains('/' as u8) {
            let i = choose|i: int| 0 <= i < media_type.len() && media_type[i] == '/' as u8;
            assert(part[start + i] == '/' as u8);
        }
    } else {
        reveal_strlit("*/*");
        assert("*/*".is_ascii());
        vstd::utf8::is_ascii_chars_encode_utf8("*/*"@);
        assert(part =~= seq!['*' as u8, '/' as u8, '*' as u8]);
        crate::byte_laws::run_ends_at(part, 0, blank, 0);
        crate::byte_laws::scan_ends_at(part, 0, ends, 3);
        assert(part.subrange(0, 3) =~= part);
    }
}

/// The lenient rules count only for the last field, and only where the merged
/// value names no media type by the strict ones.
pub proof fn strict_rules_come_first(merged: Seq<u8>, latest: Seq<u8>)
    ensures
        crate::mime::extracted_mime(merged) matches Some(mime) ==>
            crate::legacy_mime::response_mime(merged, latest) == Some(
            ResponseMimeModel { is_css: mime.essence.is_css(), charset: mime.charset },
        ),
        crate::mime::extracted_mime(merged) is None ==> crate::legacy_mime::response_mime(
            merged,
            latest,
        ) == crate::legacy_mime::legacy_mime(latest),
        crate::legacy_mime::legacy_mime(latest) matches Some(mime) ==> (mime.is_css
            <==> crate::bytes::same_word(
            crate::legacy_mime::legacy_selection(latest, 0, LegacyModel::empty()).media_type->0,
            crate::bytes::text("text/css"@),
        )),
        LegacyModel::empty().media_type is None && LegacyModel::empty().charset is None
            && !LegacyModel::empty().had_charset,
{
}

/// Of several charsets of a part the last one counts.
pub proof fn last_charset_counts(
    value: Seq<u8>,
    from: int,
    found: Option<(int, int)>,
    middle: int,
    second: int,
)
    requires
        0 <= from <= middle < value.len(),
        value[middle] == ';' as u8,
        forall|i: int| 0 <= i < value.len() ==> #[trigger] value[i] != '"' as u8,
        forall|i: int| from <= i < middle ==> #[trigger] value[i] != ';' as u8,
        forall|i: int| middle + 1 <= i < value.len() ==> #[trigger] value[i] != ';' as u8,
        crate::legacy_mime::charset_at(value, middle + 1) == Some(second),
    ensures
        crate::legacy_mime::last_charset(value, from, found) == Some((second, value.len() as int)),
{
    plain_delimiter(value, from, ';' as u8, middle);
    plain_delimiter(value, middle + 1, ';' as u8, value.len() as int);
    assert(crate::legacy_mime::last_charset(
        value,
        middle + 1,
        match crate::legacy_mime::charset_at(value, from) {
            Some(start) => Some((start, middle)),
            None => found,
        },
    ) == Some((second, value.len() as int)));
}

/// A text with a backslash in front of each of its bytes.
pub open spec fn all_escaped(content: Seq<u8>) -> Seq<u8>
    decreases content.len(),
{
    if content.len() == 0 {
        Seq::empty()
    } else {
        seq!['\\' as u8, content[0]] + all_escaped(content.subrange(1, content.len() as int))
    }
}

/// A string ends at its first quote that is not escaped, and holds its bytes
/// without the backslashes, whichever rules read it.
pub proof fn escapes_are_taken_off(value: Seq<u8>, from: int, content: Seq<u8>)
    requires
        0 <= from,
        from + all_escaped(content).len() < value.len(),
        value.subrange(from, from + all_escaped(content).len()) == all_escaped(content),
        value[from + all_escaped(content).len()] == '"' as u8,
    ensures
        all_escaped(content).len() == 2 * content.len(),
        crate::legacy_mime::unescaped(all_escaped(content)) == content,
        crate::legacy_mime::string_end(value, from) == from + 2 * content.len(),
        crate::content_type::closing_quote(value, from) == Some(from + 2 * content.len()),
        crate::content_type::unquoted_charset(all_escaped(content)) == Some(
            crate::bytes::lowered(content),
        ),
        crate::mime::quoted(value, from).content == content,
        crate::mime::quoted(value, from).end == from + 2 * content.len(),
    decreases content.len(),
{
    let whole = all_escaped(content);
    if content.len() == 0 {
        assert(whole =~= Seq::empty());
        assert(crate::bytes::lowered(content) =~= Seq::empty());
        assert(crate::mime::quoted(value, from).content =~= content);
        assert(crate::legacy_mime::unescaped(whole) =~= content);
    } else {
        let rest = content.subrange(1, content.len() as int);
        let tail = all_escaped(rest);
        assert(whole == seq!['\\' as u8, content[0]] + tail);
        let end = from + whole.len();
        assert(value.subrange(from, end)[0] == value[from]);
        assert(value.subrange(from, end)[1] == value[from + 1]);
        assert(value.subrange(from + 2, from + 2 + tail.len()) =~= tail) by {
            assert forall|i: int| 0 <= i < tail.len() implies value.subrange(
                from + 2,
                from + 2 + tail.len(),
            )[i] == #[trigger] tail[i] by {
                assert(value.subrange(from, end)[i + 2] == whole[i + 2]);
            }
        }
        escapes_are_taken_off(value, from + 2, rest);
        assert(whole.subrange(2, whole.len() as int) =~= tail);
        assert(seq![content[0]] + rest =~= content);
        assert(seq![crate::bytes::lower(content[0])] + crate::bytes::lowered(rest)
            =~= crate::bytes::lowered(content));
    }
}

/// A charset in quotes is what the quotes enclose, without its backslashes.
pub proof fn quoted_charsets_end_at_their_quote(
    before: Seq<u8>,
    content: Seq<u8>,
    rest: Seq<u8>,
    limit: int,
)
    requires
        before.len() + 2 + 2 * content.len() <= limit <= before.len() + 2 + 2 * content.len()
            + rest.len(),
    ensures
        crate::legacy_mime::charset_text(
            before + seq!['"' as u8] + all_escaped(content) + seq!['"' as u8] + rest,
            before.len() as int,
            limit,
        ) == content,
{
    let escaped = all_escaped(content);
    let value = before + seq!['"' as u8] + escaped + seq!['"' as u8] + rest;
    let at = before.len() as int;
    assert(value[at] == '"' as u8);
    assert(value.subrange(at + 1, at + 1 + escaped.len()) =~= escaped);
    assert(value[at + 1 + escaped.len()] == '"' as u8);
    escapes_are_taken_off(value, at + 1, content);
    crate::byte_laws::run_ends_at(value, at, ByteClass::OptionalWhitespace, at);
}

} // verus!
