//! How media types and their charsets are read.

use vstd::prelude::*;

use crate::bytes::ByteClass;
use crate::content_type::{ContentTypeModel, ContentTypeParameterModel, MalformedContentType};
use crate::mime::{EssenceModel, MimeModel, SelectionModel};

verus! {

/// Tokens hold no whitespace and none of the separators.
proof fn tokens_have_no_separators(token: Seq<u8>)
    requires
        ByteClass::Token.has_all(token),
    ensures
        forall|i: int|
            0 <= i < token.len() ==> {
                let byte = #[trigger] token[i];
                &&& byte != '/' as u8 && byte != ';' as u8 && byte != '=' as u8 && byte != ',' as u8
                &&& byte != '"' as u8 && byte < 128
                &&& !ByteClass::HttpWhitespace.has(byte)
                &&& !ByteClass::AsciiWhitespace.has(byte)
                &&& !ByteClass::OptionalWhitespace.has(byte)
                &&& ByteClass::QuotedString.has(byte)
            },
{
    assert forall|i: int| 0 <= i < token.len() implies ({
        let byte = #[trigger] token[i];
        &&& byte != '/' as u8 && byte != ';' as u8 && byte != '=' as u8 && byte != ',' as u8
        &&& byte != '"' as u8 && byte < 128
        &&& !ByteClass::HttpWhitespace.has(byte)
        &&& !ByteClass::AsciiWhitespace.has(byte)
        &&& !ByteClass::OptionalWhitespace.has(byte)
        &&& ByteClass::QuotedString.has(byte)
    }) by {
        assert(ByteClass::Token.has(token[i]));
        crate::byte_laws::classes_are_ascii(token[i]);
    }
}

/// Nothing is taken from the end of bytes that do not end with the class.
proof fn nothing_trails(bytes: Seq<u8>, class: ByteClass)
    requires
        bytes.len() > 0 ==> !class.has(bytes.last()),
    ensures
        crate::bytes::without_trailing(bytes, class) == bytes,
{
}

/// A pair of tokens is the media type that it spells, whatever stands in its
/// parameters.
pub proof fn pairs_are_media_types(main_type: Seq<u8>, subtype: Seq<u8>, parameters: Seq<u8>)
    requires
        main_type.len() > 0,
        subtype.len() > 0,
        ByteClass::Token.has_all(main_type),
        ByteClass::Token.has_all(subtype),
        parameters.len() > 0 ==> parameters[0] == ';' as u8 && !ByteClass::HttpWhitespace.has(
            parameters.last(),
        ),
    ensures
        ({
            let value = main_type + seq!['/' as u8] + subtype + parameters;
            crate::mime::mime_of(value) == Some(
                MimeModel {
                    essence: EssenceModel { main_type, subtype },
                    charset: crate::mime::charset_parameter(
                        value,
                        main_type.len() as int + 1 + subtype.len() as int,
                    ),
                },
            )
        }),
{
    let value = main_type + seq!['/' as u8] + subtype + parameters;
    let slash = main_type.len() as int;
    let end = slash + 1 + subtype.len() as int;
    tokens_have_no_separators(main_type);
    tokens_have_no_separators(subtype);
    assert(value[0] == main_type[0]);
    if parameters.len() == 0 {
        assert(value.last() == subtype[subtype.len() - 1]);
    } else {
        assert(value.last() == parameters.last());
    }
    crate::byte_laws::trimming_keeps(value, ByteClass::HttpWhitespace);
    assert forall|i: int| 0 <= i < slash implies !ByteClass::Exactly('/' as u8).has(
        #[trigger] value[i],
    ) by {
        assert(value[i] == main_type[i]);
    }
    assert(value[slash] == '/' as u8);
    crate::byte_laws::scan_ends_at(value, 0, ByteClass::Exactly('/' as u8), slash);
    assert forall|i: int| slash + 1 <= i < end implies !ByteClass::Exactly(';' as u8).has(
        #[trigger] value[i],
    ) by {
        assert(value[i] == subtype[i - slash - 1]);
    }
    if parameters.len() > 0 {
        assert(value[end] == parameters[0]);
    }
    crate::byte_laws::scan_ends_at(value, slash + 1, ByteClass::Exactly(';' as u8), end);
    assert(value.subrange(0, slash) =~= main_type);
    assert(value.subrange(slash + 1, end) =~= subtype);
    assert(!ByteClass::HttpWhitespace.has(subtype.last())) by {
        assert(subtype.last() == subtype[subtype.len() - 1]);
    }
    nothing_trails(subtype, ByteClass::HttpWhitespace);
}

/// A value that is no pair of tokens is no media type.
pub proof fn others_are_no_media_types(value: Seq<u8>)
    ensures
        !value.contains('/' as u8) ==> crate::mime::mime_of(value) is None,
        crate::mime::mime_of(Seq::<u8>::empty()) is None,
        crate::mime::mime_of(value) matches Some(mime) ==> mime.essence.main_type.len() > 0
            && mime.essence.subtype.len() > 0 && ByteClass::Token.has_all(mime.essence.main_type)
            && ByteClass::Token.has_all(mime.essence.subtype),
{
    let class = ByteClass::HttpWhitespace;
    let bare = crate::bytes::trimmed(value, class);
    crate::bytes::first_outside_is_first(value, 0, class);
    crate::bytes::trimmed_is_part(crate::bytes::without_leading(value, class), class);
    if !value.contains('/' as u8) {
        crate::bytes::first_in_is_first(bare, 0, ByteClass::Exactly('/' as u8));
        let slash = crate::bytes::first_in(bare, 0, ByteClass::Exactly('/' as u8));
        if slash < bare.len() {
            assert(bare[slash] == '/' as u8);
            let start = crate::bytes::first_outside(value, 0, class);
            assert(crate::bytes::without_leading(value, class)[slash] == bare[slash]);
            assert(value[start + slash] == '/' as u8);
        }
    }
    let empty = Seq::<u8>::empty();
    crate::byte_laws::trimming_keeps(empty, class);
}

/// The first parameter named charset gives the charset, in any case of its name;
/// other parameters are passed over.
pub proof fn first_charset_counts(
    before: Seq<u8>,
    name: Seq<u8>,
    content: Seq<u8>,
    rest: Seq<u8>,
)
    requires
        name.len() > 0,
        ByteClass::Token.has_all(name),
        content.len() > 0,
        content[0] != '"' as u8,
        ByteClass::QuotedString.has_all(content),
        !content.contains(';' as u8),
        !ByteClass::HttpWhitespace.has(content.last()),
        rest.len() > 0 ==> rest[0] == ';' as u8,
    ensures
        ({
            let value = before + seq![';' as u8] + name + seq!['=' as u8] + content + rest;
            let at = before.len() as int;
            let next = at + 2 + name.len() + content.len();
            &&& crate::bytes::same_word(name, crate::bytes::text("charset"@))
                ==> crate::mime::charset_parameter(value, at) == Some(content)
            &&& !crate::bytes::same_word(name, crate::bytes::text("charset"@))
                ==> crate::mime::charset_parameter(value, at) == crate::mime::charset_parameter(
                value,
                next,
            )
            &&& crate::mime::charset_parameter(value, value.len() as int) is None
        }),
{
    let value = before + seq![';' as u8] + name + seq!['=' as u8] + content + rest;
    let at = before.len() as int;
    let name_end = at + 1 + name.len() as int;
    let next = name_end + 1 + content.len() as int;
    tokens_have_no_separators(name);
    assert(value[at + 1] == name[0]);
    crate::byte_laws::run_ends_at(value, at + 1, ByteClass::HttpWhitespace, at + 1);
    let ends = ByteClass::Either(';' as u8, '=' as u8);
    assert forall|i: int| at + 1 <= i < name_end implies !ends.has(#[trigger] value[i]) by {
        assert(value[i] == name[i - at - 1]);
    }
    assert(value[name_end] == '=' as u8);
    crate::byte_laws::scan_ends_at(value, at + 1, ends, name_end);
    assert(value.subrange(at + 1, name_end) =~= name);
    assert(value[name_end + 1] == content[0]);
    let semicolon = ByteClass::Exactly(';' as u8);
    assert forall|i: int| name_end + 1 <= i < next implies !semicolon.has(#[trigger] value[i]) by {
        assert(value[i] == content[i - name_end - 1]);
        if value[i] == ';' as u8 {
            assert(content.contains(';' as u8));
        }
    }
    if rest.len() > 0 {
        assert(value[next] == rest[0]);
    }
    crate::byte_laws::scan_ends_at(value, name_end + 1, semicolon, next);
    assert(value.subrange(name_end + 1, next) =~= content);
    nothing_trails(content, ByteClass::HttpWhitespace);
}

/// A quoted string is read to its closing quote.
proof fn plain_quoted(value: Seq<u8>, from: int, end: int)
    requires
        0 <= from <= end < value.len(),
        value[end] == '"' as u8,
        forall|i: int|
            from <= i < end ==> #[trigger] value[i] != '"' as u8 && value[i] != '\\' as u8,
    ensures
        crate::mime::quoted(value, from).content == value.subrange(from, end),
        crate::mime::quoted(value, from).end == end,
        crate::content_type::closing_quote(value, from) == Some(end),
    decreases end - from,
{
    if from < end {
        assert(value[from] != '"' as u8);
        plain_quoted(value, from + 1, end);
        assert(seq![value[from]] + value.subrange(from + 1, end) =~= value.subrange(from, end));
    } else {
        assert(value.subrange(from, end) =~= Seq::empty());
    }
}

/// A charset between quotes is the same charset.
pub proof fn quoted_charsets_are_charsets(
    before: Seq<u8>,
    name: Seq<u8>,
    content: Seq<u8>,
    rest: Seq<u8>,
)
    requires
        crate::bytes::same_word(name, crate::bytes::text("charset"@)),
        name.len() > 0,
        ByteClass::Token.has_all(name),
        ByteClass::QuotedString.has_all(content),
        forall|i: int|
            0 <= i < content.len() ==> #[trigger] content[i] != '"' as u8 && content[i]
                != '\\' as u8,
    ensures
        crate::mime::charset_parameter(
            before + seq![';' as u8] + name + seq!['=' as u8, '"' as u8] + content + seq![
                '"' as u8,
            ] + rest,
            before.len() as int,
        ) == Some(content),
{
    let value = before + seq![';' as u8] + name + seq!['=' as u8, '"' as u8] + content + seq![
        '"' as u8,
    ] + rest;
    let at = before.len() as int;
    let name_end = at + 1 + name.len() as int;
    let end = name_end + 2 + content.len() as int;
    tokens_have_no_separators(name);
    assert(value[at + 1] == name[0]);
    crate::byte_laws::run_ends_at(value, at + 1, ByteClass::HttpWhitespace, at + 1);
    let ends = ByteClass::Either(';' as u8, '=' as u8);
    assert forall|i: int| at + 1 <= i < name_end implies !ends.has(#[trigger] value[i]) by {
        assert(value[i] == name[i - at - 1]);
    }
    assert(value[name_end] == '=' as u8);
    assert(value[name_end + 1] == '"' as u8);
    crate::byte_laws::scan_ends_at(value, at + 1, ends, name_end);
    assert(value.subrange(at + 1, name_end) =~= name);
    assert forall|i: int| name_end + 2 <= i < end implies #[trigger] value[i] != '"' as u8
        && value[i] != '\\' as u8 by {
        assert(value[i] == content[i - name_end - 2]);
    }
    assert(value[end] == '"' as u8);
    plain_quoted(value, name_end + 2, end);
    assert(value.subrange(name_end + 2, end) =~= content);
}

/// What a value selects so far depends on what stands there so far.
proof fn selections_agree(whole: Seq<u8>, part: Seq<u8>, index: int)
    requires
        0 <= index <= part.len() <= whole.len(),
        part == whole.subrange(0, part.len() as int),
    ensures
        crate::mime::in_quotes(whole, index) == crate::mime::in_quotes(part, index),
        crate::mime::candidate_start(whole, index) == crate::mime::candidate_start(part, index),
        0 <= crate::mime::candidate_start(part, index) <= index,
        crate::mime::selection(whole, index) == crate::mime::selection(part, index),
    decreases index,
{
    if index > 0 {
        selections_agree(whole, part, index - 1);
        assert(whole[index - 1] == part[index - 1]);
        if index > 1 {
            assert(whole[index - 2] == part[index - 2]);
        }
        let start = crate::mime::candidate_start(part, index - 1);
        assert(whole.subrange(start, index - 1) =~= part.subrange(start, index - 1));
    }
}

/// Behind a comma a candidate without commas and quotes goes on to its end.
proof fn candidate_goes_on(whole: Seq<u8>, start: int, index: int)
    requires
        0 < start <= index <= whole.len(),
        !crate::mime::in_quotes(whole, start),
        crate::mime::candidate_start(whole, start) == start,
        forall|i: int|
            start <= i < whole.len() ==> #[trigger] whole[i] != ',' as u8 && whole[i] != '"' as u8,
    ensures
        !crate::mime::in_quotes(whole, index),
        crate::mime::candidate_start(whole, index) == start,
        crate::mime::selection(whole, index) == crate::mime::selection(whole, start),
    decreases index - start,
{
    if index > start {
        candidate_goes_on(whole, start, index - 1);
        assert(whole[index - 1] != ',' as u8);
    }
}

/// Nothing selects nothing.
proof fn nothing_selects_nothing(selected: SelectionModel)
    ensures
        selected.after(Seq::<u8>::empty()) == selected,
{
    others_are_no_media_types(Seq::empty());
}

/// Candidates are separated by commas outside quotes, and each is taken behind
/// the ones before it.
pub proof fn commas_separate_candidates(left: Seq<u8>, candidate: Seq<u8>)
    requires
        !crate::mime::in_quotes(left, left.len() as int),
        forall|i: int|
            0 <= i < candidate.len() ==> #[trigger] candidate[i] != ',' as u8 && candidate[i]
                != '"' as u8,
    ensures
        crate::mime::complete_selection(left + seq![',' as u8] + candidate)
            == crate::mime::complete_selection(left).after(candidate),
        crate::mime::complete_selection(candidate) == SelectionModel::empty().after(candidate),
{
    let whole = left + seq![',' as u8] + candidate;
    let at = left.len() as int;
    let len = whole.len() as int;
    assert(left =~= whole.subrange(0, at));
    selections_agree(whole, left, at);
    assert(whole[at] == ',' as u8);
    let start = crate::mime::candidate_start(left, at);
    assert(whole.subrange(start, at) =~= left.subrange(start, at));
    if start == at {
        assert(left.subrange(start, at) =~= Seq::empty());
        nothing_selects_nothing(crate::mime::selection(left, at));
    }
    assert(crate::mime::selection(whole, at + 1) == crate::mime::complete_selection(left));
    assert(crate::mime::candidate_start(whole, at + 1) == at + 1);
    assert(!crate::mime::in_quotes(whole, at + 1));
    assert forall|i: int| at + 1 <= i < len implies #[trigger] whole[i] != ',' as u8 && whole[i]
        != '"' as u8 by {
        assert(whole[i] == candidate[i - at - 1]);
    }
    candidate_goes_on(whole, at + 1, len);
    assert(whole.subrange(at + 1, len) =~= candidate);
    if candidate.len() == 0 {
        assert(candidate =~= Seq::empty());
        nothing_selects_nothing(crate::mime::complete_selection(left));
        nothing_selects_nothing(SelectionModel::empty());
    }
    single_candidate(candidate, candidate.len() as int);
    assert(candidate.subrange(0, candidate.len() as int) =~= candidate);
}

/// A value without commas is one candidate.
proof fn single_candidate(value: Seq<u8>, index: int)
    requires
        0 <= index <= value.len(),
        forall|i: int| 0 <= i < value.len() ==> #[trigger] value[i] != ',' as u8,
    ensures
        crate::mime::candidate_start(value, index) == 0,
        crate::mime::selection(value, index) == SelectionModel::empty(),
    decreases index,
{
    if index > 0 {
        single_candidate(value, index - 1);
        assert(value[index - 1] != ',' as u8);
    }
}

/// Of several media types the last one counts. One that repeats the type before
/// it without a charset has that one's charset, one of another type has its own
/// or none; what names no type changes nothing, and the wildcard stands for the
/// type before it.
pub proof fn last_media_type_counts(first: Seq<u8>, second: Seq<u8>)
    requires
        forall|i: int|
            0 <= i < first.len() ==> #[trigger] first[i] != ',' as u8 && first[i] != '"' as u8,
        forall|i: int|
            0 <= i < second.len() ==> #[trigger] second[i] != ',' as u8 && second[i] != '"' as u8,
        crate::mime::mime_of(first) matches Some(mime) && !mime.essence.is_wildcard(),
        first != crate::bytes::text("error"@),
        second != crate::bytes::text("error"@),
    ensures
        ({
            let both = first + seq![',' as u8] + second;
            let one = crate::mime::mime_of(first)->0;
            &&& crate::mime::extracted_mime(first) == Some(one)
            &&& match crate::mime::mime_of(second) {
                None => crate::mime::extracted_mime(both) == Some(one),
                Some(two) => {
                    &&& two.essence.is_wildcard() ==> crate::mime::extracted_mime(both) == Some(
                        one,
                    )
                    &&& !two.essence.is_wildcard() && two.charset is Some
                        ==> crate::mime::extracted_mime(both) == Some(two)
                    &&& !two.essence.is_wildcard() && two.charset is None && two.essence.agrees(
                        one.essence,
                    ) ==> crate::mime::extracted_mime(both) == Some(
                        MimeModel { essence: two.essence, charset: one.charset },
                    )
                    &&& !two.essence.is_wildcard() && two.charset is None && !two.essence.agrees(
                        one.essence,
                    ) ==> crate::mime::extracted_mime(both) == Some(two)
                },
            }
        }),
{
    unquoted(first, first.len() as int);
    commas_separate_candidates(first, second);
    commas_separate_candidates(first, first);
}

/// A value without quotes lies outside quotes.
proof fn unquoted(value: Seq<u8>, index: int)
    requires
        0 <= index <= value.len(),
        forall|i: int| 0 <= i < value.len() ==> #[trigger] value[i] != '"' as u8,
    ensures
        !crate::mime::in_quotes(value, index),
    decreases index,
{
    if index > 0 {
        unquoted(value, index - 1);
        assert(value[index - 1] != '"' as u8);
    }
}

/// The stylesheet type and the wildcard are what they are spelled, the former in
/// any case.
pub proof fn named_media_types(essence: EssenceModel, other: EssenceModel)
    ensures
        essence.is_css() <==> crate::bytes::same_word(
            essence.main_type,
            crate::bytes::text("text"@),
        ) && crate::bytes::same_word(essence.subtype, crate::bytes::text("css"@)),
        essence.is_css() && other.is_css() ==> essence.agrees(other),
        essence.agrees(other) ==> essence.is_css() == other.is_css(),
        essence.agrees(other) == other.agrees(essence),
        essence.is_wildcard() ==> !essence.is_css(),
{
    reveal_strlit("*");
    assert("*".is_ascii());
    vstd::utf8::is_ascii_chars_encode_utf8("*"@);
    reveal_strlit("css");
    assert("css".is_ascii());
    vstd::utf8::is_ascii_chars_encode_utf8("css"@);
    if essence.is_wildcard() && essence.is_css() {
        let (star, css) = (crate::bytes::text("*"@), crate::bytes::text("css"@));
        assert(crate::bytes::lowered(star).len() == 1 && crate::bytes::lowered(css).len() == 3);
    }
}

/// A field line whose media type is a pair of tokens names that pair in lower
/// case; its parameters are read from the first semicolon on.
pub proof fn fields_name_their_media_type(
    main_type: Seq<u8>,
    subtype: Seq<u8>,
    parameters: Seq<u8>,
)
    requires
        main_type.len() > 0,
        subtype.len() > 0,
        ByteClass::Token.has_all(main_type),
        ByteClass::Token.has_all(subtype),
        crate::text::is_ascii_bytes(parameters),
        parameters.len() > 0 ==> parameters[0] == ';' as u8 && !ByteClass::AsciiWhitespace.has(
            parameters.last(),
        ),
    ensures
        ({
            let media = main_type + seq!['/' as u8] + subtype;
            let field = media + parameters;
            crate::content_type::classified(field) == crate::content_type::charsets_from(
                field,
                media.len() as int,
                crate::text::ascii_chars(crate::bytes::lowered(media)),
                Seq::empty(),
            )
        }),
{
    let media = main_type + seq!['/' as u8] + subtype;
    let field = media + parameters;
    let slash = main_type.len() as int;
    let end = media.len() as int;
    tokens_have_no_separators(main_type);
    tokens_have_no_separators(subtype);
    assert(media[0] == main_type[0]);
    assert(media.last() == subtype[subtype.len() - 1]);
    assert(field[0] == media[0]);
    if parameters.len() == 0 {
        assert(field =~= media);
    } else {
        assert(field.last() == parameters.last());
    }
    crate::byte_laws::trimming_keeps(field, ByteClass::AsciiWhitespace);
    assert forall|i: int| 0 <= i < end implies !ByteClass::Exactly(';' as u8).has(
        #[trigger] field[i],
    ) && field[i] < 128 by {
        assert(field[i] == media[i]);
        if i < slash {
            assert(media[i] == main_type[i]);
        } else if i > slash {
            assert(media[i] == subtype[i - slash - 1]);
        }
    }
    if parameters.len() > 0 {
        assert(field[end] == parameters[0]);
    }
    crate::byte_laws::scan_ends_at(field, 0, ByteClass::Exactly(';' as u8), end);
    assert(field.subrange(0, end) =~= media);
    crate::byte_laws::trimming_keeps(media, ByteClass::AsciiWhitespace);
    assert forall|i: int| 0 <= i < slash implies !ByteClass::Exactly('/' as u8).has(
        #[trigger] media[i],
    ) by {
        assert(media[i] == main_type[i]);
    }
    assert(media[slash] == '/' as u8);
    crate::byte_laws::scan_ends_at(media, 0, ByteClass::Exactly('/' as u8), slash);
    assert(media.subrange(0, slash) =~= main_type);
    assert(media.subrange(slash + 1, end) =~= subtype);
    assert forall|i: int| 0 <= i < field.len() implies #[trigger] field[i] < 128 by {
        if i >= end {
            assert(field[i] == parameters[i - end]);
        }
    }
    assert(crate::text::is_ascii_bytes(field));
}

/// A field line without such a pair names none, and bytes beyond ASCII are told
/// before that.
pub proof fn other_fields_are_malformed(field: Seq<u8>)
    ensures
        !crate::text::is_ascii_bytes(field) ==> crate::content_type::classified(field)
            == ContentTypeModel::Malformed(MalformedContentType::NonAscii),
        crate::text::is_ascii_bytes(field) && !field.contains('/' as u8)
            ==> crate::content_type::classified(field) == ContentTypeModel::Malformed(
            MalformedContentType::InvalidMediaType,
        ),
{
    if !field.contains('/' as u8) {
        let class = ByteClass::AsciiWhitespace;
        let value = crate::bytes::trimmed(field, class);
        part_of_trimmed(field, class);
        let end = crate::bytes::first_in(value, 0, ByteClass::Exactly(';' as u8));
        crate::bytes::first_in_is_first(value, 0, ByteClass::Exactly(';' as u8));
        let front = value.subrange(0, end);
        let media = crate::bytes::trimmed(front, class);
        part_of_trimmed(front, class);
        let slash = crate::bytes::first_in(media, 0, ByteClass::Exactly('/' as u8));
        crate::bytes::first_in_is_first(media, 0, ByteClass::Exactly('/' as u8));
        if slash < media.len() {
            assert(media.contains(media[slash]));
            assert(front.contains('/' as u8));
            let i = choose|i: int| 0 <= i < front.len() && front[i] == '/' as u8;
            assert(value[i] == '/' as u8);
            assert(value.contains('/' as u8));
        }
    }
}

/// What is left of trimmed bytes was there.
proof fn part_of_trimmed(bytes: Seq<u8>, class: ByteClass)
    ensures
        forall|byte: u8| #[trigger]
            crate::bytes::trimmed(bytes, class).contains(byte) ==> bytes.contains(byte),
{
    crate::bytes::first_outside_is_first(bytes, 0, class);
    let led = crate::bytes::without_leading(bytes, class);
    crate::bytes::trimmed_is_part(led, class);
    let left = crate::bytes::trimmed(bytes, class);
    let start = crate::bytes::first_outside(bytes, 0, class);
    assert forall|byte: u8| #[trigger] left.contains(byte) implies bytes.contains(byte) by {
        let i = choose|i: int| 0 <= i < left.len() && left[i] == byte;
        assert(led[i] == byte);
        assert(bytes[start + i] == byte);
    }
}

/// A parameter is its name and the token behind its equals sign, with optional
/// whitespace around each.
proof fn token_parameters(before: Seq<u8>, name: Seq<u8>, token: Seq<u8>, rest: Seq<u8>)
    requires
        name.len() > 0,
        ByteClass::Token.has_all(name),
        token.len() > 0,
        ByteClass::Token.has_all(token),
        rest.len() > 0 ==> rest[0] == ';' as u8,
    ensures
        crate::content_type::parameter_at(
            before + seq![';' as u8] + name + seq!['=' as u8] + token + rest,
            before.len() as int,
        ) == Some(
            ContentTypeParameterModel {
                name,
                value: token,
                quoted: false,
                next: before.len() as int + 2 + name.len() + token.len(),
            },
        ),
{
    let value = before + seq![';' as u8] + name + seq!['=' as u8] + token + rest;
    let ows = ByteClass::OptionalWhitespace;
    let at = before.len() as int;
    let name_end = at + 1 + name.len() as int;
    let next = name_end + 1 + token.len() as int;
    tokens_have_no_separators(name);
    tokens_have_no_separators(token);
    assert(value[at + 1] == name[0]);
    crate::byte_laws::run_ends_at(value, at + 1, ows, at + 1);
    assert forall|i: int| at + 1 <= i < name_end implies ByteClass::Token.has(
        #[trigger] value[i],
    ) by {
        assert(value[i] == name[i - at - 1]);
    }
    assert(value[name_end] == '=' as u8);
    crate::byte_laws::classes_are_ascii('=' as u8);
    crate::byte_laws::classes_are_ascii(';' as u8);
    crate::byte_laws::run_ends_at(value, at + 1, ByteClass::Token, name_end);
    crate::byte_laws::run_ends_at(value, name_end, ows, name_end);
    assert(value[name_end + 1] == token[0]);
    crate::byte_laws::run_ends_at(value, name_end + 1, ows, name_end + 1);
    assert forall|i: int| name_end + 1 <= i < next implies ByteClass::Token.has(
        #[trigger] value[i],
    ) by {
        assert(value[i] == token[i - name_end - 1]);
    }
    if rest.len() > 0 {
        assert(value[next] == rest[0]);
    }
    crate::byte_laws::run_ends_at(value, name_end + 1, ByteClass::Token, next);
    crate::byte_laws::run_ends_at(value, next, ows, next);
    assert(value.subrange(at + 1, name_end) =~= name);
    assert(value.subrange(name_end + 1, next) =~= token);
}

/// Charset parameters of a field line are kept in order and in lower case, up to
/// sixteen of them; other parameters are passed over.
pub proof fn charsets_are_kept_in_order(
    before: Seq<u8>,
    name: Seq<u8>,
    token: Seq<u8>,
    rest: Seq<u8>,
    media_type: Seq<char>,
    charsets: Seq<Seq<char>>,
)
    requires
        name.len() > 0,
        ByteClass::Token.has_all(name),
        token.len() > 0,
        ByteClass::Token.has_all(token),
        rest.len() > 0 ==> rest[0] == ';' as u8,
    ensures
        ({
            let value = before + seq![';' as u8] + name + seq!['=' as u8] + token + rest;
            let at = before.len() as int;
            let next = at + 2 + name.len() + token.len();
            let answer = crate::content_type::charsets_from(value, at, media_type, charsets);
            if !crate::bytes::same_word(name, crate::bytes::text("charset"@)) {
                answer == crate::content_type::charsets_from(value, next, media_type, charsets)
            } else if charsets.len() < 16 {
                answer == crate::content_type::charsets_from(
                    value,
                    next,
                    media_type,
                    charsets.push(crate::text::ascii_chars(crate::bytes::lowered(token))),
                )
            } else {
                answer == ContentTypeModel::TooManyCharsets
            }
        }),
        crate::content_type::charsets_from(before, before.len() as int, media_type, charsets) == (
        ContentTypeModel::Parsed { media_type, charsets }),
{
    token_parameters(before, name, token, rest);
    lowered_tokens(token);
}

/// A token in lower case is a token.
proof fn lowered_tokens(token: Seq<u8>)
    requires
        ByteClass::Token.has_all(token),
    ensures
        ByteClass::Token.has_all(crate::bytes::lowered(token)),
        crate::bytes::lowered(token).len() == token.len(),
{
    let low = crate::bytes::lowered(token);
    assert forall|i: int| 0 <= i < low.len() implies ByteClass::Token.has(#[trigger] low[i]) by {
        assert(ByteClass::Token.has(token[i]));
        crate::byte_laws::classes_are_ascii(token[i]);
        crate::byte_laws::classes_are_ascii(low[i]);
    }
}

/// The content of a quoted charset without quotes and backslashes is itself, in
/// lower case.
pub proof fn quoted_charsets_are_lowered(content: Seq<u8>)
    requires
        forall|i: int| 0 <= i < content.len() ==> #[trigger] content[i] != '\\' as u8,
    ensures
        crate::content_type::unquoted_charset(content) == Some(crate::bytes::lowered(content)),
    decreases content.len(),
{
    if content.len() > 0 {
        let rest = content.subrange(1, content.len() as int);
        assert forall|i: int| 0 <= i < rest.len() implies #[trigger] rest[i] != '\\' as u8 by {
            assert(rest[i] == content[i + 1]);
        }
        quoted_charsets_are_lowered(rest);
        assert(content[0] != '\\' as u8);
        assert(seq![crate::bytes::lower(content[0])] + crate::bytes::lowered(rest)
            =~= crate::bytes::lowered(content));
    } else {
        assert(crate::bytes::lowered(content) =~= Seq::empty());
    }
}

/// A parameter without a value is passed over.
pub proof fn blank_parameters_are_passed_over(
    before: Seq<u8>,
    name: Seq<u8>,
    blanks: Seq<u8>,
    rest: Seq<u8>,
)
    requires
        name.len() > 0,
        ByteClass::Token.has_all(name),
        ByteClass::HttpWhitespace.has_all(blanks),
        rest.len() > 0,
        rest[0] == ';' as u8,
    ensures
        ({
            let value = before + seq![';' as u8] + name + seq!['=' as u8] + blanks + rest;
            crate::mime::charset_parameter(value, before.len() as int)
                == crate::mime::charset_parameter(
                value,
                before.len() as int + 2 + name.len() + blanks.len(),
            )
        }),
{
    let value = before + seq![';' as u8] + name + seq!['=' as u8] + blanks + rest;
    let at = before.len() as int;
    let name_end = at + 1 + name.len() as int;
    let next = name_end + 1 + blanks.len() as int;
    tokens_have_no_separators(name);
    assert(value[at + 1] == name[0]);
    crate::byte_laws::run_ends_at(value, at + 1, ByteClass::HttpWhitespace, at + 1);
    let ends = ByteClass::Either(';' as u8, '=' as u8);
    assert forall|i: int| at + 1 <= i < name_end implies !ends.has(#[trigger] value[i]) by {
        assert(value[i] == name[i - at - 1]);
    }
    assert(value[name_end] == '=' as u8);
    crate::byte_laws::scan_ends_at(value, at + 1, ends, name_end);
    let semicolon = ByteClass::Exactly(';' as u8);
    assert forall|i: int| name_end + 1 <= i < next implies !semicolon.has(#[trigger] value[i]) by {
        assert(value[i] == blanks[i - name_end - 1]);
        assert(ByteClass::HttpWhitespace.has(blanks[i - name_end - 1]));
    }
    assert(value[next] == rest[0]);
    if blanks.len() > 0 {
        assert(value[name_end + 1] == blanks[0]);
        assert(ByteClass::HttpWhitespace.has(blanks[0]));
    } else {
        assert(value[name_end + 1] == rest[0]);
    }
    crate::byte_laws::scan_ends_at(value, name_end + 1, semicolon, next);
    assert(value.subrange(name_end + 1, next) =~= blanks);
    all_trails(blanks, ByteClass::HttpWhitespace);
}

/// Nothing stays of a text that only holds what is trimmed.
proof fn all_trails(text: Seq<u8>, class: ByteClass)
    requires
        class.has_all(text),
    ensures
        crate::bytes::without_trailing(text, class).len() == 0,
    decreases text.len(),
{
    if text.len() > 0 {
        assert(class.has(text[text.len() - 1]));
        assert forall|i: int| 0 <= i < text.drop_last().len() implies class.has(
            #[trigger] text.drop_last()[i],
        ) by {
            assert(class.has(text[i]));
        }
        all_trails(text.drop_last(), class);
    }
}

/// A parameter of a field line may have its value in quotes; what follows the
/// closing quote is the next parameter.
pub proof fn quoted_parameters_are_read(
    before: Seq<u8>,
    name: Seq<u8>,
    content: Seq<u8>,
    rest: Seq<u8>,
)
    requires
        name.len() > 0,
        ByteClass::Token.has_all(name),
        forall|i: int|
            0 <= i < content.len() ==> #[trigger] content[i] != '"' as u8 && content[i]
                != '\\' as u8,
        rest.len() > 0 ==> rest[0] == ';' as u8,
    ensures
        crate::content_type::parameter_at(
            before + seq![';' as u8] + name + seq!['=' as u8, '"' as u8] + content + seq![
                '"' as u8,
            ] + rest,
            before.len() as int,
        ) == Some(
            ContentTypeParameterModel {
                name,
                value: content,
                quoted: true,
                next: before.len() as int + 4 + name.len() + content.len(),
            },
        ),
{
    let value = before + seq![';' as u8] + name + seq!['=' as u8, '"' as u8] + content + seq![
        '"' as u8,
    ] + rest;
    let ows = ByteClass::OptionalWhitespace;
    let at = before.len() as int;
    let name_end = at + 1 + name.len() as int;
    let end = name_end + 2 + content.len() as int;
    tokens_have_no_separators(name);
    assert(value[at + 1] == name[0]);
    crate::byte_laws::run_ends_at(value, at + 1, ows, at + 1);
    assert forall|i: int| at + 1 <= i < name_end implies ByteClass::Token.has(
        #[trigger] value[i],
    ) by {
        assert(value[i] == name[i - at - 1]);
    }
    assert(value[name_end] == '=' as u8);
    assert(value[name_end + 1] == '"' as u8);
    crate::byte_laws::classes_are_ascii('=' as u8);
    crate::byte_laws::classes_are_ascii('"' as u8);
    crate::byte_laws::run_ends_at(value, at + 1, ByteClass::Token, name_end);
    crate::byte_laws::run_ends_at(value, name_end, ows, name_end);
    crate::byte_laws::run_ends_at(value, name_end + 1, ows, name_end + 1);
    assert forall|i: int| name_end + 2 <= i < end implies #[trigger] value[i] != '"' as u8
        && value[i] != '\\' as u8 by {
        assert(value[i] == content[i - name_end - 2]);
    }
    assert(value[end] == '"' as u8);
    plain_quoted(value, name_end + 2, end);
    if rest.len() > 0 {
        assert(value[end + 1] == rest[0]);
    }
    crate::byte_laws::classes_are_ascii(';' as u8);
    crate::byte_laws::run_ends_at(value, end + 1, ows, end + 1);
    assert(value.subrange(at + 1, name_end) =~= name);
    assert(value.subrange(name_end + 2, end) =~= content);
}

} // verus!
