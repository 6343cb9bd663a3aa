//! How the fields of a content security policy are taken apart.

use vstd::prelude::*;

use crate::bytes::ByteClass;
use crate::commit::CommitModel;
use crate::csp_policy::{
    ListModel, ParserModel, PolicyModel, PolicyReading, ReadingModel, RelevantDirective,
    StylePolicyError, StylePolicyInput, StylePolicyLimit,
};
use crate::csp_source::{CanonicalHosts, SourceModel};
use crate::identity::DocumentVersion;
use crate::style_policy::{PolicySetModel, StylePolicySet};
use crate::web::ParsedNavigation;

verus! {

/// The names of the directives, as bytes.
proof fn directive_bytes()
    ensures
        crate::bytes::text("base-uri"@).len() == 8,
        crate::bytes::text("style-src-elem"@).len() == 14,
        crate::bytes::text("style-src-elem"@)[10] == 0x65,
        crate::bytes::text("style-src"@).len() == 9,
        crate::bytes::text("style-src-attr"@).len() == 14,
        crate::bytes::text("style-src-attr"@)[10] == 0x61,
        crate::bytes::text("default-src"@).len() == 11,
        crate::bytes::text("'none'"@).len() == 6,
{
    reveal_strlit("base-uri");
    assert("base-uri".is_ascii());
    vstd::utf8::is_ascii_chars_encode_utf8("base-uri"@);
    reveal_strlit("style-src-elem");
    assert("style-src-elem".is_ascii());
    vstd::utf8::is_ascii_chars_encode_utf8("style-src-elem"@);
    reveal_strlit("style-src");
    assert("style-src".is_ascii());
    vstd::utf8::is_ascii_chars_encode_utf8("style-src"@);
    reveal_strlit("style-src-attr");
    assert("style-src-attr".is_ascii());
    vstd::utf8::is_ascii_chars_encode_utf8("style-src-attr"@);
    reveal_strlit("default-src");
    assert("default-src".is_ascii());
    vstd::utf8::is_ascii_chars_encode_utf8("default-src"@);
    reveal_strlit("'none'");
    assert("'none'".is_ascii());
    vstd::utf8::is_ascii_chars_encode_utf8("'none'"@);
}

/// Each directive that governs styles has exactly its own name, in any case.
pub proof fn directives_have_one_name(name: Seq<u8>)
    ensures
        crate::csp_policy::directive_of(name) == Some(RelevantDirective::BaseUri)
            <==> crate::bytes::same_word(name, crate::bytes::text("base-uri"@)),
        crate::csp_policy::directive_of(name) == Some(RelevantDirective::StyleSrcElem)
            <==> crate::bytes::same_word(name, crate::bytes::text("style-src-elem"@)),
        crate::csp_policy::directive_of(name) == Some(RelevantDirective::StyleSrc)
            <==> crate::bytes::same_word(name, crate::bytes::text("style-src"@)),
        crate::csp_policy::directive_of(name) == Some(RelevantDirective::StyleSrcAttr)
            <==> crate::bytes::same_word(name, crate::bytes::text("style-src-attr"@)),
        crate::csp_policy::directive_of(name) == Some(RelevantDirective::DefaultSrc)
            <==> crate::bytes::same_word(name, crate::bytes::text("default-src"@)),
{
    directive_bytes();
    let base = crate::bytes::text("base-uri"@);
    let elem = crate::bytes::text("style-src-elem"@);
    let style = crate::bytes::text("style-src"@);
    let attr = crate::bytes::text("style-src-attr"@);
    let default = crate::bytes::text("default-src"@);
    if crate::bytes::same_word(name, base) {
        crate::source_laws::same_letters(name, base);
    }
    if crate::bytes::same_word(name, elem) {
        crate::source_laws::same_letters(name, elem);
        assert(crate::bytes::lower(name[10]) == 0x65);
        crate::source_laws::differ_at(name, attr, 10);
    }
    if crate::bytes::same_word(name, style) {
        crate::source_laws::same_letters(name, style);
    }
    if crate::bytes::same_word(name, attr) {
        crate::source_laws::same_letters(name, attr);
    }
    if crate::bytes::same_word(name, default) {
        crate::source_laws::same_letters(name, default);
    }
}

/// Setting the list of one directive sets that one and no other.
pub proof fn lists_are_kept_apart(
    policy: PolicyModel,
    directive: RelevantDirective,
    other: RelevantDirective,
    sources: Seq<SourceModel>,
)
    ensures
        policy.with_list(directive, sources).list(directive) == Some(sources),
        other != directive ==> policy.with_list(directive, sources).list(other) == policy.list(
            other,
        ),
        PolicyModel::empty().list(directive) is None,
        policy.list(RelevantDirective::BaseUri) == policy.base_uri,
        policy.list(RelevantDirective::StyleSrcElem) == policy.style_src_elem,
        policy.list(RelevantDirective::StyleSrc) == policy.style_src,
        policy.list(RelevantDirective::StyleSrcAttr) == policy.style_src_attr,
        policy.list(RelevantDirective::DefaultSrc) == policy.default_src,
{
}

/// The recognized directives that do not govern styles.
pub proof fn other_directives_are_recognized(name: Seq<u8>)
    ensures
        ({
            let is = |word: Seq<char>| crate::bytes::same_word(name, crate::bytes::text(word));
            crate::csp_policy::is_neutral(name) <==> is("script-src"@) || is("script-src-elem"@)
                || is("script-src-attr"@) || is("object-src"@) || is("img-src"@) || is(
                "media-src"@,
            ) || is("frame-src"@) || is("child-src"@) || is("worker-src"@) || is("font-src"@)
                || is("connect-src"@) || is("manifest-src"@) || is("form-action"@) || is(
                "frame-ancestors"@,
            ) || is("sandbox"@) || is("report-uri"@) || is("report-to"@) || is(
                "upgrade-insecure-requests"@,
            ) || is("block-all-mixed-content"@) || is("require-trusted-types-for"@) || is(
                "trusted-types"@,
            )
        }),
{
}

/// One more token of a list: it is counted, charged and, unless it is `'none'`,
/// becomes the expression that it spells, behind the others.
pub proof fn tokens_become_expressions(list: ListModel, reading: ReadingModel, token: Seq<u8>)
    ensures
        ({
            let answer = list.after(reading, token);
            let source = crate::csp_source::source_of(
                token,
                reading.document_scheme,
                reading.hosts,
            );
            let none = crate::bytes::same_word(token, crate::bytes::text("'none'"@));
            &&& answer is Ok <==> list.expressions < 512 && token.len() <= 1024 && list.work
                + token.len() + 1 <= 17408
            &&& answer matches Ok(next) ==> {
                &&& next.expressions == list.expressions + 1
                &&& next.work == list.work + token.len() + 1
                &&& none ==> next.sources == list.sources && next.unsupported == list.unsupported
                &&& !none ==> next.sources == list.sources.push(source)
                &&& !none && source is Unsupported ==> next.unsupported == list.unsupported.push(
                    source->evidence,
                )
                &&& !none && !(source is Unsupported) ==> next.unsupported == list.unsupported
            }
            &&& list.expressions == 512 ==> answer == Err::<ListModel, _>(
                StylePolicyError::LimitExceeded {
                    input: StylePolicyInput::Aggregate,
                    limit: StylePolicyLimit::SourceExpressionCount,
                    actual: 513,
                    maximum: 512,
                },
            )
            &&& list.expressions < 512 && 1024 < token.len() <= usize::MAX ==> answer == Err::<
                ListModel,
                _,
            >(
                StylePolicyError::LimitExceeded {
                    input: reading.input,
                    limit: StylePolicyLimit::SourceTokenBytes,
                    actual: token.len() as usize,
                    maximum: 1024,
                },
            )
        }),
{
    assert(17 * 1024 == 17408);
}

/// A list without expressions admits nothing, and any other is what it holds.
pub proof fn empty_lists_admit_nothing(list: ListModel)
    ensures
        list.sources.len() == 0 ==> list.complete() == seq![SourceModel::DenyAll],
        list.sources.len() > 0 ==> list.complete() == list.sources,
        list.complete().len() > 0,
{
}

/// Reading tokens goes on alike behind another beginning.
proof fn tokens_of_part(
    list: ListModel,
    reading: ReadingModel,
    whole: Seq<u8>,
    offset: int,
    part: Seq<u8>,
    from: int,
)
    requires
        0 <= offset,
        0 <= from <= part.len(),
        offset + part.len() == whole.len(),
        part == whole.subrange(offset, whole.len() as int),
    ensures
        list.after_all(reading, whole, offset + from) == list.after_all(reading, part, from),
    decreases part.len() - from,
{
    let class = ByteClass::AsciiWhitespace;
    crate::byte_laws::first_outside_part(whole, offset, part, from, class);
    crate::bytes::first_outside_is_first(part, from, class);
    let start = crate::bytes::first_outside(part, from, class);
    if start < part.len() {
        crate::byte_laws::first_in_part(whole, offset, part, start, class);
        crate::bytes::first_in_is_first(part, start, class);
        let end = crate::bytes::first_in(part, start, class);
        assert(whole.subrange(offset + start, offset + end) =~= part.subrange(start, end));
        if let Ok(next) = list.after(reading, part.subrange(start, end)) {
            tokens_of_part(next, reading, whole, offset, part, end);
        }
    }
}

/// Whitespace separates expressions: a list reads as what stands in front of it
/// and then what stands behind it, in that order.
pub proof fn whitespace_separates_expressions(
    list: ListModel,
    reading: ReadingModel,
    left: Seq<u8>,
    space: u8,
    right: Seq<u8>,
    from: int,
)
    requires
        ByteClass::AsciiWhitespace.has(space),
        0 <= from <= left.len(),
    ensures
        list.after_all(reading, left + seq![space] + right, from) == match list.after_all(
            reading,
            left,
            from,
        ) {
            Err(error) => Err(error),
            Ok(next) => next.after_all(reading, right, 0),
        },
    decreases left.len() - from,
{
    let class = ByteClass::AsciiWhitespace;
    let whole = left + seq![space] + right;
    let at = left.len() as int;
    assert(left =~= whole.subrange(0, at));
    assert(whole[at] == space);
    crate::bytes::first_outside_is_first(left, from, class);
    let start = crate::bytes::first_outside(left, from, class);
    if start < left.len() {
        crate::byte_laws::first_outside_part(whole, 0, left, from, class);
        crate::byte_laws::first_in_part(whole, 0, left, start, class);
        crate::bytes::first_in_is_first(left, start, class);
        let end = crate::bytes::first_in(left, start, class);
        assert(whole.subrange(start, end) =~= left.subrange(start, end));
        if let Ok(next) = list.after(reading, left.subrange(start, end)) {
            whitespace_separates_expressions(next, reading, left, space, right, end);
        }
    } else {
        assert(whole.subrange(at + 1, whole.len() as int) =~= right);
        tokens_of_part(list, reading, whole, at + 1, right, 0);
        skipping_blank(list, reading, whole, from, at + 1);
    }
}

/// Blank before tokens does not matter.
proof fn skipping_blank(
    list: ListModel,
    reading: ReadingModel,
    value: Seq<u8>,
    from: int,
    to: int,
)
    requires
        0 <= from <= to <= value.len(),
        forall|i: int| from <= i < to ==> ByteClass::AsciiWhitespace.has(#[trigger] value[i]),
    ensures
        list.after_all(reading, value, from) == list.after_all(reading, value, to),
{
    let class = ByteClass::AsciiWhitespace;
    crate::bytes::first_outside_is_first(value, to, class);
    let start = crate::bytes::first_outside(value, to, class);
    assert forall|i: int| from <= i < start implies class.has(#[trigger] value[i]) by {}
    crate::byte_laws::run_ends_at(value, from, class, start);
}

/// One token without whitespace is one expression, and nothing is none.
pub proof fn one_token_is_one_expression(list: ListModel, reading: ReadingModel, token: Seq<u8>)
    requires
        forall|i: int|
            0 <= i < token.len() ==> !ByteClass::AsciiWhitespace.has(#[trigger] token[i]),
    ensures
        token.len() == 0 ==> list.after_all(reading, token, 0) == Ok::<_, StylePolicyError>(list),
        token.len() > 0 ==> list.after_all(reading, token, 0) == list.after(reading, token),
{
    let class = ByteClass::AsciiWhitespace;
    crate::byte_laws::run_ends_at(token, 0, class, 0);
    if token.len() > 0 {
        crate::byte_laws::scan_ends_at(token, 0, class, token.len() as int);
        assert(token.subrange(0, token.len() as int) =~= token);
        if let Ok(next) = list.after(reading, token) {
            crate::byte_laws::run_ends_at(
                token,
                token.len() as int,
                class,
                token.len() as int,
            );
            assert(next.after_all(reading, token, token.len() as int) == Ok::<_, StylePolicyError>(
                next,
            ));
        }
    }
}

/// One directive: the first of a name gives its list, another of that name is
/// only counted, a recognized one that does not govern styles only keeps the
/// policy, and an unknown one is only charged.
#[verifier::rlimit(50)]
#[verifier::spinoff_prover]
pub proof fn first_directive_of_a_name_counts(
    read: PolicyReading,
    reading: ReadingModel,
    name: Seq<u8>,
    space: u8,
    value: Seq<u8>,
)
    requires
        name.len() > 0,
        forall|i: int|
            0 <= i < name.len() ==> !ByteClass::AsciiWhitespace.has(#[trigger] name[i])
                && ByteClass::Directive.has(name[i]),
        ByteClass::AsciiWhitespace.has(space),
        ByteClass::Directive.has_all(value),
        read.directives < 128,
        read.work < 17408,
        read.parser.duplicates < usize::MAX,
    ensures
        ({
            let answer = read.after(reading, name + seq![space] + value);
            let list = ListModel {
                sources: Seq::empty(),
                expressions: read.parser.expressions,
                unsupported: read.parser.unsupported,
                work: read.work + 1,
            };
            let listed = list.after_all(
                reading,
                crate::bytes::trimmed(seq![space] + value, ByteClass::AsciiWhitespace),
                0,
            );
            match crate::csp_policy::directive_of(name) {
                Some(directive) => if read.policy.list(directive) is Some {
                    &&& answer matches Ok(next)
                    &&& next.policy == read.policy
                    &&& next.retained
                    &&& next.directives == read.directives + 1
                    &&& next.work == read.work + 1
                    &&& next.parser.duplicates == read.parser.duplicates + 1
                    &&& next.parser.expressions == read.parser.expressions
                } else {
                    match listed {
                        Err(error) => answer == Err::<PolicyReading, _>(error),
                        Ok(all) => {
                            &&& answer matches Ok(next)
                            &&& next.policy == read.policy.with_list(directive, all.complete())
                            &&& next.retained
                            &&& next.directives == read.directives + 1
                            &&& next.work == all.work
                            &&& next.parser.duplicates == read.parser.duplicates
                            &&& next.parser.expressions == all.expressions
                            &&& next.parser.unsupported == all.unsupported
                        },
                    }
                },
                None => {
                    &&& answer matches Ok(next)
                    &&& next.policy == read.policy
                    &&& next.parser == read.parser
                    &&& next.retained == (read.retained || crate::csp_policy::is_neutral(name))
                    &&& next.directives == read.directives + 1
                    &&& next.work == read.work + 1
                },
            }
        }),
{
    assert(17 * 1024 == 17408);
    let class = ByteClass::AsciiWhitespace;
    let serialized = name + seq![space] + value;
    let at = name.len() as int;
    assert forall|i: int| 0 <= i < at implies !class.has(#[trigger] serialized[i]) by {
        assert(serialized[i] == name[i]);
    }
    assert(serialized[at] == space);
    crate::byte_laws::scan_ends_at(serialized, 0, class, at);
    assert(serialized.subrange(0, at) =~= name);
    assert(serialized.subrange(at, serialized.len() as int) =~= seq![space] + value);
    assert forall|i: int| 0 <= i < serialized.len() implies ByteClass::Directive.has(
        #[trigger] serialized[i],
    ) by {
        if i < at {
            assert(serialized[i] == name[i]);
        } else if i > at {
            assert(serialized[i] == value[i - at - 1]);
        } else {
            crate::byte_laws::classes_are_ascii(space);
        }
    }
}

/// A directive of bytes that no directive has is charged and otherwise ignored,
/// an empty one is none, and there are at most so many.
pub proof fn directives_are_bounded(
    read: PolicyReading,
    reading: ReadingModel,
    serialized: Seq<u8>,
)
    ensures
        serialized.len() == 0 ==> read.after(reading, serialized) == Ok::<_, StylePolicyError>(
            read,
        ),
        serialized.len() > 0 && read.directives == 128 ==> read.after(reading, serialized)
            == Err::<PolicyReading, _>(
            StylePolicyError::LimitExceeded {
                input: reading.input,
                limit: StylePolicyLimit::DirectiveCount,
                actual: 129,
                maximum: 128,
            },
        ),
        serialized.len() > 0 && read.directives < 128 && read.work == 17408 ==> read.after(
            reading,
            serialized,
        ) == Err::<PolicyReading, _>(
            StylePolicyError::LimitExceeded {
                input: reading.input,
                limit: StylePolicyLimit::PolicyWork,
                actual: 17409,
                maximum: 17408,
            },
        ),
        serialized.len() > 0 && read.directives < 128 && read.work < 17408
            && !ByteClass::Directive.has_all(serialized) ==> (read.after(
            reading,
            serialized,
        ) matches Ok(next) && next.policy == read.policy && next.retained == read.retained
            && next.parser == read.parser && next.directives == read.directives + 1 && next.work
            == read.work + 1),
{
    assert(17 * 1024 == 17408);
}

/// Reading directives goes on alike behind another beginning.
#[verifier::rlimit(50)]
#[verifier::spinoff_prover]
proof fn directives_of_part(
    read: PolicyReading,
    reading: ReadingModel,
    whole: Seq<u8>,
    offset: int,
    part: Seq<u8>,
    from: int,
)
    requires
        0 <= offset,
        0 <= from <= part.len(),
        offset + part.len() == whole.len(),
        part == whole.subrange(offset, whole.len() as int),
    ensures
        read.after_all(reading, whole, offset + from) == read.after_all(reading, part, from),
    decreases part.len() - from,
{
    let class = ByteClass::Exactly(crate::bytes::SEMICOLON);
    crate::byte_laws::first_in_part(whole, offset, part, from, class);
    crate::bytes::first_in_is_first(part, from, class);
    let end = crate::bytes::first_in(part, from, class);
    assert(whole.subrange(offset + from, offset + end) =~= part.subrange(from, end));
    let serialized = crate::bytes::trimmed(
        part.subrange(from, end),
        ByteClass::AsciiWhitespace,
    );
    if let Ok(next) = read.after(reading, serialized) {
        if end < part.len() {
            directives_of_part(next, reading, whole, offset, part, end + 1);
        }
    }
}

/// A semicolon separates directives: a policy reads as what stands in front of
/// it and then what stands behind it, in that order.
#[verifier::rlimit(50)]
#[verifier::spinoff_prover]
pub proof fn semicolons_separate_directives(
    read: PolicyReading,
    reading: ReadingModel,
    left: Seq<u8>,
    right: Seq<u8>,
    from: int,
)
    requires
        0 <= from <= left.len(),
    ensures
        read.after_all(reading, left + seq![';' as u8] + right, from) == match read.after_all(
            reading,
            left,
            from,
        ) {
            Err(error) => Err(error),
            Ok(next) => next.after_all(reading, right, 0),
        },
    decreases left.len() - from,
{
    let class = ByteClass::Exactly(crate::bytes::SEMICOLON);
    let whole = left + seq![';' as u8] + right;
    let at = left.len() as int;
    assert(left =~= whole.subrange(0, at));
    assert(whole[at] == ';' as u8);
    crate::byte_laws::first_in_part(whole, 0, left, from, class);
    crate::bytes::first_in_is_first(left, from, class);
    let end = crate::bytes::first_in(left, from, class);
    assert(whole.subrange(from, end) =~= left.subrange(from, end));
    let serialized = crate::bytes::trimmed(
        left.subrange(from, end),
        ByteClass::AsciiWhitespace,
    );
    if let Ok(next) = read.after(reading, serialized) {
        if end < left.len() {
            semicolons_separate_directives(next, reading, left, right, end + 1);
        } else {
            assert(whole.subrange(at + 1, whole.len() as int) =~= right);
            directives_of_part(next, reading, whole, at + 1, right, 0);
        }
    }
}

/// What stands between semicolons is one directive, without the whitespace
/// around it.
pub proof fn one_directive_is_read_once(
    read: PolicyReading,
    reading: ReadingModel,
    part: Seq<u8>,
)
    requires
        !part.contains(';' as u8),
    ensures
        read.after_all(reading, part, 0) == read.after(
            reading,
            crate::bytes::trimmed(part, ByteClass::AsciiWhitespace),
        ),
{
    let class = ByteClass::Exactly(crate::bytes::SEMICOLON);
    assert forall|i: int| 0 <= i < part.len() implies !class.has(#[trigger] part[i]) by {
        if part[i] == ';' as u8 {
            assert(part.contains(';' as u8));
        }
    }
    crate::byte_laws::scan_ends_at(part, 0, class, part.len() as int);
    assert(part.subrange(0, part.len() as int) =~= part);
}

/// One member: it is counted, bounded, read from an empty policy on, and leaves
/// its policy behind the others exactly if it has a recognized directive.
pub proof fn members_become_policies(parser: ParserModel, reading: ReadingModel, member: Seq<u8>)
    ensures
        ({
            let answer = parser.after(reading, member);
            let start = PolicyReading {
                parser: ParserModel { members: parser.members + 1, ..parser },
                policy: PolicyModel::empty(),
                directives: 0,
                retained: false,
                work: member.len(),
            };
            let read = start.after_all(reading, member, 0);
            &&& parser.members == 16 ==> answer == Err::<ParserModel, _>(
                StylePolicyError::LimitExceeded {
                    input: StylePolicyInput::Aggregate,
                    limit: StylePolicyLimit::PolicyMemberCount,
                    actual: 17,
                    maximum: 16,
                },
            )
            &&& parser.members < 16 && 16384 < member.len() <= usize::MAX ==> answer == Err::<
                ParserModel,
                _,
            >(
                StylePolicyError::LimitExceeded {
                    input: reading.input,
                    limit: StylePolicyLimit::PolicyBytes,
                    actual: member.len() as usize,
                    maximum: 16384,
                },
            )
            &&& parser.members < 16 && member.len() <= 16384 ==> match read {
                Err(error) => answer == Err::<ParserModel, _>(error),
                Ok(done) => {
                    &&& answer matches Ok(next)
                    &&& next.members == done.parser.members
                    &&& next.expressions == done.parser.expressions
                    &&& next.duplicates == done.parser.duplicates
                    &&& next.unsupported == done.parser.unsupported
                    &&& done.retained ==> next.policies == done.parser.policies.push(done.policy)
                    &&& !done.retained ==> next.policies == done.parser.policies
                },
            }
        }),
{
    assert(16 * 1024 == 16384);
}

/// Reading members goes on alike behind another beginning.
#[verifier::rlimit(50)]
#[verifier::spinoff_prover]
proof fn members_of_part(
    parser: ParserModel,
    reading: ReadingModel,
    whole: Seq<u8>,
    offset: int,
    part: Seq<u8>,
    from: int,
)
    requires
        0 <= offset,
        0 <= from <= part.len(),
        offset + part.len() == whole.len(),
        part == whole.subrange(offset, whole.len() as int),
    ensures
        parser.after_field(reading, whole, offset + from) == parser.after_field(
            reading,
            part,
            from,
        ),
    decreases part.len() - from,
{
    let class = ByteClass::Exactly(crate::bytes::COMMA);
    crate::byte_laws::first_in_part(whole, offset, part, from, class);
    crate::bytes::first_in_is_first(part, from, class);
    let end = crate::bytes::first_in(part, from, class);
    assert(whole.subrange(offset + from, offset + end) =~= part.subrange(from, end));
    let member = crate::bytes::trimmed(part.subrange(from, end), ByteClass::HttpWhitespace);
    if end < part.len() {
        if let Ok(next) = parser.after(reading, member) {
            members_of_part(next, reading, whole, offset, part, end + 1);
        }
    }
}

/// A comma ends a member, an empty one too, and what stands behind it is read on;
/// only an empty member at the end of a field is none.
#[verifier::rlimit(50)]
#[verifier::spinoff_prover]
pub proof fn commas_separate_members(
    parser: ParserModel,
    reading: ReadingModel,
    member: Seq<u8>,
    right: Seq<u8>,
)
    requires
        !member.contains(',' as u8),
    ensures
        ({
            let bare = crate::bytes::trimmed(member, ByteClass::HttpWhitespace);
            &&& parser.after_field(reading, member + seq![',' as u8] + right, 0)
                == match parser.after(reading, bare) {
                Err(error) => Err(error),
                Ok(next) => next.after_field(reading, right, 0),
            }
            &&& bare.len() > 0 ==> parser.after_field(reading, member, 0) == parser.after(
                reading,
                bare,
            )
            &&& bare.len() == 0 ==> parser.after_field(reading, member, 0) == Ok::<
                _,
                StylePolicyError,
            >(parser)
        }),
{
    let class = ByteClass::Exactly(crate::bytes::COMMA);
    let whole = member + seq![',' as u8] + right;
    let at = member.len() as int;
    assert forall|i: int| 0 <= i < at implies !class.has(#[trigger] member[i]) && !class.has(
        whole[i],
    ) by {
        assert(whole[i] == member[i]);
        if member[i] == ',' as u8 {
            assert(member.contains(',' as u8));
        }
    }
    assert(whole[at] == ',' as u8);
    crate::byte_laws::scan_ends_at(member, 0, class, at);
    crate::byte_laws::scan_ends_at(whole, 0, class, at);
    assert(member.subrange(0, at) =~= member);
    assert(whole.subrange(0, at) =~= member);
    assert(whole.subrange(at + 1, whole.len() as int) =~= right);
    let bare = crate::bytes::trimmed(member, ByteClass::HttpWhitespace);
    if let Ok(next) = parser.after(reading, bare) {
        members_of_part(next, reading, whole, at + 1, right, 0);
    }
}

/// Fields are read in their order.
pub proof fn fields_are_read_in_order(
    parser: ParserModel,
    reading: ReadingModel,
    fields: Seq<Seq<u8>>,
    last: Seq<u8>,
    from: int,
)
    requires
        0 <= from <= fields.len(),
    ensures
        parser.after_fields(reading, fields.push(last), from) == match parser.after_fields(
            reading,
            fields,
            from,
        ) {
            Err(error) => Err(error),
            Ok(next) => next.after_field(reading, last, 0),
        },
    decreases fields.len() - from,
{
    let all = fields.push(last);
    if from < fields.len() {
        assert(all[from] == fields[from]);
        if let Ok(next) = parser.after_field(reading, fields[from], 0) {
            fields_are_read_in_order(next, reading, fields, last, from + 1);
        }
    } else {
        assert(all[from] == last);
        if let Ok(next) = parser.after_field(reading, last, 0) {
            assert(next.after_fields(reading, all, from + 1) == Ok::<_, StylePolicyError>(next));
        }
    }
}

/// Report-only fields never touch what is enforced: their policies stand beside
/// the enforcing ones with their counts on top, and a failure among them only
/// leaves its reason.
pub proof fn report_only_stands_beside(
    alone: PolicySetModel,
    report_only: ParserModel,
    failure: StylePolicyError,
)
    ensures
        ({
            let both = alone.with_report_only(report_only);
            &&& both.enforcing == alone.enforcing
            &&& both.report_only == report_only.policies
            &&& both.document == alone.document
            &&& both.navigation_commit == alone.navigation_commit
            &&& both.response_document_version == alone.response_document_version
            &&& both.members == report_only.members
            &&& both.expressions == report_only.expressions
            &&& both.duplicates == alone.duplicates + report_only.duplicates
            &&& both.unsupported == alone.unsupported + report_only.unsupported
            &&& both.report_only_parse_failure == alone.report_only_parse_failure
            &&& alone.without_report_only(failure) == (PolicySetModel {
                report_only_parse_failure: Some(failure),
                ..alone
            })
        }),
{
}

/// Only a URL that is its own canonical form is a candidate.
pub proof fn candidates_are_canonical(url: Seq<char>, parsed: ParsedNavigation)
    ensures
        crate::style_policy::candidate_error(url, Some(&parsed)) is None <==> parsed.identity@
            == url,
        parsed.identity@ != url ==> crate::style_policy::candidate_error(url, Some(&parsed))
            == Some(StylePolicyError::NonCanonicalCandidateUrl),
        crate::style_policy::candidate_error(url, None) == Some(
            StylePolicyError::InvalidCandidateUrl,
        ),
{
}

/// A set holds exactly what its enforcing fields say, read on their own under
/// the document's scheme; report-only fields neither refuse it nor change that.
/// Their policies come with counts that go on from the enforcing ones, or there
/// is none of them and a reason.
pub proof fn sets_hold_their_fields(
    result: Result<StylePolicySet, StylePolicyError>,
    version: DocumentVersion,
    commit: CommitModel,
    parsed: ParsedNavigation,
    enforcing_fields: Seq<Seq<u8>>,
    report_only_fields: Seq<Seq<u8>>,
    others: Seq<Seq<u8>>,
    hosts: CanonicalHosts,
)
    requires
        crate::style_policy::reads(
            result,
            version,
            commit,
            Some(parsed),
            enforcing_fields,
            report_only_fields,
            hosts,
        ),
    ensures
        ({
            let empty = ParserModel {
                policies: Seq::empty(),
                members: 0,
                expressions: 0,
                duplicates: 0,
                unsupported: Seq::empty(),
            };
            let reading = ReadingModel {
                input: StylePolicyInput::Enforcing,
                document_scheme: parsed.target@.origin.scheme,
                hosts,
            };
            let enforcing = empty.after_fields(reading, enforcing_fields, 0);
            &&& result is Err ==> crate::style_policy::reads(
                result,
                version,
                commit,
                Some(parsed),
                enforcing_fields,
                others,
                hosts,
            )
            &&& commit.general_web_error(Some(parsed)) is Some ==> (result matches Err(error)
                && error == StylePolicyError::InvalidDocumentCommit)
            &&& result matches Ok(set) ==> {
                &&& enforcing matches Ok(alone)
                &&& set@.enforcing == alone.policies
                &&& set@.document == parsed.target@
                &&& set@.navigation_commit == commit
                &&& set@.response_document_version == version
                &&& match set@.report_only_parse_failure {
                    Some(_) => set@.report_only.len() == 0 && set@.members == alone.members
                        && set@.expressions == alone.expressions && set@.duplicates
                        == alone.duplicates && set@.unsupported == alone.unsupported,
                    None => {
                        let beside = (ParserModel {
                            members: alone.members,
                            expressions: alone.expressions,
                            ..empty
                        }).after_fields(
                            (ReadingModel { input: StylePolicyInput::ReportOnly, ..reading }),
                            report_only_fields,
                            0,
                        );
                        &&& beside matches Ok(after)
                        &&& set@.report_only == after.policies
                        &&& set@.members == after.members
                        &&& set@.expressions == after.expressions
                        &&& set@.duplicates == alone.duplicates + after.duplicates
                        &&& set@.duplicates <= usize::MAX
                        &&& set@.unsupported == alone.unsupported + after.unsupported
                    },
                }
            }
        }),
{
}

/// A report-only field that can be read is held, except where its evidence finds
/// no memory or the duplicates are too many to count.
pub proof fn readable_report_only_is_held(
    set: PolicySetModel,
    alone: PolicySetModel,
    report_only: ParserModel,
)
    requires
        crate::style_policy::merges(set, alone, Ok(report_only)),
        alone.duplicates + report_only.duplicates <= usize::MAX,
        report_only.unsupported.len() == 0,
        alone.report_only_parse_failure is None,
    ensures
        set.report_only == report_only.policies,
        set.report_only_parse_failure is None,
{
}

} // verus!
