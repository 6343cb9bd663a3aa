//! Policy fields depend on the URL parser only by the hosts that they name.

use vstd::prelude::*;

use crate::bytes::{ByteClass, COMMA, SEMICOLON};
use crate::csp_policy::{ListModel, ParserModel, PolicyReading, ReadingModel};
use crate::csp_source::CanonicalHosts;
use crate::web::WebScheme;

verus! {

/// Whether two answers of the URL parser agree on what a token asks.
pub open spec fn agree_on_token(
    token: Seq<u8>,
    scheme: WebScheme,
    left: CanonicalHosts,
    right: CanonicalHosts,
) -> bool {
    crate::csp_source::token_query(token, scheme) matches Some((asked, spelling)) ==> left.named(
        asked,
        spelling,
    ) == right.named(asked, spelling)
}

/// Whether two answers of the URL parser agree on all that a field asks.
pub open spec fn agree_on_field(
    field: Seq<u8>,
    scheme: WebScheme,
    left: CanonicalHosts,
    right: CanonicalHosts,
) -> bool {
    let asked = crate::csp_source::field_queries(field, scheme, 0, Seq::empty());
    forall|i: int|
        0 <= i < asked.len() ==> left.named((#[trigger] asked[i]).0, asked[i].1) == right.named(
            asked[i].0,
            asked[i].1,
        )
}

spec fn separates(byte: u8) -> bool {
    ByteClass::PolicySeparator.has(byte)
}

/// Whether the bytes from `start` to `end` are bounded by separators.
spec fn is_bounded(bytes: Seq<u8>, start: int, end: int) -> bool {
    &&& 0 <= start <= end <= bytes.len()
    &&& start == 0 || separates(bytes[start - 1])
    &&& end == bytes.len() || separates(bytes[end])
}

/// Whether the bytes from `start` to `end` are a token.
spec fn is_token(bytes: Seq<u8>, start: int, end: int) -> bool {
    &&& start < end
    &&& is_bounded(bytes, start, end)
    &&& forall|i: int| start <= i < end ==> !separates(#[trigger] bytes[i])
}

/// Whether answers agree on every token.
spec fn agree_on_tokens(
    bytes: Seq<u8>,
    scheme: WebScheme,
    left: CanonicalHosts,
    right: CanonicalHosts,
) -> bool {
    forall|start: int, end: int| #[trigger]
        is_token(bytes, start, end) ==> agree_on_token(
            bytes.subrange(start, end),
            scheme,
            left,
            right,
        )
}

/// What was asked stays asked.
proof fn asked_stays(
    field: Seq<u8>,
    scheme: WebScheme,
    from: int,
    asked: Seq<(WebScheme, Seq<u8>)>,
    query: (WebScheme, Seq<u8>),
)
    requires
        asked.contains(query),
    ensures
        crate::csp_source::field_queries(field, scheme, from, asked).contains(query),
    decreases field.len() - from,
{
    let start = crate::bytes::first_outside(field, from, ByteClass::PolicySeparator);
    let end = crate::bytes::first_in(field, start, ByteClass::PolicySeparator);
    if from >= 0 && start < field.len() {
        crate::bytes::first_outside_is_first(field, from, ByteClass::PolicySeparator);
        crate::bytes::first_in_is_first(field, start, ByteClass::PolicySeparator);
        match crate::csp_source::token_query(field.subrange(start, end), scheme) {
            Some(next) => {
                let i = choose|i: int| 0 <= i < asked.len() && asked[i] == query;
                assert(asked.push(next)[i] == query);
                asked_stays(field, scheme, end, asked.push(next), query);
            },
            None => asked_stays(field, scheme, end, asked, query),
        }
    }
}

/// Every token of a field is asked about.
proof fn token_is_asked(
    field: Seq<u8>,
    scheme: WebScheme,
    from: int,
    asked: Seq<(WebScheme, Seq<u8>)>,
    first: int,
    last: int,
)
    requires
        0 <= from <= first,
        is_token(field, first, last),
    ensures
        crate::csp_source::token_query(field.subrange(first, last), scheme) matches Some(query)
            ==> crate::csp_source::field_queries(field, scheme, from, asked).contains(query),
    decreases field.len() - from,
{
    let start = crate::bytes::first_outside(field, from, ByteClass::PolicySeparator);
    let end = crate::bytes::first_in(field, start, ByteClass::PolicySeparator);
    crate::bytes::first_outside_is_first(field, from, ByteClass::PolicySeparator);
    assert(!separates(field[first]));
    assert(start <= first);
    crate::bytes::first_in_is_first(field, start, ByteClass::PolicySeparator);
    let next = match crate::csp_source::token_query(field.subrange(start, end), scheme) {
        Some(query) => asked.push(query),
        None => asked,
    };
    if start == first {
        if end < last {
            assert(!separates(field[end]));
        }
        assert(end == last);
        if let Some(query) = crate::csp_source::token_query(field.subrange(first, last), scheme) {
            assert(next.last() == query);
            asked_stays(field, scheme, end, next, query);
        }
    } else {
        assert(separates(field[first - 1]));
        assert(end < first);
        token_is_asked(field, scheme, end, next, first, last);
    }
}

/// Answers that agree on what a field asks agree on its tokens.
proof fn fields_agree_on_tokens(
    field: Seq<u8>,
    scheme: WebScheme,
    left: CanonicalHosts,
    right: CanonicalHosts,
)
    requires
        agree_on_field(field, scheme, left, right),
    ensures
        agree_on_tokens(field, scheme, left, right),
{
    let asked = crate::csp_source::field_queries(field, scheme, 0, Seq::empty());
    assert forall|start: int, end: int| #[trigger] is_token(field, start, end) implies
        agree_on_token(field.subrange(start, end), scheme, left, right) by {
        token_is_asked(field, scheme, 0, Seq::empty(), start, end);
        if let Some(query) = crate::csp_source::token_query(field.subrange(start, end), scheme) {
            let i = choose|i: int| 0 <= i < asked.len() && asked[i] == query;
            assert(left.named(asked[i].0, asked[i].1) == right.named(asked[i].0, asked[i].1));
        }
    }
}

/// A bounded part has no other tokens than the whole.
proof fn parts_agree(
    bytes: Seq<u8>,
    start: int,
    end: int,
    scheme: WebScheme,
    left: CanonicalHosts,
    right: CanonicalHosts,
)
    requires
        is_bounded(bytes, start, end),
        agree_on_tokens(bytes, scheme, left, right),
    ensures
        agree_on_tokens(bytes.subrange(start, end), scheme, left, right),
{
    let part = bytes.subrange(start, end);
    assert forall|first: int, last: int| #[trigger] is_token(part, first, last) implies
        agree_on_token(part.subrange(first, last), scheme, left, right) by {
        assert forall|i: int| start + first <= i < start + last implies !separates(
            #[trigger] bytes[i],
        ) by {
            assert(part[i - start] == bytes[i]);
        }
        assert(is_token(bytes, start + first, start + last));
        assert(part.subrange(first, last) =~= bytes.subrange(start + first, start + last));
    }
}

/// Trimming whitespace leaves a bounded part.
proof fn trimming_is_bounded(bytes: Seq<u8>, class: ByteClass) -> (start: int)
    requires
        class is HttpWhitespace || class is AsciiWhitespace,
    ensures
        is_bounded(bytes, start, start + crate::bytes::trimmed(bytes, class).len()),
        crate::bytes::trimmed(bytes, class) == bytes.subrange(
            start,
            start + crate::bytes::trimmed(bytes, class).len(),
        ),
        start == crate::bytes::first_outside(bytes, 0, class),
{
    let start = crate::bytes::first_outside(bytes, 0, class);
    crate::bytes::first_outside_is_first(bytes, 0, class);
    let rest = crate::bytes::without_leading(bytes, class);
    crate::bytes::trimmed_is_part(rest, class);
    trimming_ends_at_separator(rest, class);
    let len = crate::bytes::trimmed(bytes, class).len();
    if start > 0 {
        assert(class.has(bytes[start - 1]));
    }
    if start + len < bytes.len() {
        assert(rest[len as int] == bytes[start + len]);
    }
    assert(crate::bytes::trimmed(bytes, class) =~= bytes.subrange(start, start + len));
    start
}

/// What is trimmed from the end belongs to the class.
proof fn trimming_ends_at_separator(bytes: Seq<u8>, class: ByteClass)
    ensures
        crate::bytes::without_trailing(bytes, class).len() < bytes.len() ==> class.has(
            bytes[crate::bytes::without_trailing(bytes, class).len() as int],
        ),
    decreases bytes.len(),
{
    if bytes.len() > 0 && class.has(bytes.last()) {
        crate::bytes::trimmed_is_part(bytes.drop_last(), class);
        trimming_ends_at_separator(bytes.drop_last(), class);
    }
}

/// Source lists read alike.
proof fn lists_agree(
    list: ListModel,
    reading: ReadingModel,
    other: CanonicalHosts,
    value: Seq<u8>,
    from: int,
)
    requires
        0 <= from <= value.len(),
        from == 0 || from == value.len() || ByteClass::AsciiWhitespace.has(value[from]),
        !value.contains(COMMA),
        !value.contains(SEMICOLON),
        agree_on_tokens(value, reading.document_scheme, reading.hosts, other),
    ensures
        list.after_all(reading, value, from) == list.after_all(
            ReadingModel { hosts: other, ..reading },
            value,
            from,
        ),
    decreases value.len() - from,
{
    let changed = ReadingModel { hosts: other, ..reading };
    let start = crate::bytes::first_outside(value, from, ByteClass::AsciiWhitespace);
    let end = crate::bytes::first_in(value, start, ByteClass::AsciiWhitespace);
    crate::bytes::first_outside_is_first(value, from, ByteClass::AsciiWhitespace);
    if start < value.len() {
        crate::bytes::first_in_is_first(value, start, ByteClass::AsciiWhitespace);
        let token = value.subrange(start, end);
        assert forall|i: int| start <= i < end implies !separates(#[trigger] value[i]) by {
            assert(!ByteClass::AsciiWhitespace.has(value[i]));
            assert(value.contains(value[i]));
        }
        if start > 0 {
            assert(start > from);
            assert(ByteClass::AsciiWhitespace.has(value[start - 1]));
        }
        assert(is_token(value, start, end));
        crate::csp_source::token_asks_once(token, reading.document_scheme, reading.hosts, other);
        assert(list.after(reading, token) == list.after(changed, token));
        if let Ok(next) = list.after(reading, token) {
            lists_agree(next, reading, other, value, end);
        }
    }
}

/// Directives read alike.
proof fn directives_agree(
    policy: PolicyReading,
    reading: ReadingModel,
    other: CanonicalHosts,
    serialized: Seq<u8>,
)
    requires
        !serialized.contains(COMMA),
        !serialized.contains(SEMICOLON),
        agree_on_tokens(serialized, reading.document_scheme, reading.hosts, other),
    ensures
        policy.after(reading, serialized) == policy.after(
            ReadingModel { hosts: other, ..reading },
            serialized,
        ),
{
    let scheme = reading.document_scheme;
    let name_end = crate::bytes::first_in(serialized, 0, ByteClass::AsciiWhitespace);
    crate::bytes::first_in_is_first(serialized, 0, ByteClass::AsciiWhitespace);
    let rest = serialized.subrange(name_end, serialized.len() as int);
    let value = crate::bytes::trimmed(rest, ByteClass::AsciiWhitespace);
    let start = trimming_is_bounded(rest, ByteClass::AsciiWhitespace);
    crate::bytes::first_outside_is_first(rest, 0, ByteClass::AsciiWhitespace);
    let end = start + value.len();
    assert(value =~= serialized.subrange(name_end + start, name_end + end));
    assert forall|i: int| 0 <= i < value.len() implies #[trigger] value[i] != COMMA && value[i]
        != SEMICOLON by {
        assert(serialized.contains(serialized[name_end + start + i]));
    }
    if value.len() > 0 {
        assert(rest[0] == serialized[name_end]);
        assert(start > 0);
        assert(rest[start - 1] == serialized[name_end + start - 1]);
        if end < rest.len() {
            assert(rest[end] == serialized[name_end + end]);
        }
        assert(is_bounded(serialized, name_end + start, name_end + end));
        parts_agree(serialized, name_end + start, name_end + end, scheme, reading.hosts, other);
    } else {
        assert(agree_on_tokens(value, scheme, reading.hosts, other));
    }
    let list = ListModel {
        sources: Seq::empty(),
        expressions: policy.parser.expressions,
        unsupported: policy.parser.unsupported,
        work: policy.work + 1,
    };
    lists_agree(list, reading, other, value, 0);
}

/// Policies read alike.
proof fn policies_agree(
    policy: PolicyReading,
    reading: ReadingModel,
    other: CanonicalHosts,
    member: Seq<u8>,
    from: int,
)
    requires
        0 <= from <= member.len(),
        from == 0 || member[from - 1] == SEMICOLON,
        !member.contains(COMMA),
        agree_on_tokens(member, reading.document_scheme, reading.hosts, other),
    ensures
        policy.after_all(reading, member, from) == policy.after_all(
            ReadingModel { hosts: other, ..reading },
            member,
            from,
        ),
    decreases member.len() - from,
{
    let scheme = reading.document_scheme;
    let end = crate::bytes::first_in(member, from, ByteClass::Exactly(SEMICOLON));
    crate::bytes::first_in_is_first(member, from, ByteClass::Exactly(SEMICOLON));
    let part = member.subrange(from, end);
    let serialized = crate::bytes::trimmed(part, ByteClass::AsciiWhitespace);
    let start = trimming_is_bounded(part, ByteClass::AsciiWhitespace);
    assert(is_bounded(member, from, end));
    parts_agree(member, from, end, scheme, reading.hosts, other);
    parts_agree(part, start, start + serialized.len(), scheme, reading.hosts, other);
    assert forall|i: int| 0 <= i < serialized.len() implies #[trigger] serialized[i] != COMMA
        && serialized[i] != SEMICOLON by {
        assert(serialized[i] == member[from + start + i]);
        assert(member.contains(member[from + start + i]));
        assert(!ByteClass::Exactly(SEMICOLON).has(member[from + start + i]));
    }
    directives_agree(policy, reading, other, serialized);
    if let Ok(next) = policy.after(reading, serialized) {
        if end < member.len() {
            policies_agree(next, reading, other, member, end + 1);
        }
    }
}

/// Members of a field read alike.
proof fn members_agree(
    parser: ParserModel,
    reading: ReadingModel,
    other: CanonicalHosts,
    field: Seq<u8>,
    from: int,
)
    requires
        0 <= from <= field.len(),
        from == 0 || field[from - 1] == COMMA,
        agree_on_tokens(field, reading.document_scheme, reading.hosts, other),
    ensures
        parser.after_field(reading, field, from) == parser.after_field(
            ReadingModel { hosts: other, ..reading },
            field,
            from,
        ),
    decreases field.len() - from,
{
    let scheme = reading.document_scheme;
    let end = crate::bytes::first_in(field, from, ByteClass::Exactly(COMMA));
    crate::bytes::first_in_is_first(field, from, ByteClass::Exactly(COMMA));
    let part = field.subrange(from, end);
    let member = crate::bytes::trimmed(part, ByteClass::HttpWhitespace);
    let start = trimming_is_bounded(part, ByteClass::HttpWhitespace);
    assert(is_bounded(field, from, end));
    parts_agree(field, from, end, scheme, reading.hosts, other);
    parts_agree(part, start, start + member.len(), scheme, reading.hosts, other);
    assert forall|i: int| 0 <= i < member.len() implies #[trigger] member[i] != COMMA by {
        assert(member[i] == field[from + start + i]);
        assert(!ByteClass::Exactly(COMMA).has(field[from + start + i]));
    }
    policies_agree(parser.started(member), reading, other, member, 0);
    assert(parser.after(reading, member) == parser.after(
        ReadingModel { hosts: other, ..reading },
        member,
    ));
    if end < field.len() {
        if let Ok(next) = parser.after(reading, member) {
            members_agree(next, reading, other, field, end + 1);
        }
    }
}

/// What fields say depends on the URL parser only by the spellings that the
/// fields ask it about.
pub proof fn fields_ask_once(
    parser: ParserModel,
    reading: ReadingModel,
    other: CanonicalHosts,
    fields: Seq<Seq<u8>>,
    from: int,
)
    requires
        forall|i: int|
            0 <= i < fields.len() ==> agree_on_field(
                #[trigger] fields[i],
                reading.document_scheme,
                reading.hosts,
                other,
            ),
    ensures
        parser.after_fields(reading, fields, from) == parser.after_fields(
            ReadingModel { hosts: other, ..reading },
            fields,
            from,
        ),
    decreases fields.len() - from,
{
    if 0 <= from < fields.len() {
        fields_agree_on_tokens(fields[from], reading.document_scheme, reading.hosts, other);
        members_agree(parser, reading, other, fields[from], 0);
        if let Ok(next) = parser.after_field(reading, fields[from], 0) {
            fields_ask_once(next, reading, other, fields, from + 1);
        }
    }
}

} // verus!
