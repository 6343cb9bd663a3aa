//! What capturing the policy fields of a response is for, as relations between
//! the fields and what is captured.

use vstd::prelude::*;

use crate::bytes::{ByteClass, COMMA};
use crate::document_policy::{
    CaptureModel, DocumentPolicyError, DocumentPolicyField, DocumentPolicyLimit, ReferrerModel,
    ReferrerPolicyInput,
};
use crate::headers::FieldModel;

verus! {

/// Words of different lengths, or with different first letters, are different
/// words.
proof fn words_differ(token: Seq<u8>, left: Seq<u8>, right: Seq<u8>)
    requires
        left.len() != right.len() || (left.len() > 0 && crate::bytes::lower(left[0])
            != crate::bytes::lower(right[0])),
        crate::bytes::same_word(token, left),
    ensures
        !crate::bytes::same_word(token, right),
{
    let (a, b) = (crate::bytes::lowered(left), crate::bytes::lowered(right));
    if a == b {
        assert(a.len() == left.len() && b.len() == right.len());
        assert(a[0] == b[0]);
    }
}

/// Spellings of the referrer policies, as bytes.
proof fn policy_spellings()
    ensures
        crate::bytes::text("no-referrer"@).len() == 11,
        crate::bytes::text("no-referrer"@)[0] == 0x6e,
        crate::bytes::text("no-referrer-when-downgrade"@).len() == 26,
        crate::bytes::text("origin"@).len() == 6,
        crate::bytes::text("origin-when-cross-origin"@).len() == 24,
        crate::bytes::text("same-origin"@).len() == 11,
        crate::bytes::text("same-origin"@)[0] == 0x73,
        crate::bytes::text("strict-origin"@).len() == 13,
        crate::bytes::text("strict-origin-when-cross-origin"@).len() == 31,
        crate::bytes::text("unsafe-url"@).len() == 10,
{
    reveal_strlit("no-referrer");
    assert("no-referrer".is_ascii());
    vstd::utf8::is_ascii_chars_encode_utf8("no-referrer"@);
    reveal_strlit("no-referrer-when-downgrade");
    assert("no-referrer-when-downgrade".is_ascii());
    vstd::utf8::is_ascii_chars_encode_utf8("no-referrer-when-downgrade"@);
    reveal_strlit("origin");
    assert("origin".is_ascii());
    vstd::utf8::is_ascii_chars_encode_utf8("origin"@);
    reveal_strlit("origin-when-cross-origin");
    assert("origin-when-cross-origin".is_ascii());
    vstd::utf8::is_ascii_chars_encode_utf8("origin-when-cross-origin"@);
    reveal_strlit("same-origin");
    assert("same-origin".is_ascii());
    vstd::utf8::is_ascii_chars_encode_utf8("same-origin"@);
    reveal_strlit("strict-origin");
    assert("strict-origin".is_ascii());
    vstd::utf8::is_ascii_chars_encode_utf8("strict-origin"@);
    reveal_strlit("strict-origin-when-cross-origin");
    assert("strict-origin-when-cross-origin".is_ascii());
    vstd::utf8::is_ascii_chars_encode_utf8("strict-origin-when-cross-origin"@);
    reveal_strlit("unsafe-url");
    assert("unsafe-url".is_ascii());
    vstd::utf8::is_ascii_chars_encode_utf8("unsafe-url"@);
}

/// A token is recognized as a referrer policy exactly if it is that policy's
/// keyword, without regard to ASCII case.
pub proof fn each_policy_has_its_keyword(token: Seq<u8>)
    ensures
        crate::document_policy::referrer_policy_of(token) == Some(ReferrerPolicyInput::NoReferrer)
            <==> crate::bytes::same_word(token, crate::bytes::text("no-referrer"@)),
        crate::document_policy::referrer_policy_of(token) == Some(
            ReferrerPolicyInput::NoReferrerWhenDowngrade,
        ) <==> crate::bytes::same_word(token, crate::bytes::text("no-referrer-when-downgrade"@)),
        crate::document_policy::referrer_policy_of(token) == Some(ReferrerPolicyInput::Origin)
            <==> crate::bytes::same_word(token, crate::bytes::text("origin"@)),
        crate::document_policy::referrer_policy_of(token) == Some(
            ReferrerPolicyInput::OriginWhenCrossOrigin,
        ) <==> crate::bytes::same_word(token, crate::bytes::text("origin-when-cross-origin"@)),
        crate::document_policy::referrer_policy_of(token) == Some(ReferrerPolicyInput::SameOrigin)
            <==> crate::bytes::same_word(token, crate::bytes::text("same-origin"@)),
        crate::document_policy::referrer_policy_of(token) == Some(
            ReferrerPolicyInput::StrictOrigin,
        ) <==> crate::bytes::same_word(token, crate::bytes::text("strict-origin"@)),
        crate::document_policy::referrer_policy_of(token) == Some(
            ReferrerPolicyInput::StrictOriginWhenCrossOrigin,
        ) <==> crate::bytes::same_word(
            token,
            crate::bytes::text("strict-origin-when-cross-origin"@),
        ),
        crate::document_policy::referrer_policy_of(token) == Some(ReferrerPolicyInput::UnsafeUrl)
            <==> crate::bytes::same_word(token, crate::bytes::text("unsafe-url"@)),
{
    policy_spellings();
    let words = seq![
        crate::bytes::text("no-referrer"@),
        crate::bytes::text("no-referrer-when-downgrade"@),
        crate::bytes::text("origin"@),
        crate::bytes::text("origin-when-cross-origin"@),
        crate::bytes::text("same-origin"@),
        crate::bytes::text("strict-origin"@),
        crate::bytes::text("strict-origin-when-cross-origin"@),
        crate::bytes::text("unsafe-url"@),
    ];
    assert forall|i: int, j: int|
        #![trigger words[i], words[j]]
        0 <= i < 8 && 0 <= j < 8 && i != j && crate::bytes::same_word(
            token,
            words[i],
        ) implies !crate::bytes::same_word(token, words[j]) by {
        words_differ(token, words[i], words[j]);
    }
    assert(words[0] == crate::bytes::text("no-referrer"@));
    assert(words[1] == crate::bytes::text("no-referrer-when-downgrade"@));
    assert(words[2] == crate::bytes::text("origin"@));
    assert(words[3] == crate::bytes::text("origin-when-cross-origin"@));
    assert(words[4] == crate::bytes::text("same-origin"@));
    assert(words[5] == crate::bytes::text("strict-origin"@));
    assert(words[6] == crate::bytes::text("strict-origin-when-cross-origin"@));
    assert(words[7] == crate::bytes::text("unsafe-url"@));
}

/// Reading the tokens of the latter part of a value is reading that part.
proof fn tokens_of_part(read: ReferrerModel, whole: Seq<u8>, offset: int, from: int)
    requires
        0 <= offset <= whole.len(),
        0 <= from <= whole.len() - offset,
    ensures
        read.after_all(whole, offset + from) == read.after_all(
            whole.subrange(offset, whole.len() as int),
            from,
        ),
    decreases whole.len() - offset - from,
{
    let part = whole.subrange(offset, whole.len() as int);
    let class = ByteClass::Exactly(COMMA);
    crate::byte_laws::first_in_part(whole, offset, part, from, class);
    let end = crate::bytes::first_in(part, from, class);
    crate::bytes::first_in_is_first(part, from, class);
    assert(whole.subrange(offset + from, offset + end) =~= part.subrange(from, end));
    if end < part.len() {
        let token = crate::bytes::trimmed(part.subrange(from, end), ByteClass::AsciiWhitespace);
        if let Ok(next) = read.after(token) {
            tokens_of_part(next, whole, offset, end + 1);
        }
    }
}

/// A comma only separates: a value reads as what stands in front of the comma
/// and then what stands behind it, in that order.
pub proof fn commas_separate_policies(read: ReferrerModel, left: Seq<u8>, right: Seq<u8>, from: int)
    requires
        0 <= from <= left.len(),
    ensures
        read.after_all(left + seq![0x2cu8] + right, from) == match read.after_all(left, from) {
            Err(error) => Err(error),
            Ok(next) => next.after_all(right, 0),
        },
    decreases left.len() - from,
{
    let whole = left + seq![0x2cu8] + right;
    let class = ByteClass::Exactly(COMMA);
    assert(left =~= whole.subrange(0, left.len() as int));
    assert(whole[left.len() as int] == COMMA);
    crate::byte_laws::first_in_part(whole, 0, left, from, class);
    crate::bytes::first_in_is_first(left, from, class);
    let end = crate::bytes::first_in(left, from, class);
    assert(whole.subrange(from, end) =~= left.subrange(from, end));
    let token = crate::bytes::trimmed(left.subrange(from, end), ByteClass::AsciiWhitespace);
    if let Ok(next) = read.after(token) {
        if end < left.len() {
            commas_separate_policies(next, left, right, end + 1);
        } else {
            tokens_of_part(next, whole, left.len() as int + 1, 0);
            assert(whole.subrange(left.len() as int + 1, whole.len() as int) =~= right);
        }
    }
}

/// A value without a comma is one token: blank around it does not matter, an
/// empty one is none, a keyword is recognized behind the others, and anything
/// else is ignored but counted.
pub proof fn one_token_is_read_once(read: ReferrerModel, value: Seq<u8>)
    requires
        !value.contains(0x2cu8),
        read.tokens < 128,
        read.recognized.len() < 64,
    ensures
        ({
            let token = crate::bytes::trimmed(value, ByteClass::AsciiWhitespace);
            let policy = crate::document_policy::referrer_policy_of(token);
            &&& read.after_all(value, 0) matches Ok(next)
            &&& token.len() == 0 ==> next == read
            &&& token.len() > 0 ==> next.tokens == read.tokens + 1
            &&& token.len() > 0 && policy is Some ==> next.recognized == read.recognized.push(
                policy->0,
            ) && next.ignored_tokens == read.ignored_tokens
            &&& token.len() > 0 && policy is None ==> next.recognized == read.recognized
                && next.ignored_tokens == read.ignored_tokens + 1
        }),
{
    let class = ByteClass::Exactly(COMMA);
    crate::bytes::first_in_is_first(value, 0, class);
    let end = crate::bytes::first_in(value, 0, class);
    if end < value.len() {
        assert(value[end] == 0x2c);
    }
    assert(value.subrange(0, end) =~= value);
}

/// Bytes of byte strings together.
pub open spec fn total_bytes(values: Seq<Seq<u8>>) -> nat
    decreases values.len(),
{
    if values.len() == 0 {
        0
    } else {
        total_bytes(values.drop_last()) + values.last().len()
    }
}

/// What reading referrer policy fields one after the other comes to.
pub open spec fn read_in_order(values: Seq<Seq<u8>>) -> Result<ReferrerModel, DocumentPolicyError>
    decreases values.len(),
{
    if values.len() == 0 {
        Ok(ReferrerModel { recognized: Seq::empty(), ignored_tokens: 0, tokens: 0 })
    } else {
        match read_in_order(values.drop_last()) {
            Err(error) => Err(error),
            Ok(read) => read.after_all(values.last(), 0),
        }
    }
}

/// Whether `capture` holds exactly what these fields say: each policy value,
/// media type and referrer policy in the order of its fields, and of cookies
/// their number and bytes only.
pub open spec fn holds_exactly(capture: CaptureModel, fields: Seq<FieldModel>) -> bool {
    let enforcing = crate::headers::values_of(
        fields,
        crate::bytes::text("content-security-policy"@),
    );
    let report_only = crate::headers::values_of(
        fields,
        crate::bytes::text("content-security-policy-report-only"@),
    );
    let referrers = crate::headers::values_of(fields, crate::bytes::text("referrer-policy"@));
    let types = crate::headers::values_of(fields, crate::bytes::text("content-type"@));
    let cookies = crate::headers::values_of(fields, crate::bytes::text("set-cookie"@));
    &&& capture.enforcing_csp == enforcing
    &&& capture.report_only_csp == report_only
    &&& read_in_order(referrers) matches Ok(read)
    &&& capture.recognized == read.recognized
    &&& capture.ignored_tokens == read.ignored_tokens
    &&& capture.referrer_tokens == read.tokens
    &&& capture.referrer_fields == referrers.len()
    &&& capture.content_types == types.map_values(
        |value: Seq<u8>| crate::content_type::classified(value),
    )
    &&& capture.cookie_fields == cookies.len()
    &&& capture.cookie_bytes == total_bytes(cookies)
    &&& capture.csp_bytes == total_bytes(enforcing) + total_bytes(report_only)
    &&& capture.inspected_bytes == total_bytes(enforcing) + total_bytes(report_only) + total_bytes(
        referrers,
    ) + total_bytes(types) + total_bytes(cookies)
}

/// The names of the captured fields are five different ones.
proof fn names_differ()
    ensures
        crate::bytes::text("content-security-policy"@) != crate::bytes::text(
            "content-security-policy-report-only"@,
        ),
        crate::bytes::text("content-security-policy"@).len() == 23,
        crate::bytes::text("content-security-policy-report-only"@).len() == 35,
        crate::bytes::text("referrer-policy"@).len() == 15,
        crate::bytes::text("content-type"@).len() == 12,
        crate::bytes::text("set-cookie"@).len() == 10,
{
    reveal_strlit("content-security-policy");
    assert("content-security-policy".is_ascii());
    vstd::utf8::is_ascii_chars_encode_utf8("content-security-policy"@);
    reveal_strlit("content-security-policy-report-only");
    assert("content-security-policy-report-only".is_ascii());
    vstd::utf8::is_ascii_chars_encode_utf8("content-security-policy-report-only"@);
    reveal_strlit("referrer-policy");
    assert("referrer-policy".is_ascii());
    vstd::utf8::is_ascii_chars_encode_utf8("referrer-policy"@);
    reveal_strlit("content-type");
    assert("content-type".is_ascii());
    vstd::utf8::is_ascii_chars_encode_utf8("content-type"@);
    reveal_strlit("set-cookie");
    assert("set-cookie".is_ascii());
    vstd::utf8::is_ascii_chars_encode_utf8("set-cookie"@);
}

/// One more field is held as exactly as those before it.
proof fn one_more_field(capture: CaptureModel, fields: Seq<FieldModel>, field: FieldModel)
    requires
        holds_exactly(capture, fields),
        capture.after(field.name, field.value) is Ok,
    ensures
        holds_exactly(capture.after(field.name, field.value)->Ok_0, fields.push(field)),
{
    names_differ();
    let more = fields.push(field);
    assert(more.drop_last() =~= fields);
    assert(more.last() == field);
    let next = capture.after(field.name, field.value)->Ok_0;
    let names = seq![
        crate::bytes::text("content-security-policy"@),
        crate::bytes::text("content-security-policy-report-only"@),
        crate::bytes::text("referrer-policy"@),
        crate::bytes::text("content-type"@),
        crate::bytes::text("set-cookie"@),
    ];
    assert forall|i: int| 0 <= i < 5 implies #[trigger] crate::headers::values_of(more, names[i])
        == if field.name == names[i] {
        crate::headers::values_of(fields, names[i]).push(field.value)
    } else {
        crate::headers::values_of(fields, names[i])
    } by {}
    assert(crate::headers::values_of(more, names[0]) == if field.name == names[0] {
        crate::headers::values_of(fields, names[0]).push(field.value)
    } else {
        crate::headers::values_of(fields, names[0])
    });
    assert forall|i: int| 0 <= i < 5 && field.name == #[trigger] names[i] implies ({
        let values = crate::headers::values_of(more, names[i]);
        &&& values.drop_last() == crate::headers::values_of(fields, names[i])
        &&& values.last() == field.value
        &&& total_bytes(values) == total_bytes(crate::headers::values_of(fields, names[i]))
            + field.value.len()
    }) by {
        let values = crate::headers::values_of(more, names[i]);
        assert(values.drop_last() =~= crate::headers::values_of(fields, names[i]));
    }
    assert(names[0] == crate::bytes::text("content-security-policy"@));
    assert(names[1] == crate::bytes::text("content-security-policy-report-only"@));
    assert(names[2] == crate::bytes::text("referrer-policy"@));
    assert(names[3] == crate::bytes::text("content-type"@));
    assert(names[4] == crate::bytes::text("set-cookie"@));
    let types = crate::headers::values_of(more, names[3]);
    let classify = |value: Seq<u8>| crate::content_type::classified(value);
    if field.name == names[3] {
        assert(types.map_values(classify) =~= crate::headers::values_of(
            fields,
            names[3],
        ).map_values(classify).push(crate::content_type::classified(field.value)));
    }
    assert(next.content_types =~= types.map_values(classify));
}

/// Capturing on is as exact as what was captured before.
proof fn exact_so_far(capture: CaptureModel, fields: Seq<FieldModel>, from: int)
    requires
        0 <= from <= fields.len(),
        holds_exactly(capture, fields.take(from)),
    ensures
        capture.after_all(fields, from) matches Ok(next) ==> holds_exactly(next, fields),
    decreases fields.len() - from,
{
    if from < fields.len() {
        if let Ok(next) = capture.after(fields[from].name, fields[from].value) {
            one_more_field(capture, fields.take(from), fields[from]);
            assert(fields.take(from).push(fields[from]) =~= fields.take(from + 1));
            exact_so_far(next, fields, from + 1);
        }
    } else {
        assert(fields.take(from) =~= fields);
    }
}

/// What is captured of a response is exactly what its fields say.
pub proof fn capture_is_exact(fields: Seq<FieldModel>)
    ensures
        CaptureModel::empty().after_all(fields, 0) matches Ok(capture) ==> holds_exactly(
            capture,
            fields,
        ),
{
    let none = fields.take(0);
    assert(none =~= Seq::<FieldModel>::empty());
    assert(CaptureModel::empty().content_types =~= Seq::<Seq<u8>>::empty().map_values(
        |value: Seq<u8>| crate::content_type::classified(value),
    ));
    assert(holds_exactly(CaptureModel::empty(), none));
    exact_so_far(CaptureModel::empty(), fields, 0);
}

/// Greatest count or size of each bounded resource.
pub open spec fn greatest(field: DocumentPolicyField, limit: DocumentPolicyLimit) -> Option<nat> {
    match (field, limit) {
        (DocumentPolicyField::EnforcingContentSecurityPolicy, DocumentPolicyLimit::FieldCount)
        | (
            DocumentPolicyField::ReportOnlyContentSecurityPolicy,
            DocumentPolicyLimit::FieldCount,
        )
        | (DocumentPolicyField::ReferrerPolicy, DocumentPolicyLimit::FieldCount) => Some(16),
        (DocumentPolicyField::EnforcingContentSecurityPolicy, DocumentPolicyLimit::FieldBytes)
        | (
            DocumentPolicyField::ReportOnlyContentSecurityPolicy,
            DocumentPolicyLimit::FieldBytes,
        ) => Some(16384),
        (
            DocumentPolicyField::EnforcingContentSecurityPolicy,
            DocumentPolicyLimit::AggregateBytes,
        )
        | (
            DocumentPolicyField::ReportOnlyContentSecurityPolicy,
            DocumentPolicyLimit::AggregateBytes,
        ) => Some(32768),
        (DocumentPolicyField::ReferrerPolicy, DocumentPolicyLimit::FieldBytes)
        | (DocumentPolicyField::ContentType, DocumentPolicyLimit::FieldBytes) => Some(4096),
        (DocumentPolicyField::ReferrerPolicy, DocumentPolicyLimit::TokenCount) => Some(128),
        (DocumentPolicyField::ReferrerPolicy, DocumentPolicyLimit::RetainedInputCount) => Some(64),
        (DocumentPolicyField::ContentType, DocumentPolicyLimit::FieldCount) => Some(8),
        (DocumentPolicyField::ContentType, DocumentPolicyLimit::CharsetCount) => Some(16),
        (DocumentPolicyField::SetCookie, DocumentPolicyLimit::FieldCount) => Some(128),
        (DocumentPolicyField::SetCookie, DocumentPolicyLimit::AggregateBytes)
        | (DocumentPolicyField::Aggregate, DocumentPolicyLimit::AggregateBytes) => Some(65536),
        _ => None,
    }
}

/// Whether an error tells truthfully that a bound was exceeded.
pub open spec fn tells_truth(error: DocumentPolicyError) -> bool {
    error matches DocumentPolicyError::LimitExceeded { field, limit, actual, maximum } && {
        &&& greatest(field, limit) == Some(maximum as nat)
        &&& actual > maximum
    }
}

/// Reading referrer policies fails only over a bound.
proof fn referrers_fail_over_bounds(read: ReferrerModel, value: Seq<u8>, from: int)
    requires
        0 <= from,
        read.tokens <= 128,
        read.recognized.len() <= 64,
    ensures
        read.after_all(value, from) matches Err(error) ==> tells_truth(error),
    decreases value.len() + 1 - from,
{
    if from <= value.len() {
        let end = crate::bytes::first_in(value, from, ByteClass::Exactly(COMMA));
        crate::bytes::first_in_is_first(value, from, ByteClass::Exactly(COMMA));
        let token = crate::bytes::trimmed(value.subrange(from, end), ByteClass::AsciiWhitespace);
        if let Ok(next) = read.after(token) {
            if end < value.len() {
                referrers_fail_over_bounds(next, value, end + 1);
            }
        }
    }
}

/// Capturing on fails only over a bound.
proof fn capture_fails_over_bounds(capture: CaptureModel, fields: Seq<FieldModel>, from: int)
    requires
        0 <= from <= fields.len(),
        capture.bounded(),
        forall|i: int| 0 <= i < fields.len() ==> (#[trigger] fields[i]).value.len() <= u32::MAX / 2,
    ensures
        capture.after_all(fields, from) matches Err(error) ==> tells_truth(error),
        capture.after_all(fields, from) matches Ok(next) ==> next.bounded(),
    decreases fields.len() - from,
{
    if from < fields.len() {
        let (name, value) = (fields[from].name, fields[from].value);
        referrers_fail_over_bounds(
            ReferrerModel {
                recognized: capture.recognized,
                ignored_tokens: capture.ignored_tokens,
                tokens: capture.referrer_tokens,
            },
            value,
            0,
        );
        crate::document_policy::capture_stays_bounded(capture, name, value);
        if let Ok(next) = capture.after(name, value) {
            capture_fails_over_bounds(next, fields, from + 1);
        }
    }
}

/// A response whose fields fit in memory is refused only over a bound, and what
/// is captured lies inside all of them: at most 16 policy fields of each kind
/// with at most 32 KiB together, 16 referrer fields with at most 64 recognized
/// policies, 8 media types, 128 cookies, and 64 KiB in all.
pub proof fn capture_is_bounded(fields: Seq<FieldModel>)
    requires
        forall|i: int| 0 <= i < fields.len() ==> (#[trigger] fields[i]).value.len() <= u32::MAX / 2,
    ensures
        match CaptureModel::empty().after_all(fields, 0) {
            Err(error) => tells_truth(error),
            Ok(capture) => {
                &&& capture.enforcing_csp.len() <= 16
                &&& capture.report_only_csp.len() <= 16
                &&& capture.csp_bytes <= 32768
                &&& capture.referrer_fields <= 16
                &&& capture.recognized.len() <= 64
                &&& capture.content_types.len() <= 8
                &&& capture.cookie_fields <= 128
                &&& capture.inspected_bytes <= 65536
            },
        },
{
    capture_fails_over_bounds(CaptureModel::empty(), fields, 0);
}

/// A field of another name changes nothing of what is captured, wherever it
/// stands, and each captured name belongs to its own family.
pub proof fn other_fields_are_ignored(capture: CaptureModel, name: Seq<u8>, value: Seq<u8>)
    ensures
        name != crate::bytes::text("content-security-policy"@) && name != crate::bytes::text(
            "content-security-policy-report-only"@,
        ) && name != crate::bytes::text("referrer-policy"@) && name != crate::bytes::text(
            "content-type"@,
        ) && name != crate::bytes::text("set-cookie"@) ==> capture.after(name, value) == Ok::<
            _,
            DocumentPolicyError,
        >(capture),
{
}

/// A field that is refused before it is read is refused for just that; one that
/// is not refused so can only fail over the tokens or charsets in it.
pub proof fn refusals_agree(capture: CaptureModel, name: Seq<u8>, value: Seq<u8>)
    ensures
        capture.refusal(name, value) matches Some(error) ==> capture.after(name, value) == Err::<
            CaptureModel,
            _,
        >(error),
        capture.refusal(name, value) is None && !(capture.after(name, value) is Ok) ==> name
            == crate::bytes::text("referrer-policy"@) || name == crate::bytes::text(
            "content-type"@,
        ),
{
}

} // verus!
