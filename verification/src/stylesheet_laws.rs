//! What fetching the stylesheets of a document is for: who may fetch, which
//! targets and responses are admitted, and what is remembered of it.

use vstd::prelude::*;

use crate::bytes::ByteClass;
use crate::commit::{CommitModel, NavigationCommitValidationError, NavigationConnectionSecurity};
use crate::headers::FieldModel;
use crate::identity::{DocumentVersion, NavigationId};
use crate::style_body::{BodyBounds, BoundedBody};
use crate::style_document::{
    StyleDocumentAccessError, StyleDocumentAuthorityClass, StyleDocumentIssuance,
    StyleDocumentLifecycle, StyleDocumentStatus, StyleDocumentTransaction,
};
use crate::style_fetch::{
    StyleFetchBounds, StyleFetchLimit, StyleFetchLimits, StyleFetchOwnerError, StyleFetchRejection,
};
use crate::style_owner::{StyleFetchAuthorityCore, StyleFetchScope};
use crate::style_plan::{StyleResourceCandidate, StyleResourcePlan};
use crate::style_transaction::{
    ErrorPoint, ResponseHead, StyleFetchDiagnostic, StyleFetchDiagnosticKind, StyleFetchProgress,
    StyleFetchTransaction,
};
use crate::style_transport::{Checkpoint, RedirectTargetFailure, TransportFailure};
use crate::web::{
    ConnectionSecurity, HostModel, IpAddress, OriginModel, ParsedNavigation, WebOrigin, WebScheme,
    WebTarget,
};

verus! {

/// Only a cleartext target of an authenticated document is mixed content, and a
/// loopback host never is.
pub proof fn mixed_content_is_cleartext(document: WebScheme, target: OriginModel)
    ensures
        crate::style_transport::is_mixed_content(document, target) ==> document is Https
            && target.scheme is Http,
        document is Http || target.scheme is Https ==> !crate::style_transport::is_mixed_content(
            document,
            target,
        ),
        crate::style_transport::is_loopback(target.host)
            ==> !crate::style_transport::is_mixed_content(document, target),
        document is Https && target.scheme is Http && !crate::style_transport::is_loopback(
            target.host,
        ) ==> crate::style_transport::is_mixed_content(document, target),
{
}

/// The loopback addresses are the whole first block of the one kind and a single
/// one of the other.
pub proof fn loopback_addresses(first: u8, second: u8, third: u8, fourth: u8, wide: u128)
    ensures
        crate::style_transport::is_loopback(
            HostModel::Ip(IpAddress::V4(first, second, third, fourth)),
        ) <==> first == 127,
        crate::style_transport::is_loopback(HostModel::Ip(IpAddress::V6(wide))) <==> wide == 1,
{
}

/// The bytes of the two words.
proof fn localhost_bytes()
    ensures
        crate::bytes::text("localhost"@) == seq![
            0x6cu8,
            0x6f,
            0x63,
            0x61,
            0x6c,
            0x68,
            0x6f,
            0x73,
            0x74,
        ],
        crate::bytes::text(".localhost"@) == seq!['.' as u8] + crate::bytes::text("localhost"@),
{
    reveal_strlit("localhost");
    assert("localhost".is_ascii());
    vstd::utf8::is_ascii_chars_encode_utf8("localhost"@);
    assert(crate::bytes::text("localhost"@) =~= seq![
        0x6cu8,
        0x6f,
        0x63,
        0x61,
        0x6c,
        0x68,
        0x6f,
        0x73,
        0x74,
    ]);
    reveal_strlit(".localhost");
    assert(".localhost".is_ascii());
    vstd::utf8::is_ascii_chars_encode_utf8(".localhost"@);
    assert(crate::bytes::text(".localhost"@) =~= seq!['.' as u8] + crate::bytes::text(
        "localhost"@,
    ));
}

/// The name itself is a loopback host in any case, with or without a full stop at
/// its end, and so is each of its subdomains; a longer name that only ends like it
/// is none.
pub proof fn loopback_names(label: Seq<u8>, name: Seq<u8>)
    requires
        crate::bytes::same_word(name, crate::bytes::text("localhost"@)),
    ensures
        crate::style_transport::is_localhost(name),
        crate::style_transport::is_localhost(name + seq!['.' as u8]),
        crate::style_transport::is_localhost(label + seq!['.' as u8] + name),
        crate::style_transport::is_localhost(label + seq!['.' as u8] + name + seq!['.' as u8]),
        label.len() > 0 && label.last() != '.' as u8 ==> !crate::style_transport::is_localhost(
            label + name,
        ),
        !crate::style_transport::is_localhost(Seq::empty()),
{
    localhost_bytes();
    let word = crate::bytes::text("localhost"@);
    let dotted = crate::bytes::text(".localhost"@);
    let low = crate::bytes::lowered(name);
    assert(low == crate::bytes::lowered(word));
    assert(low.len() == name.len() && crate::bytes::lowered(word).len() == 9);
    assert(crate::bytes::lower(name[8]) == low[8]);
    assert(crate::bytes::lowered(word)[8] == 0x74);
    assert(name.last() != '.' as u8);
    let closed = name + seq!['.' as u8];
    assert(closed.drop_last() =~= name);
    let tail = seq!['.' as u8] + name;
    assert(crate::bytes::lowered(tail) =~= crate::bytes::lowered(dotted)) by {
        assert forall|i: int| 0 <= i < 10 implies crate::bytes::lower(tail[i])
            == crate::bytes::lower(dotted[i]) by {
            if i > 0 {
                assert(low[i - 1] == crate::bytes::lowered(word)[i - 1]);
            }
        }
    }
    let long = label + seq!['.' as u8] + name;
    assert(long.subrange(long.len() - 10, long.len() as int) =~= tail);
    let longer = long + seq!['.' as u8];
    assert(longer.drop_last() =~= long);
    if label.len() > 0 && label.last() != '.' as u8 {
        let joined = label + name;
        assert(joined.last() == name.last());
        let part = joined.subrange(joined.len() - 10, joined.len() as int);
        if crate::bytes::same_word(joined, word) {
            assert(crate::bytes::lowered(joined).len() == joined.len());
        }
        if crate::style_transport::ends_word(joined, dotted) {
            assert(part[0] == label.last());
            assert(crate::bytes::lowered(part)[0] == crate::bytes::lowered(dotted)[0]);
            assert(crate::bytes::lower(label.last()) == '.' as u8);
        }
    }
    let empty = Seq::<u8>::empty();
    if crate::bytes::same_word(empty, word) {
        assert(crate::bytes::lowered(empty).len() == 0);
    }
}

/// An operation goes on unless it was cancelled or its deadline passed, and a
/// cancellation is told first; it starts only with some time left, up to half a
/// minute.
pub proof fn operations_have_time(cancelled: bool, expired: bool, remaining: u128)
    ensures
        (Checkpoint { cancelled, expired }).rejection() is None <==> !cancelled && !expired,
        cancelled ==> (Checkpoint { cancelled, expired }).rejection() == Some(
            StyleFetchRejection::Cancelled,
        ),
        !cancelled && expired ==> (Checkpoint { cancelled, expired }).rejection() == Some(
            StyleFetchRejection::DeadlineExceeded,
        ),
        crate::style_transport::start_rejection(false, Some(remaining)) is None <==> 1 <= remaining
            <= 30_000_000_000,
        remaining > 30_000_000_000 ==> crate::style_transport::start_rejection(
            false,
            Some(remaining),
        ) == Some(StyleFetchRejection::DeadlineTooFar),
        crate::style_transport::start_rejection(false, None) == Some(
            StyleFetchRejection::DeadlineExceeded,
        ),
        crate::style_transport::start_rejection(false, Some(0)) == Some(
            StyleFetchRejection::DeadlineExceeded,
        ),
        crate::style_transport::start_rejection(true, Some(remaining)) == Some(
            StyleFetchRejection::Cancelled,
        ),
        crate::style_transport::start_rejection(true, None) == Some(
            StyleFetchRejection::Cancelled,
        ),
{
}

/// A failed exchange is told as what it was: a cancellation before the deadline,
/// the deadline before the network, and the network by the family of its failure.
pub proof fn exchanges_fail_as_what_they_were(failure: TransportFailure, observed: Checkpoint)
    ensures
        ({
            let told = crate::style_transport::failure_rejection(failure, observed);
            let family = crate::style_transport::family_of(failure);
            &&& told is Cancelled <==> observed.cancelled || failure is Cancelled
            &&& told is DeadlineExceeded <==> !observed.cancelled && !(failure is Cancelled)
                && observed.expired
            &&& told is Network <==> !observed.cancelled && !(failure is Cancelled)
                && !observed.expired
            &&& told is Network ==> told == StyleFetchRejection::Network(family)
            &&& family is RestrictedPort <==> failure is RestrictedPort
            &&& family is InitiatorEvidence <==> failure is InvalidInitiatorEvidence
            &&& family is LocalNetworkAccess <==> failure is LocalNetworkAccessDenied
            &&& family is Dns <==> failure is Dns
            &&& family is Connection <==> failure is Connection || failure is Timeout
            &&& family is Tls <==> failure is Tls
            &&& family is ResourceLimit <==> failure is Limit
            &&& family is HttpProtocol <==> failure is HttpProtocol || failure is RedirectRejected
            &&& family is Other <==> failure is Request || failure is Cancelled
        }),
{
}

/// Refused targets, issuances and transactions are answered with their cause.
pub proof fn refusals_name_their_cause(
    target: RedirectTargetFailure,
    access: StyleDocumentAccessError,
)
    ensures
        crate::style_transport::redirect_rejection(target) is RedirectCredentials <==> target
            is CredentialsNotAllowed,
        crate::style_transport::redirect_rejection(target) is RedirectScheme <==> target
            is UnsupportedScheme,
        crate::style_transport::redirect_rejection(target) is RedirectUrlBytes <==> target
            is UrlBytes,
        crate::style_transport::redirect_rejection(target) is RedirectLocationInvalid <==> target
            is Invalid,
        crate::style_transport::issuance_answer(access) is AuthorityUnavailable <==> access
            is Retired,
        crate::style_transport::issuance_answer(access) is ProductNavigationRequired <==> access
            is ProductNavigationRequired,
        crate::style_transport::issuance_answer(access) is NonProductDocumentRequired <==> access
            is NonProductNavigationBound,
        crate::style_transport::issuance_answer(access) is AuthorityAlreadyIssued <==> access
            is AlreadyIssued || access is TransactionActive || access is TransactionConsumed,
        crate::style_transport::transaction_answer(access) is DocumentNotCurrent <==> access
            is Retired,
        crate::style_transport::transaction_answer(access) is TransactionConsumed <==> access
            is TransactionConsumed,
        crate::style_transport::transaction_answer(access) is TransactionInProgress <==> access
            is TransactionActive,
        crate::style_transport::transaction_answer(access) is PlanOwnership <==> access
            is AlreadyIssued || access is ProductNavigationRequired || access
            is NonProductNavigationBound,
{
}

/// A body is admitted exactly within its own bound and that of all bodies; where
/// a body is admitted, each shorter one is.
pub proof fn bodies_are_bounded(bounds: BodyBounds, length: nat, shorter: nat)
    requires
        shorter <= length,
    ensures
        bounds.rejection(length) is None <==> length <= bounds.per_response
            && bounds.prior_aggregate + length <= bounds.aggregate,
        bounds.rejection(length) is None ==> bounds.rejection(shorter) is None,
        length > bounds.per_response ==> bounds.rejection(length) == Some(
            StyleFetchRejection::Limit(StyleFetchLimit::ResponseBodyBytes),
        ),
        length <= bounds.per_response && bounds.aggregate < bounds.prior_aggregate + length
            <= usize::MAX ==> bounds.rejection(length) == Some(
            StyleFetchRejection::Limit(StyleFetchLimit::AggregateBodyBytes),
        ),
{
}

/// Limits only narrow: they are accepted exactly up to the hard bounds, and a
/// refusal names the first field beyond its bound.
pub proof fn fetch_limits_only_narrow(bounds: StyleFetchBounds)
    ensures
        bounds.enlarged() is None <==> {
            &&& bounds.responses <= 64
            &&& bounds.response_body_bytes <= 2097152
            &&& bounds.aggregate_body_bytes <= 16777216
            &&& bounds.redirects <= 8
            &&& bounds.http_exchanges <= 256
            &&& bounds.diagnostics <= 1024
        },
        match bounds.enlarged() {
            None => true,
            Some(StyleFetchLimit::Responses) => bounds.responses > 64,
            Some(StyleFetchLimit::ResponseBodyBytes) => bounds.response_body_bytes > 2097152
                && bounds.responses <= 64,
            Some(StyleFetchLimit::AggregateBodyBytes) => bounds.aggregate_body_bytes > 16777216
                && bounds.response_body_bytes <= 2097152,
            Some(StyleFetchLimit::Redirects) => bounds.redirects > 8
                && bounds.aggregate_body_bytes <= 16777216,
            Some(StyleFetchLimit::HttpExchanges) => bounds.http_exchanges > 256
                && bounds.redirects <= 8,
            Some(StyleFetchLimit::Diagnostics) => bounds.diagnostics > 1024
                && bounds.http_exchanges <= 256,
            Some(_) => false,
        },
        crate::style_fetch::MAX_STYLE_FETCH_AGGREGATE_HEADER_BYTES == 262144,
        crate::style_fetch::MAX_STYLE_FETCH_CHUNK_LINE_BYTES == 8192,
        crate::style_fetch::MAX_STYLE_FETCH_WIRE_HEADER_FIELDS == 256,
        crate::style_fetch::MAX_STYLE_FETCH_WIRE_BODY_BYTES == 8388608,
        crate::style_fetch::MAX_STYLE_FETCH_REQUEST_HEAD_BYTES == 65536,
        crate::style_fetch::MAX_STYLE_FETCH_REQUEST_HEADER_FIELDS == 0,
        crate::style_fetch::MAX_STYLE_FETCH_REQUEST_BODY_BYTES == 0,
        crate::style_fetch::MAX_STYLE_FETCH_INFORMATIONAL_RESPONSES == 8,
        crate::style_fetch::MAX_STYLE_FETCH_DNS_CANDIDATES == 32,
        crate::style_fetch::MAX_STYLE_FETCH_CONNECTION_ATTEMPTS == 16,
        crate::style_fetch::MAX_STYLE_FETCH_TLS_HANDSHAKE_BYTES == 1048576,
        crate::style_fetch::STYLE_FETCH_CONNECT_TIMEOUT_SECONDS == 2,
        crate::style_fetch::STYLE_FETCH_READ_TIMEOUT_SECONDS == 5,
        crate::style_fetch::STYLE_FETCH_WRITE_TIMEOUT_SECONDS == 5,
        crate::style_fetch::STYLE_FETCH_DNS_TIMEOUT_SECONDS == 5,
        crate::style_fetch::STYLE_FETCH_TLS_HANDSHAKE_TIMEOUT_SECONDS == 10,
        crate::style_fetch::BODY_READ_CHUNK_BYTES == 16384,
{
    assert(2 * 1024 * 1024 == 2097152 && 16 * 1024 * 1024 == 16777216);
    assert(8 * 1024 * 1024 == 8388608 && 256 * 1024 == 262144);
}

/// A count grows exactly while it is below its bound.
pub proof fn counts_grow_to_their_bound(current: usize, maximum: usize, limit: StyleFetchLimit)
    ensures
        crate::style_transaction::growth_rejection(current, maximum, limit) is None <==> current
            < maximum,
        maximum <= current < usize::MAX ==> crate::style_transaction::growth_rejection(
            current,
            maximum,
            limit,
        ) == Some(StyleFetchRejection::Limit(limit)),
{
}

/// A head leads to its body exactly with a status of the two hundreds that is no
/// redirect, over a connection that is authenticated exactly where the target asks
/// for it.
pub proof fn heads_lead_to_bodies(head: ResponseHead, target: WebTarget, observed: Checkpoint)
    ensures
        ({
            let answer = head.rejection(target, observed);
            let going = !observed.cancelled && !observed.expired;
            let agrees = (head.security is Tls) == (target.origin.scheme is Https);
            &&& answer is None && !head.is_redirect <==> going && agrees && !head.is_redirect
                && head.status / 100 == 2
            &&& going && !agrees <==> answer == Some(StyleFetchRejection::TransportSecurityMismatch)
            &&& going && agrees && !head.is_redirect && head.status / 100 == 3 <==> answer == Some(
                StyleFetchRejection::UnsupportedRedirectStatus,
            )
            &&& going && agrees && !head.is_redirect && head.status / 100 != 2 && head.status / 100
                != 3 <==> answer == Some(StyleFetchRejection::HttpStatus)
            &&& going && agrees && head.is_redirect ==> (answer is None
                <==> crate::style_response::redirect_location(head.headers@) is Ok)
        }),
{
    locations_are_refused_for_themselves(head.headers@);
}

/// A location is refused only for what is wrong with it.
proof fn locations_are_refused_for_themselves(headers: Seq<FieldModel>)
    ensures
        crate::style_response::redirect_location(headers) matches Err(rejection) ==> rejection
            is RedirectLocationMissing || rejection is RedirectLocationConflict || rejection
            is RedirectLocationNonUtf8,
{
}

/// A redirect leads where its location fields agree to, without the whitespace
/// around them: a second field with the same value changes nothing, one with
/// another value makes them a conflict.
pub proof fn locations_agree(
    headers: Seq<FieldModel>,
    left: Seq<u8>,
    place: Seq<u8>,
    right: Seq<u8>,
    other: Seq<u8>,
)
    requires
        crate::headers::values_of(headers, crate::bytes::text("location"@)).len() == 0,
        ByteClass::OptionalWhitespace.has_all(left),
        ByteClass::OptionalWhitespace.has_all(right),
        place.len() > 0 ==> !ByteClass::OptionalWhitespace.has(place[0])
            && !ByteClass::OptionalWhitespace.has(place.last()),
        other != place,
        other.len() > 0 ==> !ByteClass::OptionalWhitespace.has(other[0])
            && !ByteClass::OptionalWhitespace.has(other.last()),
    ensures
        ({
            let name = crate::bytes::text("location"@);
            let bare = FieldModel { name, value: place };
            let spaced = FieldModel { name, value: left + place + right };
            let conflicting = FieldModel { name, value: other };
            let told = match crate::text::utf8_text(place) {
                Some(text) => Ok(text),
                None => Err(StyleFetchRejection::RedirectLocationNonUtf8),
            };
            &&& crate::style_response::redirect_location(headers) == Err::<Seq<char>, _>(
                StyleFetchRejection::RedirectLocationMissing,
            )
            &&& crate::style_response::redirect_location(headers.push(spaced)) == told
            &&& crate::style_response::redirect_location(headers.push(bare).push(spaced)) == told
            &&& crate::style_response::redirect_location(headers.push(bare).push(conflicting))
                == Err::<Seq<char>, _>(StyleFetchRejection::RedirectLocationConflict)
        }),
{
    let name = crate::bytes::text("location"@);
    let bare = FieldModel { name, value: place };
    let spaced = FieldModel { name, value: left + place + right };
    let conflicting = FieldModel { name, value: other };
    crate::byte_laws::trimming_is_exact(left, place, right, ByteClass::OptionalWhitespace);
    crate::byte_laws::trimming_keeps(place, ByteClass::OptionalWhitespace);
    crate::byte_laws::trimming_keeps(other, ByteClass::OptionalWhitespace);
    assert(headers.push(spaced).drop_last() =~= headers);
    assert(headers.push(bare).drop_last() =~= headers);
    assert(headers.push(bare).push(spaced).drop_last() =~= headers.push(bare));
    assert(headers.push(bare).push(conflicting).drop_last() =~= headers.push(bare));
    let none = crate::headers::values_of(headers, name);
    assert(none =~= Seq::empty());
    let one = crate::headers::values_of(headers.push(spaced), name);
    assert(one =~= seq![left + place + right]);
    let two = crate::headers::values_of(headers.push(bare).push(spaced), name);
    assert(crate::headers::values_of(headers.push(bare), name) =~= seq![place]);
    assert(two =~= seq![place, left + place + right]);
    let both = crate::headers::values_of(headers.push(bare).push(conflicting), name);
    assert(both =~= seq![place, other]);
    assert(both[1] == other && both[0] == place);
}

/// A redirect is followed exactly to a URL of a bounded length that was not
/// visited before, that is no mixed content, that keeps to the first origin where
/// policies were enforced, and while redirects are left. Of several objections
/// the earlier one in this order is told.
pub proof fn redirects_pass_their_gates(
    progress: StyleFetchProgress,
    limits: StyleFetchLimits,
    document: WebOrigin,
    enforced: bool,
    next: WebTarget,
    max_url_bytes: usize,
)
    ensures
        ({
            let answer = progress.redirect_rejection(
                limits,
                document,
                enforced,
                Ok(next),
                max_url_bytes,
            );
            let long = crate::bytes::text(next.url@).len() > max_url_bytes;
            let mixed = document.scheme is Https && next.origin@.scheme is Http
                && !crate::style_transport::is_loopback(next.origin@.host);
            let strays = enforced && next.origin@ != progress.initial_origin@;
            let repeats = exists|i: int|
                0 <= i < progress.visited@.len() && (#[trigger] progress.visited@[i])@ == next.url@;
            let spent = progress.redirect_count >= limits@.redirects;
            &&& answer is None <==> !long && !mixed && !strays && !repeats && !spent
            &&& long ==> answer == Some(StyleFetchRejection::RedirectUrlBytes)
            &&& !long && mixed ==> answer == Some(StyleFetchRejection::MixedContent)
            &&& !long && !mixed && strays ==> answer == Some(
                StyleFetchRejection::CrossOriginPolicyUnproven,
            )
            &&& !long && !mixed && !strays && repeats ==> answer == Some(
                StyleFetchRejection::RedirectLoop,
            )
            &&& !long && !mixed && !strays && !repeats && spent && progress.redirect_count
                < usize::MAX ==> answer == Some(
                StyleFetchRejection::Limit(StyleFetchLimit::Redirects),
            )
        }),
{
}

/// A request is started exactly for its own document, if no policy blocks it,
/// and its first target is exactly its canonical URL and no mixed content.
pub proof fn requests_are_their_own(
    plan: StyleResourcePlan,
    index: int,
    observed: Checkpoint,
    origin: WebOrigin,
    parsed: ParsedNavigation,
)
    requires
        0 <= index < plan.requests@.len(),
    ensures
        ({
            let request = plan.requests@[index];
            let answer = plan.request_rejection(index, observed);
            let target = request.target_rejection(origin, Some(&parsed));
            let mixed = origin.scheme is Https && parsed.target.origin@.scheme is Http
                && !crate::style_transport::is_loopback(parsed.target.origin@.host);
            let own = parsed.identity@ == request.canonical_url@ && parsed.target.url@
                == request.canonical_url@;
            &&& answer is None <==> {
                &&& !observed.cancelled && !observed.expired
                &&& request.document_version == plan.document_version
                &&& request.owner.document_id == plan.document_version.document_id
                &&& request.policy_decision.enforcing_blocked_policies == 0
            }
            &&& answer matches Some(rejection) ==> rejection is Cancelled || rejection
                is DeadlineExceeded || rejection is PlanOwnership
            &&& target is None <==> own && !mixed
            &&& !own ==> target == Some(StyleFetchRejection::PlanOwnership)
            &&& own && mixed ==> target == Some(StyleFetchRejection::MixedContent)
            &&& request.target_rejection(origin, None) == Some(StyleFetchRejection::PlanOwnership)
        }),
{
}

/// Requests of a coherent plan are its admitted candidates in order: the first
/// admitted one is the first request, each later one the next, and each belongs
/// to the plan's document.
pub proof fn plans_are_coherent(plan: StyleResourcePlan, first: int, second: int)
    requires
        plan.coherent(),
        0 <= first < second < plan.candidates@.len(),
        plan.candidates@[first].status is Admitted,
        plan.candidates@[second].status is Admitted,
    ensures
        ({
            let left = plan.candidates@[first].status->request_index;
            let right = plan.candidates@[second].status->request_index;
            &&& left < right < plan.requests@.len()
            &&& (forall|i: int|
                first < i < second ==> !((#[trigger] plan.candidates@[i]).status is Admitted))
                ==> right == left + 1
            &&& plan.requests@[left as int].owner == plan.candidates@[first].owner
            &&& plan.requests@[left as int].document_version == plan.document_version
            &&& plan.candidates@[first].policy_decision == Some(
                plan.requests@[left as int].policy_decision,
            )
            &&& plan.candidates@[first].owner.document_id == plan.document_version.document_id
            &&& plan.requests@.len() <= plan.candidates@.len()
        }),
{
    assert(plan.candidate_fits(first));
    assert(plan.candidate_fits(second));
    admitted_grow(plan.candidates@, first + 1, second);
    admitted_grow(plan.candidates@, 0, plan.candidates@.len() as int);
    if forall|i: int| first < i < second ==> !((#[trigger] plan.candidates@[i]).status is Admitted) {
        admitted_stay(plan.candidates@, first + 1, second);
    }
}

/// The number of admitted candidates grows by at most one with each.
proof fn admitted_grow(candidates: Seq<StyleResourceCandidate>, from: int, to: int)
    requires
        0 <= from <= to <= candidates.len(),
    ensures
        crate::style_plan::admitted_among(candidates, from) <= crate::style_plan::admitted_among(
            candidates,
            to,
        ) <= crate::style_plan::admitted_among(candidates, from) + (to - from),
    decreases to - from,
{
    if from < to {
        admitted_grow(candidates, from, to - 1);
    }
}

/// Without an admitted candidate the number stays.
proof fn admitted_stay(candidates: Seq<StyleResourceCandidate>, from: int, to: int)
    requires
        0 <= from <= to <= candidates.len(),
        forall|i: int| from <= i < to ==> !((#[trigger] candidates[i]).status is Admitted),
    ensures
        crate::style_plan::admitted_among(candidates, from) == crate::style_plan::admitted_among(
            candidates,
            to,
        ),
    decreases to - from,
{
    if from < to {
        admitted_stay(candidates, from, to - 1);
    }
}

/// An observation that counts is kept last wherever there is room, or where one
/// that counts for nothing else can give way; all others keep their order. One
/// that counts for nothing else never displaces another.
pub proof fn observations_that_count_are_kept(
    before: Seq<StyleFetchDiagnostic>,
    report_only: StyleFetchDiagnostic,
    after: Seq<StyleFetchDiagnostic>,
    new: StyleFetchDiagnostic,
    maximum: usize,
)
    requires
        report_only.kind is ReportOnlyWouldBlock,
        forall|i: int|
            0 <= i < before.len() ==> !((#[trigger] before[i]).kind is ReportOnlyWouldBlock),
        maximum > 0,
    ensures
        before.len() < maximum ==> crate::style_transaction::with_authoritative(
            before,
            new,
            maximum,
        ) == before.push(new),
        before.len() >= maximum ==> crate::style_transaction::with_authoritative(
            before,
            new,
            maximum,
        ) == before,
        before.len() + 1 + after.len() >= maximum ==> crate::style_transaction::with_authoritative(
            before.push(report_only) + after,
            new,
            maximum,
        ) == (before + after).push(new),
        before.len() < maximum ==> crate::style_transaction::with_report_only(before, new, maximum)
            == before.push(new),
        before.len() >= maximum ==> crate::style_transaction::with_report_only(before, new, maximum)
            == before,
        crate::style_transaction::with_authoritative(before, new, 0) == before,
{
    none_before(before, 0);
    let all = before.push(report_only) + after;
    first_stands_at(all, 0, before.len() as int);
    assert(all.remove(before.len() as int) =~= before + after);
}

/// Without a report-only observation none is found.
proof fn none_before(diagnostics: Seq<StyleFetchDiagnostic>, from: int)
    requires
        0 <= from <= diagnostics.len(),
        forall|i: int|
            0 <= i < diagnostics.len() ==> !((
            #[trigger] diagnostics[i]).kind is ReportOnlyWouldBlock),
    ensures
        crate::style_transaction::first_report_only(diagnostics, from) == diagnostics.len(),
    decreases diagnostics.len() - from,
{
    if from < diagnostics.len() {
        none_before(diagnostics, from + 1);
    }
}

/// The first report-only observation is found.
proof fn first_stands_at(diagnostics: Seq<StyleFetchDiagnostic>, from: int, at: int)
    requires
        0 <= from <= at < diagnostics.len(),
        diagnostics[at].kind is ReportOnlyWouldBlock,
        forall|i: int|
            0 <= i < at ==> !((#[trigger] diagnostics[i]).kind is ReportOnlyWouldBlock),
    ensures
        crate::style_transaction::first_report_only(diagnostics, from) == at,
    decreases at - from,
{
    if from < at {
        assert(!(diagnostics[from].kind is ReportOnlyWouldBlock));
        first_stands_at(diagnostics, from + 1, at);
    }
}

/// What happens is told of the request that it happened to, at the redirect that
/// it happened behind.
pub proof fn points_name_requests(
    plan: StyleResourcePlan,
    index: usize,
    redirects: usize,
    rejection: StyleFetchRejection,
    kind: StyleFetchDiagnosticKind,
)
    requires
        index < plan.requests@.len(),
    ensures
        ({
            let request = plan.requests@[index as int];
            let point = ErrorPoint::of_request(index, request, redirects);
            let told = point.failing(rejection);
            let seen = point.observing(kind);
            &&& told.document_version == request.document_version
            &&& told.owner == Some(request.owner)
            &&& told.request_index == index
            &&& told.redirect_index == redirects
            &&& told.rejection == rejection
            &&& seen.document_version == request.document_version
            &&& seen.owner == request.owner
            &&& seen.request_index == index
            &&& seen.redirect_index == redirects
            &&& seen.kind == kind
            &&& ErrorPoint::of_start(plan).request_index == 0
            &&& ErrorPoint::of_start(plan).owner == Some(plan.requests@[0].owner)
            &&& ErrorPoint::of_start(plan).redirect_index == 0
        }),
{
}

/// The sole issuance of a document goes once to whoever it is for: the worker
/// once a navigation is bound, a direct caller as long as none is. Its
/// transaction begins once, runs until it ends, and never begins again.
pub proof fn documents_issue_once(
    ledger: StyleDocumentLifecycle,
    class: StyleDocumentAuthorityClass,
    other: StyleDocumentAuthorityClass,
    navigation: NavigationId,
)
    ensures
        ledger.issuance_error(class) is None <==> ledger.status == StyleDocumentStatus::Current(
            StyleDocumentIssuance::Available,
        ) && (class is Product <==> ledger.navigation is Some),
        ledger.issuance_error(class) is None ==> {
            let issued = ledger.with_transaction(class, StyleDocumentTransaction::Ready);
            let active = issued.with_transaction(class, StyleDocumentTransaction::Active);
            let ended = active.after_transaction(class);
            &&& issued.issuance_error(other) is Some
            &&& issued.transaction_error(class) is None
            &&& other != class ==> issued.transaction_error(other) == Some(
                StyleDocumentAccessError::AlreadyIssued,
            )
            &&& issued.after_transaction(class) == issued
            &&& !issued.runs_transaction()
            &&& active.runs_transaction()
            &&& active.transaction_error(class) == Some(
                StyleDocumentAccessError::TransactionActive,
            )
            &&& !ended.runs_transaction()
            &&& ended.transaction_error(class) == Some(
                StyleDocumentAccessError::TransactionConsumed,
            )
            &&& ended.after_transaction(class) == ended
            &&& ended.navigation == ledger.navigation
            &&& ended.issuance_error(other) is Some
        },
        ledger.retired().issuance_error(class) == Some(StyleDocumentAccessError::Retired),
        ledger.retired().transaction_error(class) == Some(StyleDocumentAccessError::Retired),
        ledger.retired().binding_error(navigation) == Some(StyleDocumentAccessError::Retired),
        ledger.retired().after_transaction(class) == ledger.retired(),
        ledger.retired().navigation == ledger.navigation,
{
}

/// A document is bound to one navigation, before anything is issued, and stays
/// with it.
pub proof fn documents_belong_to_one_navigation(
    ledger: StyleDocumentLifecycle,
    navigation: NavigationId,
    other: NavigationId,
)
    ensures
        ledger.binding_error(navigation) is None <==> !(ledger.status is Retired) && (
        ledger.navigation == Some(navigation) || (ledger.navigation is None && ledger.status
            == StyleDocumentStatus::Current(StyleDocumentIssuance::Available))),
        ledger.binding_error(navigation) is None ==> {
            let bound = StyleDocumentLifecycle { navigation: Some(navigation), ..ledger };
            &&& bound.binding_error(navigation) is None
            &&& other != navigation ==> bound.binding_error(other) == Some(
                StyleDocumentAccessError::ProductNavigationRequired,
            )
            &&& bound.issuance_error(StyleDocumentAuthorityClass::NonProduct) == Some(
                StyleDocumentAccessError::NonProductNavigationBound,
            )
        },
        ledger.navigation is None && !(ledger.status is Retired) ==> ledger.issuance_error(
            StyleDocumentAuthorityClass::Product,
        ) == Some(StyleDocumentAccessError::ProductNavigationRequired),
{
}

/// A commitment is coherent exactly with at most ten redirects, a final URL that
/// is its own canonical form, and evidence that is what its scheme calls for; it
/// authorizes the subresources of exactly the document that it is bound to, and
/// for the worker exactly on behalf of the navigation that owns its ledger.
pub proof fn commitments_authorize_their_document(
    commitment: CommitModel,
    version: DocumentVersion,
    parsed: ParsedNavigation,
    matches_authority: bool,
    navigation: NavigationId,
    bound: Option<NavigationId>,
)
    ensures
        ({
            let coherent = commitment.redirect_count <= 10 && parsed.identity@
                == commitment.final_url && match commitment.security {
                NavigationConnectionSecurity::Unverified => false,
                NavigationConnectionSecurity::Cleartext => parsed.target.origin.scheme is Http,
                NavigationConnectionSecurity::AuthenticatedTls { .. } =>
                    parsed.target.origin.scheme is Https,
            };
            let authorized = coherent && (commitment.response() matches Some(response)
                && response.security == crate::commit::transport_security(commitment.security))
                && matches_authority && commitment.document() == Some(version);
            &&& commitment.general_web_error(Some(parsed)) is None <==> coherent
            &&& commitment.general_web_error(None) is Some
            &&& commitment.subresource_error(version, Some(parsed), matches_authority) is None
                <==> authorized
            &&& commitment.navigation_error(
                navigation,
                version,
                Some(parsed),
                matches_authority,
                bound,
            ) is None <==> authorized && bound == Some(navigation)
            &&& commitment.redirect_count > 10 ==> commitment.general_web_error(Some(parsed))
                == Some(NavigationCommitValidationError::TooManyRedirects)
            &&& coherent && commitment.response() is None ==> commitment.subresource_error(
                version,
                Some(parsed),
                matches_authority,
            ) == Some(NavigationCommitValidationError::UnverifiedAddressSpace)
            &&& authorized && bound != Some(navigation) ==> commitment.navigation_error(
                navigation,
                version,
                Some(parsed),
                matches_authority,
                bound,
            ) == Some(NavigationCommitValidationError::NavigationIdentityMismatch)
        }),
{
}

/// Evidence keeps its meaning in the transport's terms: only authenticated
/// evidence reads as authenticated, and different authenticated evidence reads
/// differently.
pub proof fn evidence_keeps_its_meaning(
    left: NavigationConnectionSecurity,
    right: NavigationConnectionSecurity,
    scheme: WebScheme,
    security: ConnectionSecurity,
)
    ensures
        crate::commit::transport_security(left) is Tls <==> left is AuthenticatedTls,
        left is AuthenticatedTls && crate::commit::transport_security(left)
            == crate::commit::transport_security(right) ==> left == right,
        crate::commit::scheme_agrees(scheme, security) <==> (scheme is Https <==> security is Tls),
{
}

/// A scope gets the sole issuance exactly where the commitment gives it
/// authority, the transport was delegated, and the ledger has it to give; what
/// the commitment objects is told before the transport, and that before the
/// ledger.
pub proof fn scopes_get_the_issuance(
    scope: StyleFetchScope,
    commitment: CommitModel,
    version: DocumentVersion,
    parsed: Option<ParsedNavigation>,
    matches_authority: bool,
    transport: Result<u64, StyleFetchOwnerError>,
    ledger: StyleDocumentLifecycle,
)
    ensures
        ({
            let refused = scope.refusal(
                commitment,
                version,
                parsed,
                matches_authority,
                transport,
                ledger,
            );
            let objection = scope.rejection(
                commitment,
                version,
                parsed,
                matches_authority,
                ledger,
            );
            &&& refused is None <==> objection is None && transport is Ok
                && ledger.issuance_error(scope.class()) is None
            &&& objection is Some ==> refused == objection
            &&& objection is None && transport is Err ==> refused == Some(transport->Err_0)
            &&& scope matches StyleFetchScope::Product(navigation) ==> {
                &&& scope.class() is Product
                &&& objection is None <==> commitment.navigation_error(
                    navigation,
                    version,
                    parsed,
                    matches_authority,
                    ledger.navigation,
                ) is None
                &&& objection is Some ==> objection == Some(
                    StyleFetchOwnerError::ProductNavigationRequired,
                )
            }
            &&& scope is NonProduct ==> {
                &&& scope.class() is NonProduct
                &&& objection is None <==> commitment.subresource_error(
                    version,
                    parsed,
                    matches_authority,
                ) is None && ledger.navigation is None
            }
        }),
{
}

/// A plan is taken exactly if it is coherent, asks for no more than may be
/// answered, and is of the very document and commitment; a cancellation and the
/// deadline are told before.
pub proof fn plans_are_of_their_document(
    plan: StyleResourcePlan,
    limits: StyleFetchLimits,
    version: DocumentVersion,
    commitment: crate::commit::NavigationCommitMetadata,
    observed: Checkpoint,
    document: ParsedNavigation,
)
    ensures
        ({
            let answer = plan.rejection(limits, version, commitment, observed, Some(&document));
            let going = !observed.cancelled && !observed.expired;
            &&& answer is None <==> {
                &&& going
                &&& plan.coherent()
                &&& plan.requests@.len() <= limits@.responses
                &&& plan.document_version == version
                &&& plan.navigation_commit@.agrees(commitment@)
            }
            &&& going && plan.coherent() && plan.requests@.len() > limits@.responses ==> answer
                == Some(StyleFetchRejection::Limit(StyleFetchLimit::Responses))
            &&& going && !plan.coherent() ==> answer == Some(StyleFetchRejection::PlanOwnership)
            &&& observed.cancelled ==> answer == Some(StyleFetchRejection::Cancelled)
            &&& going ==> plan.rejection(limits, version, commitment, observed, None) is Some
        }),
{
}

/// Commitments agree exactly if they say the same with the same authority; two of
/// documents agree as copies of one binding.
pub proof fn commitments_agree(left: CommitModel, right: CommitModel)
    ensures
        left.agrees(left),
        left.agrees(right) == right.agrees(left),
        left.agrees(right) ==> left.final_url == right.final_url && left.redirect_count
            == right.redirect_count && left.security == right.security && left.had_https_downgrade
            == right.had_https_downgrade && left.ledger_key() == right.ledger_key(),
        left.ledger_key() is Some && right.ledger_key() is Some && left.ledger_key()
            != right.ledger_key() ==> !left.agrees(right),
        left.ledger_key() is Some <==> left.document() is Some,
        left.document() is Some ==> left.response() is Some,
        left.authority is Synthetic <==> left.response() is None,
{
}

/// Headers of all responses together have a bound of their own.
pub proof fn retained_headers_have_a_bound(transaction: StyleFetchTransaction, retained: nat)
    ensures
        transaction.header_rejection(retained) is None <==> transaction.accounting.header_bytes
            + retained <= 262144,
        262144 < transaction.accounting.header_bytes + retained <= usize::MAX
            ==> transaction.header_rejection(retained) == Some(
            StyleFetchRejection::Limit(StyleFetchLimit::AggregateHeaderBytes),
        ),
{
    assert(256 * 1024 == 262144);
}

/// A response belongs to its request, and is admitted exactly with a status of
/// the two hundreds within the bounds.
pub proof fn responses_belong_to_requests(
    response: crate::style_transaction::StyleFetchResponse,
    plan: StyleResourcePlan,
    limits: StyleFetchLimits,
    index: int,
)
    requires
        0 <= index < plan.requests@.len(),
    ensures
        response.answers(plan, index) <==> response.request_index == index
            && response.document_version == plan.requests@[index].document_version
            && response.owner == plan.requests@[index].owner,
        response.admissible(limits) <==> response.status / 100 == 2 && response.body@.len()
            <= limits@.response_body_bytes && response.redirect_count <= limits@.redirects,
        (crate::style_transaction::body_charges())(response) == response.body@.len(),
        (crate::style_transaction::header_charges())(response) == response.headers@.retained(),
{
}

/// One redirect further: it is counted, and origins stay the same only as long as
/// each is that of the one before.
pub proof fn redirects_are_counted(before: StyleFetchProgress, after: StyleFetchProgress)
    requires
        before.redirected(after),
    ensures
        after.redirect_count == before.redirect_count + 1,
        after.all_redirects_same_origin <==> before.all_redirects_same_origin
            && before.target.origin@ == after.target.origin@,
        before.point_now().redirect_index == before.redirect_count,
        before.point_now().request_index == before.point.request_index,
        before.point_now().owner == before.point.owner,
{
}

/// A read asks for at least one byte, for no more than a chunk, and for at most
/// one byte beyond what each bound still allows: enough to see that it is passed.
pub proof fn reads_stop_beyond_the_bounds(body: BoundedBody)
    ensures
        ({
            let permitted = body.permitted_of();
            let bounds = body.bounds_of();
            let read = body.content().len();
            let response = bounds.per_response - read;
            let aggregate = bounds.aggregate - bounds.prior_aggregate - read;
            &&& 1 <= permitted <= 16384
            &&& response >= 0 ==> permitted <= response + 1
            &&& aggregate >= 0 ==> permitted <= aggregate + 1
            &&& response < 0 || aggregate < 0 ==> permitted == 1
            &&& response >= 0 && aggregate >= 0 ==> permitted == 16384 || permitted == response + 1
                || permitted == aggregate + 1
        }),
{
}

/// A transaction starts with nothing received and nothing charged.
pub proof fn transactions_start_empty(
    transaction: StyleFetchTransaction,
    limits: StyleFetchLimits,
)
    requires
        crate::style_owner::is_fresh(transaction, limits),
    ensures
        transaction.responses@.len() == 0,
        transaction.diagnostics@.len() == 0,
        transaction.accounting.body_bytes == 0,
        transaction.accounting.header_bytes == 0,
        transaction.accounting.http_exchanges == 0,
        transaction.limits == limits,
{
}

/// A delegated authority is bound to the transport, the revision and the
/// commitment that it was delegated for, and to the class of its scope.
pub proof fn authorities_are_bound(
    core: StyleFetchAuthorityCore,
    transport: u64,
    version: DocumentVersion,
    commit: CommitModel,
    scope: StyleFetchScope,
)
    requires
        core.is_of(transport, version, commit, scope),
    ensures
        core.transport == transport,
        core.document_version == version,
        core.navigation_commit@ == commit,
        core.lifecycle.class_of() == scope.class(),
{
}

} // verus!
