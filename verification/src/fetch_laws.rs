//! What fetching a top-level document is for: which responses are read, where a
//! chain of redirects may lead, and what it remembers.

use vstd::prelude::*;

use crate::bytes::ByteClass;
use crate::document_fetch::{FetchModel, HeadModel, PageTransportKind};
use crate::failure::PipelineStage;
use crate::headers::FieldModel;
use crate::pipeline_error::{PipelineError, RedirectLocationFailure};
use crate::style_transport::{Checkpoint, RedirectTargetFailure};
use crate::web::{ConnectionSecurity, ParsedNavigation, WebScheme};

verus! {

/// A response is read as the document exactly if nothing stopped the fetch, its
/// connection is authenticated exactly where its URL asks for it, it is no
/// redirect, and its status is one of the two hundreds. Every other status
/// without a redirect is answered with an error that tells the status.
pub proof fn only_success_is_read(
    fetch: FetchModel,
    security: ConnectionSecurity,
    control: Checkpoint,
    status: u16,
    is_redirect: bool,
    headers: Seq<FieldModel>,
)
    ensures
        ({
            let answer = fetch.asked(security, control, status, is_redirect, headers);
            let agrees = (security is Tls) == (fetch.scheme is Https);
            &&& answer == Ok::<_, PipelineError>(HeadModel::Final) <==> !control.cancelled
                && !control.expired && agrees && !is_redirect && status / 100 == 2
            &&& control.cancelled ==> answer == Err::<HeadModel, _>(
                PipelineError::Cancelled { stage: PipelineStage::Fetch },
            )
            &&& !control.cancelled && control.expired ==> answer == Err::<HeadModel, _>(
                PipelineError::DeadlineExceeded { stage: PipelineStage::Fetch },
            )
            &&& !control.cancelled && !control.expired && !agrees ==> answer == Err::<
                HeadModel,
                _,
            >(PipelineError::TransportSecurityMismatch)
            &&& !control.cancelled && !control.expired && agrees && !is_redirect && status >= 400
                ==> answer == Err::<HeadModel, _>(PipelineError::HttpStatus(status))
            &&& !control.cancelled && !control.expired && agrees && !is_redirect && status < 200
                ==> answer == Err::<HeadModel, _>(PipelineError::HttpStatus(status))
            &&& !control.cancelled && !control.expired && agrees && !is_redirect && status / 100
                == 3 ==> answer == Err::<HeadModel, _>(
                PipelineError::UnsupportedRedirectStatus { status },
            )
            &&& answer matches Ok(HeadModel::Redirect(_)) ==> is_redirect
        }),
{
}

/// Values of one name among fields behind others are those of the others and
/// then those behind them.
pub proof fn values_join(left: Seq<FieldModel>, right: Seq<FieldModel>, name: Seq<u8>)
    ensures
        crate::headers::values_of(left + right, name) == crate::headers::values_of(left, name)
            + crate::headers::values_of(right, name),
    decreases right.len(),
{
    if right.len() == 0 {
        assert(left + right =~= left);
    } else {
        values_join(left, right.drop_last(), name);
        assert((left + right).drop_last() =~= left + right.drop_last());
        assert((left + right).last() == right.last());
    }
    assert(crate::headers::values_of(left + right, name) =~= crate::headers::values_of(left, name)
        + crate::headers::values_of(right, name));
}

/// Fields of other names have no values of a name.
proof fn no_values(fields: Seq<FieldModel>, name: Seq<u8>)
    requires
        forall|i: int| 0 <= i < fields.len() ==> (#[trigger] fields[i]).name != name,
    ensures
        crate::headers::values_of(fields, name) == Seq::<Seq<u8>>::empty(),
    decreases fields.len(),
{
    if fields.len() > 0 {
        assert(fields[fields.len() - 1].name != name);
        assert forall|i: int| 0 <= i < fields.drop_last().len() implies (
        #[trigger] fields.drop_last()[i]).name != name by {
            assert(fields.drop_last()[i] == fields[i]);
        }
        no_values(fields.drop_last(), name);
    }
}

/// A redirect leads where its only `location` field says, wherever that field
/// stands among the others; without one, or with two, it leads nowhere.
pub proof fn one_location_is_followed(
    before: Seq<FieldModel>,
    between: Seq<FieldModel>,
    after: Seq<FieldModel>,
    first: Seq<u8>,
    second: Seq<u8>,
)
    requires
        forall|i: int|
            0 <= i < before.len() ==> (#[trigger] before[i]).name != crate::bytes::text(
                "location"@,
            ),
        forall|i: int|
            0 <= i < between.len() ==> (#[trigger] between[i]).name != crate::bytes::text(
                "location"@,
            ),
        forall|i: int|
            0 <= i < after.len() ==> (#[trigger] after[i]).name != crate::bytes::text("location"@),
    ensures
        ({
            let name = crate::bytes::text("location"@);
            let one = seq![FieldModel { name, value: first }];
            let two = seq![FieldModel { name, value: second }];
            &&& crate::document_fetch::document_location(before) == Err::<Seq<char>, _>(
                RedirectLocationFailure::Missing,
            )
            &&& crate::document_fetch::document_location(before + one + after)
                == match crate::text::utf8_text(
                crate::bytes::trimmed(first, ByteClass::OptionalWhitespace),
            ) {
                Some(location) => Ok(location),
                None => Err(RedirectLocationFailure::NonUtf8),
            }
            &&& crate::document_fetch::document_location(before + one + between + two + after)
                == Err::<Seq<char>, _>(RedirectLocationFailure::Multiple)
        }),
{
    let name = crate::bytes::text("location"@);
    let one = seq![FieldModel { name, value: first }];
    let two = seq![FieldModel { name, value: second }];
    no_values(before, name);
    no_values(between, name);
    no_values(after, name);
    no_values(one.drop_last(), name);
    no_values(two.drop_last(), name);
    assert(crate::headers::values_of(one, name) =~= seq![first]);
    assert(crate::headers::values_of(two, name) =~= seq![second]);
    values_join(before, one, name);
    values_join(before + one, after, name);
    values_join(before + one, between, name);
    values_join(before + one + between, two, name);
    values_join(before + one + between + two, after, name);
    assert(crate::headers::values_of(before + one + after, name) =~= seq![first]);
    assert(crate::headers::values_of(before + one + between + two + after, name) =~= seq![
        first,
        second,
    ]);
}

/// A redirect target keeps its own fragment; one without takes over the whole
/// fragment of the URL that redirected, if that has one.
pub proof fn fragments_are_inherited(target: Seq<u8>, page: Seq<u8>, fragment: Seq<u8>)
    requires
        !page.contains('#' as u8),
    ensures
        target.contains('#' as u8) ==> crate::document_fetch::inherited(
            target,
            page + seq!['#' as u8] + fragment,
        ) == target && crate::document_fetch::inherited(target, page) == target,
        !target.contains('#' as u8) ==> crate::document_fetch::inherited(
            target,
            page + seq!['#' as u8] + fragment,
        ) == target + seq!['#' as u8] + fragment && crate::document_fetch::inherited(target, page)
            == target,
{
    let sign = ByteClass::Exactly('#' as u8);
    let current = page + seq!['#' as u8] + fragment;
    crate::bytes::first_in_is_first(target, 0, sign);
    if target.contains('#' as u8) {
        let i = choose|i: int| 0 <= i < target.len() && target[i] == '#' as u8;
        assert(sign.has(target[i]));
    } else {
        let at = crate::bytes::first_in(target, 0, sign);
        if at < target.len() {
            assert(target[at] == '#' as u8);
        }
        assert forall|i: int| 0 <= i < page.len() implies !sign.has(#[trigger] current[i]) by {
            assert(current[i] == page[i]);
            assert(page.contains(page[i]));
        }
        assert forall|i: int| 0 <= i < page.len() implies !sign.has(#[trigger] page[i]) by {
            assert(page.contains(page[i]));
        }
        assert(current[page.len() as int] == '#' as u8);
        crate::byte_laws::scan_ends_at(current, 0, sign, page.len() as int);
        crate::byte_laws::scan_ends_at(page, 0, sign, page.len() as int);
        assert(current.subrange(page.len() as int, current.len() as int) =~= seq!['#' as u8]
            + fragment);
        assert(target + (seq!['#' as u8] + fragment) =~= target + seq!['#' as u8] + fragment);
        assert(target + page.subrange(page.len() as int, page.len() as int) =~= target);
    }
}

/// A chain follows at most ten redirects, comes to no URL twice, and follows
/// every other redirect.
pub proof fn ten_new_urls_are_followed(fetch: FetchModel, target: ParsedNavigation)
    requires
        fetch.inv(),
    ensures
        fetch.redirect_count <= 10,
        fetch.redirect_refusal(target.identity@) is None <==> fetch.redirect_count < 10
            && !fetch.visited.contains(target.identity@),
        fetch.visited.contains(target.identity@) ==> fetch.redirect_refusal(target.identity@)
            == Some(PipelineError::RedirectLoop),
        !fetch.visited.contains(target.identity@) && fetch.redirect_count == 10
            ==> fetch.redirect_refusal(target.identity@) == Some(
            PipelineError::TooManyRedirects { maximum: 10 },
        ),
{
}

/// What a fetch comes to by responses and the redirects behind them.
pub open spec fn followed(
    start: FetchModel,
    hops: Seq<(ConnectionSecurity, ParsedNavigation)>,
) -> FetchModel
    decreases hops.len(),
{
    if hops.len() == 0 {
        start
    } else {
        followed(start, hops.drop_last()).observed(hops.last().0).redirected(hops.last().1)
    }
}

/// A chain is at the target of its last redirect, knows all its URLs in order,
/// and is marked as downgraded exactly if some redirect led to cleartext behind
/// an authenticated response.
pub proof fn chains_remember(
    start: FetchModel,
    hops: Seq<(ConnectionSecurity, ParsedNavigation)>,
)
    requires
        start.redirect_count == 0,
        !start.saw_authenticated_https,
        !start.had_https_downgrade,
        hops.len() <= 10,
    ensures
        ({
            let reached = followed(start, hops);
            &&& reached.redirect_count == hops.len()
            &&& reached.visited == start.visited + hops.map_values(
                |hop: (ConnectionSecurity, ParsedNavigation)| hop.1.identity@,
            )
            &&& hops.len() > 0 ==> reached.identity == hops.last().1.identity@ && reached.scheme
                == hops.last().1.target.origin.scheme
            &&& reached.saw_authenticated_https <==> exists|i: int|
                0 <= i < hops.len() && (#[trigger] hops[i]).0 is Tls
            &&& reached.had_https_downgrade <==> exists|i: int, j: int|
                0 <= i <= j < hops.len() && (#[trigger] hops[i]).0 is Tls && (
                #[trigger] hops[j]).1.target.origin.scheme is Http
        }),
    decreases hops.len(),
{
    let identities = |hop: (ConnectionSecurity, ParsedNavigation)| hop.1.identity@;
    if hops.len() == 0 {
        assert(start.visited + hops.map_values(identities) =~= start.visited);
    } else {
        let before = hops.drop_last();
        let last = hops.len() - 1;
        chains_remember(start, before);
        let reached = followed(start, before);
        let next = followed(start, hops);
        assert(hops.map_values(identities) =~= before.map_values(identities).push(
            hops.last().1.identity@,
        ));
        assert(start.visited + before.map_values(identities).push(hops.last().1.identity@) =~= (
        start.visited + before.map_values(identities)).push(hops.last().1.identity@));
        assert(forall|i: int| 0 <= i < last ==> before[i] == hops[i]);
        if reached.saw_authenticated_https {
            let i = choose|i: int| 0 <= i < before.len() && (#[trigger] before[i]).0 is Tls;
            assert(hops[i].0 is Tls);
        }
        if next.saw_authenticated_https && !reached.saw_authenticated_https {
            assert(hops[last].0 is Tls);
        }
        if exists|i: int| 0 <= i < hops.len() && (#[trigger] hops[i]).0 is Tls {
            let i = choose|i: int| 0 <= i < hops.len() && (#[trigger] hops[i]).0 is Tls;
            if i < last {
                assert(before[i].0 is Tls);
            }
        }
        if reached.had_https_downgrade {
            let (i, j) = choose|i: int, j: int|
                0 <= i <= j < before.len() && (#[trigger] before[i]).0 is Tls && (
                #[trigger] before[j]).1.target.origin.scheme is Http;
            assert(hops[i].0 is Tls && hops[j].1.target.origin.scheme is Http);
        } else if next.had_https_downgrade {
            let i = choose|i: int| 0 <= i < hops.len() && (#[trigger] hops[i]).0 is Tls;
            assert(hops[i].0 is Tls && hops[last].1.target.origin.scheme is Http);
        }
        if exists|i: int, j: int|
            0 <= i <= j < hops.len() && (#[trigger] hops[i]).0 is Tls && (
            #[trigger] hops[j]).1.target.origin.scheme is Http {
            let (i, j) = choose|i: int, j: int|
                0 <= i <= j < hops.len() && (#[trigger] hops[i]).0 is Tls && (
                #[trigger] hops[j]).1.target.origin.scheme is Http;
            if j < last {
                assert(before[i].0 is Tls && before[j].1.target.origin.scheme is Http);
            } else {
                assert(hops[i].0 is Tls);
            }
        }
    }
}

/// A URL may be navigated to exactly if it is not empty and has at most 16 KiB.
pub proof fn urls_are_bounded(url: Seq<char>)
    ensures
        crate::document_fetch::out_of_bounds(url) <==> url.len() == 0 || vstd::utf8::encode_utf8(
            url,
        ).len() > 16384,
        crate::commit::url_error(url) is Some <==> crate::document_fetch::out_of_bounds(url),
{
}

/// Connection evidence agrees with a scheme exactly if both are authenticated
/// or neither is.
pub proof fn evidence_agrees_with_scheme(scheme: WebScheme, security: ConnectionSecurity)
    ensures
        crate::commit::scheme_agrees(scheme, security) <==> ((scheme is Https) == (security is Tls)),
{
}

/// A load is taken exactly by an engine of its own transport.
pub proof fn transports_are_kept_apart(owned: PageTransportKind, requested: PageTransportKind)
    ensures
        crate::document_fetch::transport_refusal(owned, requested) is None <==> owned == requested,
        crate::document_fetch::transport_refusal(owned, requested) matches Some(error) ==> (
        error matches PipelineError::InvalidConfiguration { field, detail } && field
            == "network_capability" && (requested is GeneralWeb ==> detail
            == "general-web load requested from a numeric-loopback engine") && (requested
            is NumericLoopback ==> detail
            == "numeric-loopback load requested from a general-web engine")),
{
}

/// A refused redirect target is told as what is wrong with it.
pub proof fn targets_are_refused_for_their_cause(failure: RedirectTargetFailure)
    ensures
        ({
            let told = crate::document_fetch::target_failure(failure);
            &&& told is CredentialsNotAllowed <==> failure is CredentialsNotAllowed
            &&& told is UnsupportedScheme <==> failure is UnsupportedScheme
            &&& told is UrlTooLong <==> failure is UrlBytes
            &&& told is Invalid <==> failure is Invalid
        }),
{
}

} // verus!
