use wild_buzzard_engine::bytes::try_copy;
use wild_buzzard_engine::commit::{CommittedResponseAuthority, NavigationCommitMetadata};
use wild_buzzard_engine::content_type::{
    parse_content_type, ContentTypeFailure, ContentTypeInput, MalformedContentType,
};
use wild_buzzard_engine::headers::Headers;
use wild_buzzard_engine::identity::{
    DocumentVersion, NavigationGeneration, NavigationId, NodeId, TopLevelContextId,
};
use wild_buzzard_engine::legacy_mime::{extract_legacy_mime_type, extract_response_mime};
use wild_buzzard_engine::style_body::{BodyBounds, BodyFraming, BoundedBody};
use wild_buzzard_engine::style_document::StyleDocumentLifecycle;
use wild_buzzard_engine::style_fetch::{
    StyleFetchLimit, StyleFetchLimits, StyleFetchMime, StyleFetchNetworkFailure,
    StyleFetchOriginCleanliness, StyleFetchOwnerError, StyleFetchRejection, BODY_READ_CHUNK_BYTES,
    MAX_STYLE_FETCH_CONTENT_TYPE_BYTES, MAX_STYLE_FETCH_DURATION_NANOSECONDS,
    MAX_STYLE_FETCH_REDIRECTS, MAX_STYLE_FETCH_RESPONSES,
};
use wild_buzzard_engine::style_owner::{
    prepare_style_fetch_authority, NonProductStyleFetchAuthority, StyleFetchAuthority,
    StyleFetchOwner, StyleFetchOwnerCore, StyleFetchScope,
};
use wild_buzzard_engine::style_plan::{
    validate_plan_topology, StyleResourceCandidate, StyleResourceCandidateStatus,
    StyleResourcePlan, StyleResourceRequestIdentity,
};
use wild_buzzard_engine::style_policy::{StylePolicyDecision, StylePolicyResource};
use wild_buzzard_engine::style_response::{admit_response_headers, single_location};
use wild_buzzard_engine::style_transaction::{
    checked_increment, push_authoritative_diagnostic_lossy, push_non_enforcing_diagnostic_lossy,
    FetchAccounting, HeadDecision, ResponseHead, StyleFetchDiagnostic, StyleFetchDiagnosticKind,
    StyleFetchTransaction,
};
use wild_buzzard_engine::style_transport::{
    map_network_error, validate_connection_security, validate_operation_start, Checkpoint,
    RedirectTargetFailure, TransportFailure,
};
use wild_buzzard_engine::web::{
    AlpnOutcome, ConnectionSecurity, IpAddressSpace, ParsedNavigation, TlsVersion, WebHost,
    WebOrigin, WebScheme, WebTarget,
};

const DOCUMENT_URL: &str = "https://site.example/page";
const GO: Checkpoint = Checkpoint {
    cancelled: false,
    expired: false,
};
const TLS: ConnectionSecurity = ConnectionSecurity::Tls {
    version: TlsVersion::Tls13,
    alpn: AlpnOutcome::Http11,
};

fn version() -> DocumentVersion {
    DocumentVersion {
        document_id: 7,
        revision: 1,
    }
}

fn node(index: u64) -> NodeId {
    NodeId {
        document_id: 7,
        index,
    }
}

fn navigation() -> NavigationId {
    NavigationId::new(
        TopLevelContextId::new(3).unwrap(),
        NavigationGeneration::initial(),
    )
}

fn origin(scheme: WebScheme, host: &str) -> WebOrigin {
    WebOrigin {
        scheme,
        host: WebHost::Domain(host.to_owned()),
        port: if scheme == WebScheme::Https { 443 } else { 80 },
    }
}

fn parsed(url: &str) -> ParsedNavigation {
    let (scheme, rest) = match url.strip_prefix("https://") {
        Some(rest) => (WebScheme::Https, rest),
        None => (WebScheme::Http, url.strip_prefix("http://").unwrap()),
    };
    let host = &rest[..rest.find('/').unwrap()];
    ParsedNavigation {
        identity: url.to_owned(),
        target: WebTarget {
            url: url.to_owned(),
            origin: origin(scheme, host),
        },
    }
}

fn response_commit() -> NavigationCommitMetadata {
    NavigationCommitMetadata::from_general_web_response(
        DOCUMENT_URL,
        0,
        false,
        Some(&parsed(DOCUMENT_URL)),
        true,
        CommittedResponseAuthority {
            key: 40,
            security: TLS,
            address_space: IpAddressSpace { code: 1 },
        },
    )
    .unwrap()
}

fn bound_commit() -> (NavigationCommitMetadata, StyleDocumentLifecycle) {
    let (commit, issued) = response_commit().bind_document(version(), 90, None).unwrap();
    assert_eq!(issued, Some(90));
    (commit, StyleDocumentLifecycle::new())
}

fn decision(report_only: usize) -> StylePolicyDecision {
    StylePolicyDecision {
        resource: StylePolicyResource::ExternalStyle,
        enforcing_blocked_policies: 0,
        report_only_would_block_policies: report_only,
        candidate_nonce_ignored_over_limit: false,
    }
}

fn request(index: u64, url: &str, report_only: usize) -> StyleResourceRequestIdentity {
    StyleResourceRequestIdentity {
        document_version: version(),
        owner: node(index),
        canonical_url: url.to_owned(),
        policy_decision: decision(report_only),
    }
}

fn admitted(index: u64, request_index: usize, report_only: usize) -> StyleResourceCandidate {
    StyleResourceCandidate {
        document_version: version(),
        owner: node(index),
        status: StyleResourceCandidateStatus::Admitted { request_index },
        policy_decision: Some(decision(report_only)),
    }
}

fn plan(urls: &[&str]) -> StyleResourcePlan {
    let (commit, _) = bound_commit();
    StyleResourcePlan {
        document_version: version(),
        navigation_commit: commit,
        candidates: (0..urls.len())
            .map(|index| admitted(index as u64, index, 0))
            .collect(),
        requests: urls
            .iter()
            .enumerate()
            .map(|(index, url)| request(index as u64, url, 0))
            .collect(),
        enforcing_policy_count: 0,
    }
}

fn limits() -> StyleFetchLimits {
    StyleFetchLimits::new(4, 64, 96, 2, 6, 4).unwrap()
}

fn transaction() -> StyleFetchTransaction {
    StyleFetchTransaction {
        limits: limits(),
        diagnostics: Vec::new(),
        responses: Vec::new(),
        accounting: FetchAccounting {
            body_bytes: 0,
            header_bytes: 0,
            http_exchanges: 0,
        },
    }
}

fn headers(fields: &[(&str, &[u8])]) -> Headers {
    let mut headers = Headers::new();
    for (name, value) in fields {
        headers.append(name.as_bytes(), value.to_vec());
    }
    headers
}

fn head(status: u16, fields: &[(&str, &[u8])]) -> ResponseHead {
    ResponseHead {
        security: TLS,
        status,
        is_redirect: matches!(status, 301 | 302 | 303 | 307 | 308),
        headers: headers(fields),
        framing: BodyFraming::ConnectionClose,
    }
}

fn read_body(bounds: BodyBounds, bytes: &[u8]) -> Result<Vec<u8>, StyleFetchRejection> {
    let mut body = BoundedBody::begin(BodyFraming::ConnectionClose, bounds)?;
    let mut at = 0;
    loop {
        let count = body.permitted()?.min(bytes.len() - at);
        if body.accept(&bytes[at..at + count])? {
            return Ok(body.finish());
        }
        at += count;
    }
}

#[test]
fn a_transaction_retains_each_response_in_plan_order() {
    let plan = plan(&["https://site.example/a.css", "https://cdn.example/b.css"]);
    let document = parsed(DOCUMENT_URL);
    let mut transaction = transaction();
    let document_origin = transaction
        .admit_plan(
            &plan,
            version(),
            &plan.navigation_commit,
            GO,
            Some(&document),
        )
        .unwrap();
    assert_eq!(document_origin, document.target.origin);
    let bodies: [&[u8]; 2] = [b"a{}", b"bb{}"];
    for index in 0..2 {
        let target = parsed(&plan.requests[index].canonical_url);
        let progress = transaction
            .begin_request(&plan, index, GO, &document_origin, Some(&target))
            .unwrap();
        transaction.begin_exchange(&progress, GO).unwrap();
        let head = head(200, &[("content-type", b"text/css; charset=utf-8")]);
        assert!(matches!(
            transaction.receive_head(&progress, GO, &head),
            Ok(HeadDecision::Body)
        ));
        let final_head = transaction.admit_final_head(&progress, &head).unwrap();
        let body = read_body(final_head.body, bodies[index]).unwrap();
        transaction
            .retain_final_response(
                &plan.requests[index],
                &progress,
                &document_origin,
                &head,
                final_head.headers,
                body,
            )
            .unwrap();
    }
    let set = transaction.finish(&plan);
    assert_eq!(set.document_version(), version());
    assert_eq!(set.navigation_commit().final_url(), DOCUMENT_URL);
    assert_eq!(set.http_exchanges(), 2);
    assert_eq!(set.aggregate_body_bytes(), 7);
    assert_eq!(
        set.aggregate_header_bytes(),
        2 * (b"text/css; charset=utf-8".len() + b"utf-8".len())
    );
    assert!(set.diagnostics().is_empty());
    let first = &set.responses()[0];
    assert_eq!(first.owner(), node(0));
    assert_eq!(first.request_index(), 0);
    assert_eq!(first.final_url(), "https://site.example/a.css");
    assert_eq!(first.body(), b"a{}");
    assert_eq!(first.headers().mime(), StyleFetchMime::Css);
    assert_eq!(first.headers().charset(), Some(&b"utf-8"[..]));
    assert_eq!(
        first.origin_cleanliness(),
        StyleFetchOriginCleanliness::Clean
    );
    let second = &set.responses()[1];
    assert_eq!(second.request_index(), 1);
    assert!(!second.origin_cleanliness().is_clean());
    assert_eq!(second.status(), 200);
    assert_eq!(second.security(), TLS);
    assert_eq!(second.redirect_count(), 0);
}

#[test]
fn a_redirect_passes_every_gate_before_it_is_followed() {
    let plan = plan(&["https://site.example/a.css"]);
    let document = parsed(DOCUMENT_URL);
    let mut transaction = transaction();
    let mut progress = transaction
        .begin_request(
            &plan,
            0,
            GO,
            &document.target.origin,
            Some(&parsed("https://site.example/a.css")),
        )
        .unwrap();
    let redirect = head(302, &[("location", b"/b.css")]);
    match transaction.receive_head(&progress, GO, &redirect) {
        Ok(HeadDecision::Redirect { location }) => assert_eq!(location, "/b.css"),
        _ => panic!("a redirect must name its location"),
    }

    let refusals: [(Result<WebTarget, RedirectTargetFailure>, bool, usize, StyleFetchRejection); 8] = [
        (
            Err(RedirectTargetFailure::CredentialsNotAllowed),
            false,
            1024,
            StyleFetchRejection::RedirectCredentials,
        ),
        (
            Err(RedirectTargetFailure::UnsupportedScheme),
            false,
            1024,
            StyleFetchRejection::RedirectScheme,
        ),
        (
            Err(RedirectTargetFailure::UrlBytes),
            false,
            1024,
            StyleFetchRejection::RedirectUrlBytes,
        ),
        (
            Err(RedirectTargetFailure::Invalid),
            false,
            1024,
            StyleFetchRejection::RedirectLocationInvalid,
        ),
        (
            Ok(parsed("https://site.example/b.css").target),
            false,
            8,
            StyleFetchRejection::RedirectUrlBytes,
        ),
        (
            Ok(parsed("http://site.example/b.css").target),
            false,
            1024,
            StyleFetchRejection::MixedContent,
        ),
        (
            Ok(parsed("https://cdn.example/b.css").target),
            true,
            1024,
            StyleFetchRejection::CrossOriginPolicyUnproven,
        ),
        (
            Ok(parsed("https://site.example/a.css").target),
            false,
            1024,
            StyleFetchRejection::RedirectLoop,
        ),
    ];
    for (resolved, enforcing, bytes, expected) in refusals {
        let error = transaction
            .follow_redirect(
                &mut progress,
                &document.target.origin,
                enforcing,
                302,
                resolved,
                bytes,
            )
            .unwrap_err();
        assert_eq!(error.rejection(), expected);
        assert_eq!(error.redirect_index(), 0);
        assert_eq!(progress.target.url, "https://site.example/a.css");
    }

    for (hop, url) in ["https://cdn.example/b.css", "https://site.example/c.css"]
        .iter()
        .enumerate()
    {
        transaction
            .follow_redirect(
                &mut progress,
                &document.target.origin,
                false,
                302,
                Ok(parsed(url).target),
                1024,
            )
            .unwrap();
        assert_eq!(progress.redirect_count, hop + 1);
        assert_eq!(progress.target.url, *url);
    }
    assert!(!progress.all_redirects_same_origin);
    assert_eq!(progress.visited.len(), 3);
    assert_eq!(transaction.diagnostics.len(), 2);
    assert_eq!(
        transaction.diagnostics[1].kind(),
        StyleFetchDiagnosticKind::RedirectFollowed { status: 302 }
    );
    assert_eq!(transaction.diagnostics[1].redirect_index(), 2);
    let error = transaction
        .follow_redirect(
            &mut progress,
            &document.target.origin,
            false,
            302,
            Ok(parsed("https://site.example/d.css").target),
            1024,
        )
        .unwrap_err();
    assert_eq!(
        error.rejection(),
        StyleFetchRejection::Limit(StyleFetchLimit::Redirects)
    );

    // A detour through another origin taints even a response of the document's.
    let head = head(200, &[("content-type", b"text/css")]);
    let final_head = transaction.admit_final_head(&progress, &head).unwrap();
    transaction
        .retain_final_response(
            &plan.requests[0],
            &progress,
            &document.target.origin,
            &head,
            final_head.headers,
            Vec::new(),
        )
        .unwrap();
    assert_eq!(
        transaction.responses[0].origin_cleanliness(),
        StyleFetchOriginCleanliness::Tainted
    );
    assert_eq!(transaction.responses[0].redirect_count(), 2);
}

#[test]
fn a_plan_is_refused_as_a_whole() {
    let document = parsed(DOCUMENT_URL);
    let mut transaction = transaction();
    let good = plan(&["https://site.example/a.css"]);
    let refusal = |transaction: &mut StyleFetchTransaction,
                   plan: &StyleResourcePlan,
                   at: DocumentVersion,
                   observed: Checkpoint,
                   document: Option<&ParsedNavigation>| {
        transaction
            .admit_plan(plan, at, &plan.navigation_commit, observed, document)
            .unwrap_err()
            .rejection()
    };
    assert_eq!(
        refusal(
            &mut transaction,
            &good,
            version(),
            Checkpoint {
                cancelled: true,
                expired: true
            },
            Some(&document)
        ),
        StyleFetchRejection::Cancelled
    );
    assert_eq!(
        refusal(
            &mut transaction,
            &good,
            version(),
            Checkpoint {
                cancelled: false,
                expired: true
            },
            Some(&document)
        ),
        StyleFetchRejection::DeadlineExceeded
    );
    assert_eq!(
        refusal(&mut transaction, &good, version(), GO, None),
        StyleFetchRejection::PlanOwnership
    );
    assert_eq!(
        refusal(
            &mut transaction,
            &good,
            DocumentVersion {
                document_id: 7,
                revision: 2
            },
            GO,
            Some(&document)
        ),
        StyleFetchRejection::PlanOwnership
    );
    let many = plan(&["https://site.example/a.css"; 5]);
    assert_eq!(
        refusal(&mut transaction, &many, version(), GO, Some(&document)),
        StyleFetchRejection::Limit(StyleFetchLimit::Responses)
    );
    let other = NavigationCommitMetadata::from_general_web_response(
        DOCUMENT_URL,
        1,
        false,
        Some(&document),
        true,
        CommittedResponseAuthority {
            key: 40,
            security: TLS,
            address_space: IpAddressSpace { code: 1 },
        },
    )
    .unwrap();
    let error = transaction
        .admit_plan(&good, version(), &other, GO, Some(&document))
        .unwrap_err();
    assert_eq!(error.rejection(), StyleFetchRejection::PlanOwnership);
    assert_eq!(error.owner(), Some(node(0)));
    assert_eq!(error.document_version(), version());
    let error = transaction
        .admit_plan(&plan(&[]), version(), &other, GO, Some(&document))
        .unwrap_err();
    assert_eq!(error.owner(), None);
}

#[test]
fn a_plan_owns_exactly_its_admitted_candidates() {
    let mut plan = plan(&["https://site.example/a.css", "https://site.example/b.css"]);
    assert_eq!(validate_plan_topology(&plan), Ok(()));
    plan.candidates.insert(
        1,
        StyleResourceCandidate {
            document_version: version(),
            owner: node(9),
            status: StyleResourceCandidateStatus::Refused,
            policy_decision: None,
        },
    );
    assert_eq!(validate_plan_topology(&plan), Ok(()));

    plan.candidates[1].owner.document_id = 8;
    assert_eq!(
        validate_plan_topology(&plan),
        Err(StyleFetchRejection::PlanOwnership)
    );
    plan.candidates.remove(1);
    plan.candidates.swap(0, 1);
    assert_eq!(
        validate_plan_topology(&plan),
        Err(StyleFetchRejection::PlanOwnership)
    );
    plan.candidates.swap(0, 1);
    plan.requests[1].policy_decision = decision(3);
    assert_eq!(
        validate_plan_topology(&plan),
        Err(StyleFetchRejection::PlanOwnership)
    );
    plan.requests[1].policy_decision = decision(0);
    plan.candidates.pop();
    assert_eq!(
        validate_plan_topology(&plan),
        Err(StyleFetchRejection::PlanOwnership)
    );
}

#[test]
fn a_request_starts_only_at_its_own_canonical_target() {
    let mut plan = plan(&["https://site.example/a.css"]);
    plan.requests[0].policy_decision = decision(2);
    let document = parsed(DOCUMENT_URL);
    let mut transaction = transaction();
    let error = transaction
        .begin_request(&plan, 0, GO, &document.target.origin, None)
        .err()
        .unwrap();
    assert_eq!(error.rejection(), StyleFetchRejection::PlanOwnership);
    assert_eq!(error.owner(), Some(node(0)));
    assert_eq!(
        transaction.diagnostics[0].kind(),
        StyleFetchDiagnosticKind::ReportOnlyWouldBlock { policies: 2 }
    );
    let error = transaction
        .begin_request(
            &plan,
            0,
            GO,
            &document.target.origin,
            Some(&parsed("https://site.example/other.css")),
        )
        .err()
        .unwrap();
    assert_eq!(error.rejection(), StyleFetchRejection::PlanOwnership);

    plan.requests[0] = request(0, "http://site.example/a.css", 0);
    let error = transaction
        .begin_request(
            &plan,
            0,
            GO,
            &document.target.origin,
            Some(&parsed("http://site.example/a.css")),
        )
        .err()
        .unwrap();
    assert_eq!(error.rejection(), StyleFetchRejection::MixedContent);

    plan.requests[0].policy_decision.enforcing_blocked_policies = 1;
    let error = transaction
        .begin_request(
            &plan,
            0,
            GO,
            &document.target.origin,
            Some(&parsed("http://site.example/a.css")),
        )
        .err()
        .unwrap();
    assert_eq!(error.rejection(), StyleFetchRejection::PlanOwnership);
}

#[test]
fn response_heads_are_classified() {
    let plan = plan(&["https://site.example/a.css"]);
    let document = parsed(DOCUMENT_URL);
    let mut transaction = transaction();
    let progress = transaction
        .begin_request(
            &plan,
            0,
            GO,
            &document.target.origin,
            Some(&parsed("https://site.example/a.css")),
        )
        .unwrap();
    let mut cleartext = head(200, &[]);
    cleartext.security = ConnectionSecurity::Cleartext;
    let cases: [(ResponseHead, StyleFetchRejection); 6] = [
        (cleartext, StyleFetchRejection::TransportSecurityMismatch),
        (
            head(304, &[]),
            StyleFetchRejection::UnsupportedRedirectStatus,
        ),
        (head(404, &[]), StyleFetchRejection::HttpStatus),
        (head(301, &[]), StyleFetchRejection::RedirectLocationMissing),
        (
            head(301, &[("location", b"/a"), ("location", b"/b")]),
            StyleFetchRejection::RedirectLocationConflict,
        ),
        (
            head(301, &[("location", b"/\xff")]),
            StyleFetchRejection::RedirectLocationNonUtf8,
        ),
    ];
    for (head, expected) in &cases {
        match transaction.receive_head(&progress, GO, head) {
            Err(error) => assert_eq!(error.rejection(), *expected),
            Ok(_) => panic!("a refused head was accepted"),
        }
    }
    let repeated = headers(&[("location", b" /same "), ("location", b"/same\t")]);
    assert_eq!(single_location(&repeated), Ok("/same"));
}

#[test]
fn exchanges_are_counted_before_they_happen() {
    let plan = plan(&["https://site.example/a.css"]);
    let document = parsed(DOCUMENT_URL);
    let mut transaction = transaction();
    let progress = transaction
        .begin_request(
            &plan,
            0,
            GO,
            &document.target.origin,
            Some(&parsed("https://site.example/a.css")),
        )
        .unwrap();
    for _ in 0..6 {
        transaction.begin_exchange(&progress, GO).unwrap();
    }
    let error = transaction.begin_exchange(&progress, GO).unwrap_err();
    assert_eq!(
        error.rejection(),
        StyleFetchRejection::Limit(StyleFetchLimit::HttpExchanges)
    );
    assert_eq!(transaction.accounting.http_exchanges, 6);

    let failure = transaction.fail(error);
    assert_eq!(failure.error(), error);
    assert_eq!(failure.diagnostics().len(), 1);
    assert_eq!(
        failure.diagnostics()[0].kind(),
        StyleFetchDiagnosticKind::Rejected(StyleFetchRejection::Limit(
            StyleFetchLimit::HttpExchanges
        ))
    );
    assert_eq!(failure.diagnostics()[0].owner(), node(0));
    assert_eq!(failure.diagnostics()[0].request_index(), 0);
    assert_eq!(failure.diagnostics()[0].document_version(), version());
}

#[test]
fn counters_stop_at_their_maximum() {
    assert_eq!(
        checked_increment(1, 2, StyleFetchLimit::Redirects),
        Ok(2)
    );
    assert_eq!(
        checked_increment(2, 2, StyleFetchLimit::Redirects),
        Err(StyleFetchRejection::Limit(StyleFetchLimit::Redirects))
    );
    assert_eq!(
        checked_increment(usize::MAX, 2, StyleFetchLimit::Redirects),
        Err(StyleFetchRejection::CounterOverflow)
    );
}

#[test]
fn authoritative_observations_displace_report_only_ones() {
    let observe = |kind| StyleFetchDiagnostic {
        document_version: version(),
        owner: node(0),
        request_index: 0,
        redirect_index: 0,
        kind,
    };
    let report = observe(StyleFetchDiagnosticKind::ReportOnlyWouldBlock { policies: 1 });
    let unknown = observe(StyleFetchDiagnosticKind::UnknownMimeAccepted);
    let rejected = observe(StyleFetchDiagnosticKind::Rejected(
        StyleFetchRejection::HttpStatus,
    ));
    let mut kept = vec![report, unknown];
    push_non_enforcing_diagnostic_lossy(&mut kept, report, 2);
    assert_eq!(kept, vec![report, unknown]);
    push_authoritative_diagnostic_lossy(&mut kept, rejected, 2);
    assert_eq!(kept, vec![unknown, rejected]);
    push_authoritative_diagnostic_lossy(&mut kept, unknown, 2);
    assert_eq!(kept.len(), 2);
    push_authoritative_diagnostic_lossy(&mut kept, unknown, 0);
    assert_eq!(kept.len(), 2);
}

#[test]
fn bodies_stop_at_the_first_byte_over_a_bound() {
    let bounds = BodyBounds {
        per_response: 4,
        prior_aggregate: 3,
        aggregate: 6,
    };
    assert_eq!(bounds.check(3), Ok(()));
    assert_eq!(
        bounds.check(4),
        Err(StyleFetchRejection::Limit(
            StyleFetchLimit::AggregateBodyBytes
        ))
    );
    assert_eq!(
        bounds.check(5),
        Err(StyleFetchRejection::Limit(
            StyleFetchLimit::ResponseBodyBytes
        ))
    );
    let announced = BoundedBody::begin(BodyFraming::ContentLength(5), bounds);
    assert!(matches!(
        announced,
        Err(StyleFetchRejection::Limit(
            StyleFetchLimit::ResponseBodyBytes
        ))
    ));
    let mut body = BoundedBody::begin(BodyFraming::Chunked, bounds).unwrap();
    assert_eq!(body.permitted(), Ok(4));
    assert_eq!(body.accept(b"ab"), Ok(false));
    assert_eq!(body.permitted(), Ok(2));
    assert_eq!(body.accept(b"c"), Ok(false));
    assert_eq!(body.permitted(), Ok(1));
    assert_eq!(
        body.accept(b"d"),
        Err(StyleFetchRejection::Limit(
            StyleFetchLimit::AggregateBodyBytes
        ))
    );
    let mut body = BoundedBody::begin(BodyFraming::Absent, bounds).unwrap();
    assert_eq!(body.accept(b"abc"), Ok(false));
    assert_eq!(body.accept(b""), Ok(true));
    assert_eq!(body.finish(), b"abc".to_vec());
    let wide = BodyBounds {
        per_response: 1 << 20,
        prior_aggregate: 0,
        aggregate: 1 << 20,
    };
    let body = BoundedBody::begin(BodyFraming::ConnectionClose, wide).unwrap();
    assert_eq!(body.permitted(), Ok(BODY_READ_CHUNK_BYTES));
}

#[test]
fn response_headers_admit_css_and_unknown_types() {
    let (css, unknown) =
        admit_response_headers(&headers(&[("Content-Type", b"TEXT/CSS;charset=\"gbk\"")])).unwrap();
    assert!(!unknown);
    assert_eq!(css.mime(), StyleFetchMime::Css);
    assert_eq!(css.content_type(), Some(&b"TEXT/CSS;charset=\"gbk\""[..]));
    assert_eq!(css.charset(), Some(&b"gbk"[..]));
    assert!(!css.nosniff());
    assert_eq!(css.retained_bytes(), 22 + 3);

    let (missing, unknown) = admit_response_headers(&headers(&[])).unwrap();
    assert!(unknown);
    assert_eq!(missing.mime(), StyleFetchMime::Unknown);
    assert_eq!(missing.content_type(), None);
    assert_eq!(missing.retained_bytes(), 0);

    assert_eq!(
        admit_response_headers(&headers(&[("content-type", b"text/plain")])).err(),
        Some(StyleFetchRejection::MimeNotCss)
    );
    assert_eq!(
        admit_response_headers(&headers(&[("x-content-type-options", b" NoSniff ,x")])).err(),
        Some(StyleFetchRejection::NoSniff)
    );
    let long = vec![b'a'; MAX_STYLE_FETCH_CONTENT_TYPE_BYTES + 1];
    assert_eq!(
        admit_response_headers(&headers(&[("content-type", &long)])).err(),
        Some(StyleFetchRejection::Limit(
            StyleFetchLimit::ContentTypeBytes
        ))
    );
}

#[test]
fn legacy_extraction_keeps_the_last_media_type_and_its_charset() {
    let extracted = extract_response_mime(b"text/css;charset=gbk", b"text/css;charset=gbk").unwrap();
    assert!(extracted.as_ref().unwrap().is_css);
    assert_eq!(extracted.unwrap().charset, Some(b"gbk".to_vec()));
    let plain = extract_response_mime(b"text/plain", b"text/plain").unwrap();
    assert!(!plain.unwrap().is_css);
    assert!(extract_legacy_mime_type(b"").unwrap().is_none());
}

#[test]
fn content_types_are_reduced_to_type_and_charsets() {
    match parse_content_type(b"Text/HTML; Charset=\"UTF-8\"; x=y; charset=GBK").unwrap() {
        ContentTypeInput::Parsed(parsed) => {
            assert_eq!(parsed.media_type(), "text/html");
            assert_eq!(
                parsed.charsets().to_vec(),
                vec!["utf-8".to_owned(), "gbk".to_owned()]
            );
        }
        ContentTypeInput::Malformed(_) => panic!("a well-formed field was refused"),
    }
    let malformed: [(&[u8], MalformedContentType); 4] = [
        (b"text/ht\xffml", MalformedContentType::NonAscii),
        (b"text", MalformedContentType::InvalidMediaType),
        (b"text/html; charset", MalformedContentType::InvalidParameter),
        (
            b"text/html; charset=\"a b\"",
            MalformedContentType::InvalidCharset,
        ),
    ];
    for (field, reason) in malformed {
        assert_eq!(
            parse_content_type(field),
            Ok(ContentTypeInput::Malformed(reason))
        );
    }
    let mut many = b"text/html".to_vec();
    for _ in 0..17 {
        many.extend_from_slice(b";charset=a");
    }
    assert_eq!(
        parse_content_type(&many),
        Err(ContentTypeFailure::TooManyCharsets)
    );
}

#[test]
fn limits_only_narrow() {
    let bounds = limits();
    assert_eq!(bounds.max_responses(), 4);
    assert_eq!(bounds.max_redirects(), 2);
    assert_eq!(bounds.max_diagnostics(), 4);
    assert_eq!(
        StyleFetchLimits::new(MAX_STYLE_FETCH_RESPONSES + 1, 1, 1, 1, 1, 1),
        Err(StyleFetchOwnerError::LimitWouldEnlarge(
            StyleFetchLimit::Responses
        ))
    );
    assert_eq!(
        StyleFetchLimits::new(1, 1, 1, MAX_STYLE_FETCH_REDIRECTS + 1, 1, 1),
        Err(StyleFetchOwnerError::LimitWouldEnlarge(
            StyleFetchLimit::Redirects
        ))
    );
}

#[test]
fn operations_start_within_the_horizon() {
    assert_eq!(
        validate_operation_start(true, Some(1)),
        Err(StyleFetchRejection::Cancelled)
    );
    assert_eq!(
        validate_operation_start(false, None),
        Err(StyleFetchRejection::DeadlineExceeded)
    );
    assert_eq!(
        validate_operation_start(false, Some(0)),
        Err(StyleFetchRejection::DeadlineExceeded)
    );
    assert_eq!(
        validate_operation_start(false, Some(MAX_STYLE_FETCH_DURATION_NANOSECONDS)),
        Ok(())
    );
    assert_eq!(
        validate_operation_start(false, Some(MAX_STYLE_FETCH_DURATION_NANOSECONDS + 1)),
        Err(StyleFetchRejection::DeadlineTooFar)
    );
}

#[test]
fn transport_failures_lose_their_detail() {
    assert_eq!(
        map_network_error(TransportFailure::Cancelled, GO),
        StyleFetchRejection::Cancelled
    );
    assert_eq!(
        map_network_error(TransportFailure::Timeout, GO),
        StyleFetchRejection::Network(StyleFetchNetworkFailure::Connection)
    );
    assert_eq!(
        map_network_error(
            TransportFailure::Dns,
            Checkpoint {
                cancelled: false,
                expired: true
            }
        ),
        StyleFetchRejection::DeadlineExceeded
    );
    assert_eq!(
        validate_connection_security(WebScheme::Https, ConnectionSecurity::Cleartext),
        Err(StyleFetchRejection::TransportSecurityMismatch)
    );
    assert_eq!(validate_connection_security(WebScheme::Https, TLS), Ok(()));
}

#[test]
fn a_documents_stylesheet_transaction_happens_once() {
    let (commit, mut ledger) = bound_commit();
    commit
        .bind_navigation(navigation(), version(), &mut ledger)
        .unwrap();
    let parsed_document = parsed(DOCUMENT_URL);
    let authority = StyleFetchAuthority::from_committed_document(
        &commit,
        navigation(),
        version(),
        Some(&parsed_document),
        true,
        Ok(40),
        &mut ledger,
    )
    .ok()
    .unwrap();
    assert!(StyleFetchAuthority::from_committed_document(
        &commit,
        navigation(),
        version(),
        Some(&parsed_document),
        true,
        Ok(40),
        &mut ledger,
    )
    .is_err());
    let owner = StyleFetchOwner::new(authority, limits(), &ledger).ok().unwrap();
    assert_eq!(owner.limits(), limits());
    let mut core = owner.into_core();
    let plan = plan(&["https://site.example/a.css"]);
    let fresh = core
        .begin_fetch_plan(&plan, &mut ledger, false, Some(1))
        .ok()
        .unwrap();
    assert!(fresh.responses.is_empty());
    assert_eq!(
        core.begin_fetch_plan(&plan, &mut ledger, false, Some(1))
            .err()
            .unwrap()
            .error()
            .rejection(),
        StyleFetchRejection::TransactionInProgress
    );
    core.end_fetch_plan(&mut ledger);
    assert_eq!(
        core.begin_fetch_plan(&plan, &mut ledger, false, Some(1))
            .err()
            .unwrap()
            .error()
            .rejection(),
        StyleFetchRejection::TransactionConsumed
    );
    ledger.retire();
    assert_eq!(
        core.begin_fetch_plan(&plan, &mut ledger, false, Some(1))
            .err()
            .unwrap()
            .error()
            .rejection(),
        StyleFetchRejection::DocumentNotCurrent
    );
}

#[test]
fn a_transaction_that_cannot_start_is_used_up() {
    let (commit, mut ledger) = bound_commit();
    let core = prepare_style_fetch_authority(
        &commit,
        version(),
        StyleFetchScope::NonProduct,
        Some(&parsed(DOCUMENT_URL)),
        true,
        Ok(40),
        &mut ledger,
    )
    .ok()
    .unwrap();
    let mut owner = StyleFetchOwnerCore::new(core, limits(), &ledger).ok().unwrap();
    let plan = plan(&[]);
    assert_eq!(
        owner
            .begin_fetch_plan(&plan, &mut ledger, true, Some(1))
            .err()
            .unwrap()
            .error()
            .rejection(),
        StyleFetchRejection::Cancelled
    );
    assert_eq!(
        owner
            .begin_fetch_plan(&plan, &mut ledger, false, Some(1))
            .err()
            .unwrap()
            .error()
            .rejection(),
        StyleFetchRejection::TransactionConsumed
    );
}

#[test]
fn only_the_navigations_own_document_delegates() {
    let (commit, mut ledger) = bound_commit();
    let document = parsed(DOCUMENT_URL);
    let refused = StyleFetchAuthority::from_committed_document(
        &commit,
        navigation(),
        version(),
        Some(&document),
        true,
        Ok(40),
        &mut ledger,
    );
    assert_eq!(
        refused.err(),
        Some(StyleFetchOwnerError::ProductNavigationRequired)
    );
    commit
        .bind_navigation(navigation(), version(), &mut ledger)
        .unwrap();
    assert_eq!(commit.navigation(&ledger), Some(navigation()));
    let refused = NonProductStyleFetchAuthority::from_committed_document(
        &commit,
        version(),
        Some(&document),
        true,
        Ok(40),
        &mut ledger,
    );
    assert!(refused.is_err());
}

#[test]
fn copies_keep_every_byte() {
    assert_eq!(try_copy(b""), Some(Vec::new()));
    assert_eq!(try_copy(b"a\x00\xff"), Some(vec![b'a', 0, 255]));
}

#[test]
fn a_detour_through_another_origin_is_not_clean() {
    let plan = plan(&["https://site.example/a.css"]);
    let document = parsed(DOCUMENT_URL);
    for (hops, clean) in [
        (vec!["https://site.example/b.css"], true),
        (
            vec!["https://cdn.example/b.css", "https://site.example/c.css"],
            false,
        ),
    ] {
        let mut transaction = transaction();
        let mut progress = transaction
            .begin_request(
                &plan,
                0,
                GO,
                &document.target.origin,
                Some(&parsed("https://site.example/a.css")),
            )
            .unwrap();
        for hop in &hops {
            transaction
                .follow_redirect(
                    &mut progress,
                    &document.target.origin,
                    false,
                    302,
                    Ok(parsed(hop).target),
                    1024,
                )
                .unwrap();
        }
        assert_eq!(progress.redirect_count, hops.len());
        transaction.begin_exchange(&progress, GO).unwrap();
        let head = head(200, &[("content-type", b"text/css")]);
        let final_head = transaction.admit_final_head(&progress, &head).unwrap();
        transaction
            .retain_final_response(
                &plan.requests[0],
                &progress,
                &document.target.origin,
                &head,
                final_head.headers,
                b"a{}".to_vec(),
            )
            .unwrap();
        let set = transaction.finish(&plan);
        assert_eq!(set.responses()[0].origin_cleanliness().is_clean(), clean);
        assert_eq!(set.responses()[0].redirect_count(), hops.len());
    }
}

#[test]
fn retained_headers_stay_below_twice_the_content_type_bound() {
    let mut value = b"text/css;charset=".to_vec();
    value.resize(MAX_STYLE_FETCH_CONTENT_TYPE_BYTES, b'x');
    let (longest, _) = admit_response_headers(&headers(&[("content-type", &value)])).unwrap();
    assert_eq!(longest.content_type().unwrap().len(), 4096);
    assert_eq!(longest.charset().unwrap().len(), 4096 - 17);
    assert_eq!(longest.retained_bytes(), 8192 - 17);
    let half = vec![b'a'; MAX_STYLE_FETCH_CONTENT_TYPE_BYTES / 2];
    assert_eq!(
        admit_response_headers(&headers(&[("content-type", &half), ("content-type", &half)])).err(),
        Some(StyleFetchRejection::Limit(
            StyleFetchLimit::ContentTypeBytes
        ))
    );
}
