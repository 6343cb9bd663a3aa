use wild_buzzard_engine::commit::{NavigationCommitMetadata, NavigationConnectionSecurity};
use wild_buzzard_engine::csp_policy::{
    checked_add, StylePolicyAllocation, StylePolicyError, StylePolicyInput, StylePolicyLimit,
    StylePolicyParser, MAX_STYLE_CSP_DIRECTIVES_PER_POLICY, MAX_STYLE_CSP_POLICY_BYTES,
    MAX_STYLE_CSP_POLICY_MEMBERS, MAX_STYLE_CSP_POLICY_WORK, MAX_STYLE_CSP_SOURCE_EXPRESSIONS,
    MAX_STYLE_CSP_SOURCE_TOKEN_BYTES,
};
use wild_buzzard_engine::csp_source::{
    host_queries, normalize_host, CanonicalHost, CanonicalHosts, UnsupportedStyleSource,
    UnsupportedStyleSourceKind,
};
use wild_buzzard_engine::identity::DocumentVersion;
use wild_buzzard_engine::style_policy::{
    StylePolicyDecision, StylePolicySet, MAX_STYLE_CSP_NONCE_BYTES,
};
use wild_buzzard_engine::web::{
    IpAddress, ParsedNavigation, WebHost, WebOrigin, WebScheme, WebTarget,
};

fn parse_host(spelling: &str) -> Option<WebHost> {
    if spelling == "[::1]" {
        return Some(WebHost::Ip(IpAddress::V6(1)));
    }
    if spelling == "[::2]" {
        return Some(WebHost::Ip(IpAddress::V6(2)));
    }
    let plain = spelling
        .bytes()
        .all(|byte| byte.is_ascii_alphanumeric() || byte == b'-' || byte == b'.');
    if spelling.is_empty() || !plain {
        return None;
    }
    let octets: Vec<u8> = spelling
        .split('.')
        .filter_map(|octet| octet.parse().ok())
        .collect();
    match octets.as_slice() {
        [first, second, third, fourth] => Some(WebHost::Ip(IpAddress::V4(
            *first, *second, *third, *fourth,
        ))),
        _ => Some(WebHost::Domain(spelling.to_ascii_lowercase())),
    }
}

fn parse_url(url: &str) -> Option<ParsedNavigation> {
    let (scheme_text, rest) = url.split_once("://")?;
    let (scheme, default_port) = match scheme_text.to_ascii_lowercase().as_str() {
        "http" => (WebScheme::Http, 80),
        "https" => (WebScheme::Https, 443),
        _ => return None,
    };
    let (authority, path) = match rest.find('/') {
        Some(slash) => (&rest[..slash], &rest[slash..]),
        None => (rest, "/"),
    };
    if authority.contains('@') {
        return None;
    }
    let (host_text, port) = match authority.rfind(':') {
        Some(colon) if !authority.ends_with(']') => (
            &authority[..colon],
            authority[colon + 1..].parse::<u16>().ok()?,
        ),
        _ => (authority, default_port),
    };
    let host = parse_host(host_text)?;
    let port_text = if port == default_port {
        String::new()
    } else {
        format!(":{port}")
    };
    let identity = format!(
        "{}://{}{}{}",
        scheme_text.to_ascii_lowercase(),
        host_text.to_ascii_lowercase(),
        port_text,
        path
    );
    Some(ParsedNavigation {
        identity: identity.clone(),
        target: WebTarget {
            url: identity,
            origin: WebOrigin { scheme, host, port },
        },
    })
}

fn canonical_hosts(fields: &[&[u8]], scheme: WebScheme) -> CanonicalHosts {
    let mut entries = Vec::new();
    for field in fields {
        for query in host_queries(field, scheme) {
            let host = std::str::from_utf8(&query.spelling)
                .ok()
                .and_then(parse_host);
            if let Some(host) = host {
                entries.push(CanonicalHost {
                    scheme: query.scheme,
                    spelling: query.spelling,
                    host,
                });
            }
        }
    }
    CanonicalHosts { entries }
}

fn version() -> DocumentVersion {
    DocumentVersion {
        document_id: 1,
        revision: 0,
    }
}

fn commitment(document_url: &str) -> NavigationCommitMetadata {
    NavigationCommitMetadata::new(
        document_url,
        0,
        NavigationConnectionSecurity::Cleartext,
        false,
    )
    .unwrap()
}

fn policy_set(
    document_url: &str,
    enforcing: &[&[u8]],
    report_only: &[&[u8]],
) -> Result<StylePolicySet, StylePolicyError> {
    let commit = commitment(document_url);
    let parsed = parse_url(commit.final_url());
    let mut fields = enforcing.to_vec();
    fields.extend_from_slice(report_only);
    let hosts = canonical_hosts(&fields, WebScheme::Http);
    StylePolicySet::from_field_bytes(
        version(),
        commit,
        parsed.as_ref(),
        &enforcing.to_vec(),
        &report_only.to_vec(),
        &hosts,
    )
}

fn policies(document_url: &str, enforcing: &[&[u8]], report_only: &[&[u8]]) -> StylePolicySet {
    match policy_set(document_url, enforcing, report_only) {
        Ok(policies) => policies,
        Err(error) => panic!("{error:?}"),
    }
}

fn refusal(document_url: &str, enforcing: &[&[u8]]) -> Option<StylePolicyError> {
    policy_set(document_url, enforcing, &[]).err()
}

fn external(
    policies: &StylePolicySet,
    url: &str,
    nonce: Option<&str>,
) -> Result<StylePolicyDecision, StylePolicyError> {
    policies.evaluate_external_style(url, parse_url(url).as_ref(), nonce)
}

fn policy_set_with_forced_report_failure(
    document_url: &str,
    enforcing: &[&[u8]],
    failure: StylePolicyError,
) -> StylePolicySet {
    let commit = commitment(document_url);
    let document = parse_url(commit.final_url()).unwrap();
    let hosts = canonical_hosts(enforcing, WebScheme::Http);
    let mut parser = StylePolicyParser::new(
        StylePolicyInput::Enforcing,
        document.target.origin.scheme,
        &hosts,
        0,
        0,
    );
    parser.parse_fields(&enforcing.to_vec()).unwrap();
    let parsed = parser.finish();
    StylePolicySet::from_parsed_policy_sets(
        version(),
        commit,
        document.target,
        parsed,
        Err(failure),
    )
}

#[test]
fn empty_comma_members_are_inspected_but_zero_directive_policies_are_dropped() {
    let fields = [
        b"style-src 'self',,style-src * ,".as_slice(),
        b" STYLE-SRC https://blocked.test ".as_slice(),
    ];
    let set = policies("http://example.test/page", &fields, &[]);
    assert_eq!(set.enforcing_policy_count(), 3);
    assert_eq!(set.inspected_policy_member_count(), 4);
    let decision = external(&set, "http://cross.test/a.css", None).unwrap();
    assert_eq!(decision.enforcing_blocked_policy_count(), 2);

    let form_feed_tail = policies(
        "http://example.test/",
        &[b"style-src *,\x0c".as_slice()],
        &[],
    );
    assert_eq!(form_feed_tail.enforcing_policy_count(), 1);
    assert_eq!(form_feed_tail.inspected_policy_member_count(), 2);

    let neutral = policies(
        "http://example.test/",
        &[b",unknown-src value,reflected-xss value,script-src 'none'".as_slice()],
        &[],
    );
    assert_eq!(neutral.enforcing_policy_count(), 1);
    assert_eq!(neutral.inspected_policy_member_count(), 4);
    assert!(
        external(&neutral, "http://cross.test/a.css", None)
            .unwrap()
            .is_allowed(),
        "a recognized non-style policy is a neutral style matcher record"
    );

    let one_per_member = vec![b"default-src *".as_slice(); MAX_STYLE_CSP_POLICY_MEMBERS];
    assert!(policy_set("http://example.test/", &one_per_member, &[]).is_ok());
    let over = vec![b"default-src *".as_slice(); MAX_STYLE_CSP_POLICY_MEMBERS + 1];
    assert!(matches!(
        refusal("http://example.test/", &over),
        Some(StylePolicyError::LimitExceeded {
            input: StylePolicyInput::Aggregate,
            limit: StylePolicyLimit::PolicyMemberCount,
            actual,
            maximum: MAX_STYLE_CSP_POLICY_MEMBERS,
        }) if actual == MAX_STYLE_CSP_POLICY_MEMBERS + 1
    ));

    let empty_edge = ",".repeat(MAX_STYLE_CSP_POLICY_MEMBERS);
    let empty = policies("http://example.test/", &[empty_edge.as_bytes()], &[]);
    assert_eq!(empty.enforcing_policy_count(), 0);
    assert_eq!(
        empty.inspected_policy_member_count(),
        MAX_STYLE_CSP_POLICY_MEMBERS
    );
    let empty_over = ",".repeat(MAX_STYLE_CSP_POLICY_MEMBERS + 1);
    assert!(matches!(
        refusal("http://example.test/", &[empty_over.as_bytes()]),
        Some(StylePolicyError::LimitExceeded {
            input: StylePolicyInput::Aggregate,
            limit: StylePolicyLimit::PolicyMemberCount,
            actual,
            maximum: MAX_STYLE_CSP_POLICY_MEMBERS,
        }) if actual == MAX_STYLE_CSP_POLICY_MEMBERS + 1
    ));
}

#[test]
fn report_only_failures_roll_back_without_weakening_or_becoming_enforcing() {
    let report_members = vec![b"style-src *".as_slice(); MAX_STYLE_CSP_POLICY_MEMBERS];
    let member_failure = policies(
        "http://example.test/",
        &[b"style-src 'none'".as_slice()],
        &report_members,
    );
    assert!(matches!(
        member_failure.report_only_parse_failure(),
        Some(StylePolicyError::LimitExceeded {
            input: StylePolicyInput::Aggregate,
            limit: StylePolicyLimit::PolicyMemberCount,
            actual,
            maximum: MAX_STYLE_CSP_POLICY_MEMBERS,
        }) if actual == MAX_STYLE_CSP_POLICY_MEMBERS + 1
    ));
    assert_eq!(member_failure.enforcing_policy_count(), 1);
    assert_eq!(member_failure.report_only_policy_count(), 0);
    assert_eq!(member_failure.inspected_policy_member_count(), 1);
    let member_decision = external(&member_failure, "http://cross.test/a.css", None).unwrap();
    assert!(!member_decision.is_allowed());
    assert_eq!(member_decision.enforcing_blocked_policy_count(), 1);
    assert_eq!(member_decision.report_only_would_block_policy_count(), 0);

    let source_over = format!(
        "style-src {}",
        vec!["*"; MAX_STYLE_CSP_SOURCE_EXPRESSIONS + 1].join(" ")
    );
    let source_failure = policies("http://example.test/", &[], &[source_over.as_bytes()]);
    assert!(matches!(
        source_failure.report_only_parse_failure(),
        Some(StylePolicyError::LimitExceeded {
            input: StylePolicyInput::Aggregate,
            limit: StylePolicyLimit::SourceExpressionCount,
            actual,
            maximum: MAX_STYLE_CSP_SOURCE_EXPRESSIONS,
        }) if actual == MAX_STYLE_CSP_SOURCE_EXPRESSIONS + 1
    ));
    assert_eq!(source_failure.enforcing_policy_count(), 0);
    assert_eq!(source_failure.report_only_policy_count(), 0);
    assert_eq!(source_failure.inspected_policy_member_count(), 0);
    assert_eq!(source_failure.relevant_source_expression_count(), 0);
    let source_decision = external(&source_failure, "http://cross.test/a.css", None).unwrap();
    assert!(source_decision.is_allowed());
    assert_eq!(source_decision.report_only_would_block_policy_count(), 0);

    let work_token = "a".repeat(MAX_STYLE_CSP_SOURCE_TOKEN_BYTES);
    let work_core = format!("style-src {work_token}");
    let work_member_len = MAX_STYLE_CSP_POLICY_WORK - 1 - (MAX_STYLE_CSP_SOURCE_TOKEN_BYTES + 1);
    let work_edge = format!(
        "{}{}",
        ";".repeat(work_member_len - work_core.len()),
        work_core
    );
    let work_over = format!(";{work_edge}");
    let work_failure = policies(
        "http://example.test/",
        &[b"style-src 'none'".as_slice()],
        &[work_over.as_bytes()],
    );
    assert!(matches!(
        work_failure.report_only_parse_failure(),
        Some(StylePolicyError::LimitExceeded {
            input: StylePolicyInput::ReportOnly,
            limit: StylePolicyLimit::PolicyWork,
            actual,
            maximum: MAX_STYLE_CSP_POLICY_WORK,
        }) if actual == MAX_STYLE_CSP_POLICY_WORK + 1
    ));
    let work_decision = work_failure.evaluate_inline_style_element(None).unwrap();
    assert!(!work_decision.is_allowed());
    assert_eq!(work_decision.report_only_would_block_policy_count(), 0);

    let allocation_failure = StylePolicyError::AllocationFailed {
        allocation: StylePolicyAllocation::UnsupportedSource,
    };
    let allocation =
        policy_set_with_forced_report_failure("http://example.test/", &[], allocation_failure);
    assert_eq!(
        allocation.report_only_parse_failure(),
        Some(allocation_failure)
    );
    assert_eq!(allocation.report_only_policy_count(), 0);
    let allocation_decision = allocation.evaluate_inline_style_element(None).unwrap();
    assert!(allocation_decision.is_allowed());
    assert_eq!(
        allocation_decision.report_only_would_block_policy_count(),
        0
    );
}

#[test]
fn duplicate_first_directive_case_and_ascii_whitespace_match_firefox() {
    let set = policies(
        "http://example.test/page",
        &[b"STYLE-SRC\t'self'; style-src *; unknown-src *; \x0bstyle-src *".as_slice()],
        &[],
    );
    assert_eq!(set.ignored_duplicate_directive_count(), 1);
    assert!(external(&set, "http://example.test/a.css", None)
        .unwrap()
        .is_allowed());
    assert!(!external(&set, "http://cross.test/a.css", None)
        .unwrap()
        .is_allowed());
}

#[test]
fn none_fallback_and_policy_intersection_are_exact() {
    let set = policies(
        "http://example.test/page",
        &[
            b"default-src *; style-src 'none' https://cdn.test; style-src-attr 'unsafe-inline'"
                .as_slice(),
            b"style-src-elem https:".as_slice(),
        ],
        &[b"style-src-elem 'none'".as_slice()],
    );
    let allowed = external(&set, "https://cdn.test/a.css", None).unwrap();
    assert!(allowed.is_allowed());
    assert_eq!(allowed.report_only_would_block_policy_count(), 1);
    assert!(!external(&set, "https://other.test/a.css", None)
        .unwrap()
        .is_allowed());
    assert!(set.evaluate_inline_style_attribute().unwrap().is_allowed());
    let base = "https://unrestricted.test/base/";
    assert!(
        set.evaluate_base_uri(base, parse_url(base).as_ref())
            .unwrap()
            .is_allowed(),
        "base-uri has no default-src fallback"
    );
}

#[test]
fn schemes_hosts_ports_wildcards_and_ip_kinds_do_not_cross_match() {
    let set = policies(
        "http://example.test/page",
        &[
            b"style-src http://upgrade.test:80 https://secure.test *.cdn.test:* 127.0.0.1 [::1]"
                .as_slice(),
        ],
        &[],
    );
    for allowed in [
        "https://upgrade.test/a.css",
        "https://secure.test/a.css",
        "http://a.cdn.test:8080/a.css",
        "http://127.0.0.1/a.css",
    ] {
        assert!(
            external(&set, allowed, None).unwrap().is_allowed(),
            "expected allowed: {allowed}"
        );
    }
    for blocked in [
        "http://secure.test/a.css",
        "http://cdn.test/a.css",
        "http://127.0.0.2/a.css",
        "http://[::1]/a.css",
        "http://[::2]/a.css",
    ] {
        assert!(
            !external(&set, blocked, None).unwrap().is_allowed(),
            "expected blocked: {blocked}"
        );
    }
    assert_eq!(
        set.unsupported_sources(),
        [UnsupportedStyleSource {
            kind: UnsupportedStyleSourceKind::Malformed,
            byte_len: b"[::1]".len(),
        }]
    );
}

#[test]
fn firefox_port_80_to_443_quirk_and_standards_forward_zero_stripping_are_explicit() {
    let firefox_quirk = policies(
        "http://example.test/page",
        &[b"style-src https://quirk.test:80".as_slice()],
        &[],
    );
    assert!(
        external(&firefox_quirk, "https://quirk.test/a.css", None)
            .unwrap()
            .is_allowed(),
        "an enforcement port of 80 admits resource port 443 after scheme admission"
    );
    for blocked in ["http://quirk.test/a.css", "https://quirk.test:444/a.css"] {
        assert!(
            !external(&firefox_quirk, blocked, None)
                .unwrap()
                .is_allowed(),
            "expected non-upgrade control to remain blocked: {blocked}"
        );
    }

    let leading_zero = policies(
        "http://example.test/page",
        &[b"style-src https://zero.test:000443".as_slice()],
        &[],
    );
    assert!(
        external(&leading_zero, "https://zero.test/a.css", None)
            .unwrap()
            .is_allowed(),
        "a numeric source port is normalized"
    );
}

#[test]
fn self_and_scheme_upgrade_preserve_exact_host_and_port() {
    let set = policies(
        "http://example.test/page",
        &[b"style-src 'self'".as_slice()],
        &[],
    );
    assert!(external(&set, "https://example.test/a.css", None)
        .unwrap()
        .is_allowed());
    assert!(!external(&set, "https://sub.example.test/a.css", None)
        .unwrap()
        .is_allowed());
    assert!(!external(&set, "https://example.test:444/a.css", None)
        .unwrap()
        .is_allowed());
}

#[test]
fn link_and_style_element_nonces_are_separate_from_attributes() {
    let set = policies(
        "http://example.test/page",
        &[b"style-src 'nonce-Correct+/nonce=' 'unsafe-inline'".as_slice()],
        &[],
    );
    assert!(
        external(&set, "http://blocked.test/a.css", Some("Correct+/nonce="))
            .unwrap()
            .is_allowed()
    );
    assert!(set
        .evaluate_inline_style_element(Some("Correct+/nonce="))
        .unwrap()
        .is_allowed());
    assert!(!set
        .evaluate_inline_style_element(Some("correct+/nonce="))
        .unwrap()
        .is_allowed());
    assert!(
        !set.evaluate_inline_style_attribute().unwrap().is_allowed(),
        "nonce presence invalidates unsafe-inline and never admits attributes"
    );
}

#[test]
fn retained_nonce_and_host_strings_do_not_borrow_serialized_input() {
    let mut serialized = b"style-src 'nonce-OwnedSecret' *.owned.test".to_vec();
    let set = policies("http://example.test/page", &[serialized.as_slice()], &[]);
    serialized.fill(b'x');
    drop(serialized);

    assert!(set
        .evaluate_inline_style_element(Some("OwnedSecret"))
        .unwrap()
        .is_allowed());
    assert!(external(&set, "https://sub.owned.test/a.css", None)
        .unwrap()
        .is_allowed());
    assert!(!set.redacted().contains("OwnedSecret"));
}

#[test]
fn overlimit_candidate_nonce_is_absent_without_bypassing_policy() {
    let nonce_over = "n".repeat(MAX_STYLE_CSP_NONCE_BYTES + 1);
    let enforcing = policies(
        "http://example.test/",
        &[
            b"style-src 'none'".as_slice(),
            b"style-src 'nonce-short'".as_slice(),
        ],
        &[],
    );
    let blocked = external(&enforcing, "https://blocked.test/a.css", Some(&nonce_over)).unwrap();
    assert!(!blocked.is_allowed());
    assert_eq!(blocked.enforcing_blocked_policy_count(), 2);
    assert!(blocked.candidate_nonce_ignored_over_limit());

    let url_allowlist = policies(
        "http://example.test/",
        &[b"style-src https://allowed.test 'nonce-short'".as_slice()],
        &[],
    );
    let allowed = external(
        &url_allowlist,
        "https://allowed.test/a.css",
        Some(&nonce_over),
    )
    .unwrap();
    assert!(allowed.is_allowed());
    assert!(allowed.candidate_nonce_ignored_over_limit());
    assert!(
        !external(
            &url_allowlist,
            "https://blocked.test/a.css",
            Some(&nonce_over)
        )
        .unwrap()
        .is_allowed(),
        "an over-limit nonce cannot replace URL admission"
    );

    let diagnostic_only = policies(
        "http://example.test/",
        &[],
        &[b"style-src 'none'".as_slice()],
    );
    let diagnostic = diagnostic_only
        .evaluate_inline_style_element(Some(&nonce_over))
        .unwrap();
    assert!(diagnostic.is_allowed());
    assert_eq!(diagnostic.report_only_would_block_policy_count(), 1);
    assert!(diagnostic.candidate_nonce_ignored_over_limit());
}

#[test]
fn only_valid_supported_hash_grammar_disables_unsafe_inline() {
    let valid = policies(
        "http://example.test/page",
        &[b"style-src 'unsafe-inline' 'sha256-Abc_-'".as_slice()],
        &[],
    );
    assert!(!valid
        .evaluate_inline_style_element(None)
        .unwrap()
        .is_allowed());
    assert_eq!(
        valid.unsupported_sources()[0].kind(),
        UnsupportedStyleSourceKind::Hash
    );

    for malformed in [
        b"style-src 'unsafe-inline' 'sha256-'".as_slice(),
        b"style-src 'unsafe-inline' 'sha1-Abc'".as_slice(),
        b"style-src 'unsafe-inline' 'sha256-Abc==='".as_slice(),
    ] {
        let policy = policies("http://example.test/page", &[malformed], &[]);
        assert!(policy
            .evaluate_inline_style_element(None)
            .unwrap()
            .is_allowed());
    }

    let unsupported_keyword = policies(
        "http://example.test/page",
        &[b"style-src 'unsafe-inline' 'unsafe-eval'".as_slice()],
        &[],
    );
    assert_eq!(
        unsupported_keyword.unsupported_sources()[0].kind(),
        UnsupportedStyleSourceKind::Keyword
    );
    assert!(unsupported_keyword
        .evaluate_inline_style_element(None)
        .unwrap()
        .is_allowed());
}

#[test]
fn one_quote_and_empty_quoted_tokens_are_bounded_nonmatching_sources() {
    for (serialized, expected_kind, token_len) in [
        (
            b"style-src '".as_slice(),
            UnsupportedStyleSourceKind::Malformed,
            1,
        ),
        (
            b"style-src ''".as_slice(),
            UnsupportedStyleSourceKind::Keyword,
            2,
        ),
    ] {
        let set = policies("http://example.test/", &[serialized], &[]);
        assert_eq!(
            set.unsupported_sources(),
            [UnsupportedStyleSource {
                kind: expected_kind,
                byte_len: token_len,
            }]
        );
        assert!(!external(&set, "http://cross.test/a.css", None)
            .unwrap()
            .is_allowed());
    }
}

#[test]
fn malformed_source_bytes_never_become_document_commit_failures() {
    let none = CanonicalHosts {
        entries: Vec::new(),
    };
    assert!(normalize_host(b"\xff", WebScheme::Http, &none).is_none());

    let invalid_directive_then_valid = policies(
        "http://example.test/page",
        &[b"style-src \xff; style-src 'none'".as_slice()],
        &[],
    );
    assert!(
        !external(
            &invalid_directive_then_valid,
            "http://example.test/a.css",
            None
        )
        .unwrap()
        .is_allowed(),
        "Firefox skips the invalid non-ASCII directive, so the later valid directive wins"
    );

    let malformed_ascii = policies(
        "http://example.test/page",
        &[b"style-src https://bad%2eexample".as_slice()],
        &[],
    );
    assert_eq!(
        malformed_ascii.unsupported_sources()[0].kind(),
        UnsupportedStyleSourceKind::Malformed
    );
    assert!(!external(&malformed_ascii, "https://bad.example/a.css", None)
        .unwrap()
        .is_allowed());
}

#[test]
fn paths_are_typed_nonmatching_and_debug_redacts_raw_and_nonce() {
    let set = policies(
        "http://example.test/private-document",
        &[b"style-src https://secret.example/private/path 'nonce-do-not-print'".as_slice()],
        &[],
    );
    assert_eq!(
        set.unsupported_sources(),
        [UnsupportedStyleSource {
            kind: UnsupportedStyleSourceKind::HostPath,
            byte_len: b"https://secret.example/private/path".len(),
        }]
    );
    let debug = set.redacted();
    assert!(!debug.contains("secret"));
    assert!(!debug.contains("private"));
    assert!(!debug.contains("do-not-print"));
    assert_eq!(
        debug,
        "StylePolicySet { response_document_version: DocumentVersion { document_id: 1, \
         revision: 0 }, enforcing_policies: 1, report_only_policies: 0, \
         inspected_policy_members: 1, relevant_source_expressions: 2, \
         ignored_duplicate_directives: 0, unsupported_sources: [UnsupportedStyleSource { \
         kind: HostPath, byte_len: 35 }], report_only_parse_failure: None, .. }"
    );
}

#[test]
fn canonical_candidates_reject_credentials_and_ambiguous_spelling() {
    let set = policies(
        "http://example.test/page",
        &[b"style-src *".as_slice()],
        &[],
    );
    assert_eq!(
        external(&set, "http://user@example.test/a.css", None),
        Err(StylePolicyError::InvalidCandidateUrl)
    );
    assert_eq!(
        external(&set, "HTTP://EXAMPLE.TEST/a.css", None),
        Err(StylePolicyError::NonCanonicalCandidateUrl)
    );
}

#[test]
fn policy_byte_and_directive_bounds_have_exact_edge_and_next_unit_evidence() {
    let policy_byte_edge = vec![b';'; MAX_STYLE_CSP_POLICY_BYTES];
    assert!(policy_set(
        "http://example.test/",
        &[policy_byte_edge.as_slice()],
        &[]
    )
    .is_ok());
    let policy_byte_over = vec![b';'; MAX_STYLE_CSP_POLICY_BYTES + 1];
    assert!(matches!(
        refusal("http://example.test/", &[policy_byte_over.as_slice()]),
        Some(StylePolicyError::LimitExceeded {
            input: StylePolicyInput::Enforcing,
            limit: StylePolicyLimit::PolicyBytes,
            actual,
            maximum: MAX_STYLE_CSP_POLICY_BYTES,
        }) if actual == MAX_STYLE_CSP_POLICY_BYTES + 1
    ));

    let directive_edge = vec!["unknown-src"; MAX_STYLE_CSP_DIRECTIVES_PER_POLICY].join(";");
    assert!(policy_set("http://example.test/", &[directive_edge.as_bytes()], &[]).is_ok());
    let directive_over = vec!["unknown-src"; MAX_STYLE_CSP_DIRECTIVES_PER_POLICY + 1].join(";");
    assert!(matches!(
        refusal("http://example.test/", &[directive_over.as_bytes()]),
        Some(StylePolicyError::LimitExceeded {
            input: StylePolicyInput::Enforcing,
            limit: StylePolicyLimit::DirectiveCount,
            actual,
            maximum: MAX_STYLE_CSP_DIRECTIVES_PER_POLICY,
        }) if actual == MAX_STYLE_CSP_DIRECTIVES_PER_POLICY + 1
    ));
}

#[test]
fn source_expression_and_token_bounds_have_exact_edge_and_next_unit_evidence() {
    let source_edge = format!(
        "style-src {}",
        vec!["*"; MAX_STYLE_CSP_SOURCE_EXPRESSIONS].join(" ")
    );
    let parsed_source_edge = policies("http://example.test/", &[source_edge.as_bytes()], &[]);
    assert_eq!(
        parsed_source_edge.relevant_source_expression_count(),
        MAX_STYLE_CSP_SOURCE_EXPRESSIONS
    );
    let source_over = format!(
        "style-src {}",
        vec!["*"; MAX_STYLE_CSP_SOURCE_EXPRESSIONS + 1].join(" ")
    );
    assert!(matches!(
        refusal("http://example.test/", &[source_over.as_bytes()]),
        Some(StylePolicyError::LimitExceeded {
            input: StylePolicyInput::Aggregate,
            limit: StylePolicyLimit::SourceExpressionCount,
            actual,
            maximum: MAX_STYLE_CSP_SOURCE_EXPRESSIONS,
        }) if actual == MAX_STYLE_CSP_SOURCE_EXPRESSIONS + 1
    ));

    let token_edge = format!("style-src {}", "a".repeat(MAX_STYLE_CSP_SOURCE_TOKEN_BYTES));
    assert!(policy_set("http://example.test/", &[token_edge.as_bytes()], &[]).is_ok());
    let token_over = format!(
        "style-src {}",
        "a".repeat(MAX_STYLE_CSP_SOURCE_TOKEN_BYTES + 1)
    );
    assert!(matches!(
        refusal("http://example.test/", &[token_over.as_bytes()]),
        Some(StylePolicyError::LimitExceeded {
            input: StylePolicyInput::Enforcing,
            limit: StylePolicyLimit::SourceTokenBytes,
            actual,
            maximum: MAX_STYLE_CSP_SOURCE_TOKEN_BYTES,
        }) if actual == MAX_STYLE_CSP_SOURCE_TOKEN_BYTES + 1
    ));
}

#[test]
fn policy_work_bound_has_exact_edge_and_next_unit_evidence() {
    let work_token = "a".repeat(MAX_STYLE_CSP_SOURCE_TOKEN_BYTES);
    let work_core = format!("style-src {work_token}");
    let work_member_len = MAX_STYLE_CSP_POLICY_WORK - 1 - (MAX_STYLE_CSP_SOURCE_TOKEN_BYTES + 1);
    let work_edge = format!(
        "{}{}",
        ";".repeat(work_member_len - work_core.len()),
        work_core
    );
    assert_eq!(work_edge.len(), work_member_len);
    assert!(policy_set("http://example.test/", &[work_edge.as_bytes()], &[]).is_ok());
    let work_over = format!(";{work_edge}");
    assert!(matches!(
        refusal("http://example.test/", &[work_over.as_bytes()]),
        Some(StylePolicyError::LimitExceeded {
            input: StylePolicyInput::Enforcing,
            limit: StylePolicyLimit::PolicyWork,
            actual,
            maximum: MAX_STYLE_CSP_POLICY_WORK,
        }) if actual == MAX_STYLE_CSP_POLICY_WORK + 1
    ));
}

#[test]
fn candidate_nonce_cap_and_counter_overflow_have_exact_evidence() {
    let set = policies("http://example.test/", &[b"style-src *".as_slice()], &[]);
    let nonce_edge = "n".repeat(MAX_STYLE_CSP_NONCE_BYTES);
    let nonce_edge_decision = set.evaluate_inline_style_element(Some(&nonce_edge)).unwrap();
    assert!(!nonce_edge_decision.candidate_nonce_ignored_over_limit());
    let nonce_over = "n".repeat(MAX_STYLE_CSP_NONCE_BYTES + 1);
    let nonce_over_decision = set.evaluate_inline_style_element(Some(&nonce_over)).unwrap();
    assert!(!nonce_over_decision.is_allowed());
    assert!(nonce_over_decision.candidate_nonce_ignored_over_limit());

    assert_eq!(
        checked_add(usize::MAX, 1, StylePolicyInput::Aggregate),
        Err(StylePolicyError::CounterOverflow {
            input: StylePolicyInput::Aggregate,
        })
    );
}

#[test]
fn another_policy_never_admits_what_was_blocked() {
    let one = policies(
        "http://example.test/",
        &[b"style-src https://cdn.test".as_slice()],
        &[],
    );
    let two = policies(
        "http://example.test/",
        &[
            b"style-src https://cdn.test".as_slice(),
            b"style-src *".as_slice(),
        ],
        &[],
    );
    let blocked = "https://other.test/a.css";
    assert!(!external(&one, blocked, None).unwrap().is_allowed());
    assert!(!external(&two, blocked, None).unwrap().is_allowed());
}

#[test]
fn fields_depend_only_on_the_hosts_that_they_ask_about() {
    let field: &[u8] = b"style-src https://Cdn.example 'self'; img-src other.example";
    let asked: Vec<Vec<u8>> = host_queries(field, WebScheme::Http)
        .into_iter()
        .map(|query| query.spelling)
        .collect();
    assert!(asked.contains(&b"Cdn.example".to_vec()));
    assert!(asked.contains(&b"other.example".to_vec()));
    let hosts = canonical_hosts(&[field], WebScheme::Http);
    let mut more = canonical_hosts(&[field], WebScheme::Http);
    more.entries.push(CanonicalHost {
        scheme: WebScheme::Https,
        spelling: b"unasked.example".to_vec(),
        host: WebHost::Domain("unasked.example".to_owned()),
    });
    let url = "http://site.example/";
    for answers in [&hosts, &more] {
        let commit = commitment(url);
        let parsed = parse_url(commit.final_url());
        let set = match StylePolicySet::from_field_bytes(
            version(),
            commit,
            parsed.as_ref(),
            &vec![field],
            &Vec::new(),
            answers,
        ) {
            Ok(set) => set,
            Err(error) => panic!("{error:?}"),
        };
        assert_eq!(set.relevant_source_expression_count(), 2);
        assert!(external(&set, "https://cdn.example/a.css", None)
            .unwrap()
            .is_allowed());
        assert!(!external(&set, "https://unasked.example/a.css", None)
            .unwrap()
            .is_allowed());
    }
}
