use wild_buzzard_engine::commit::{
    CommittedResponseAuthority, NavigationAlpn, NavigationCommitMetadata,
    NavigationCommitValidationError, NavigationConnectionSecurity, NavigationNetworkCapability,
    NavigationRequest, NavigationRequestError, NavigationTlsVersion, MAX_TOP_LEVEL_REDIRECTS,
};
use wild_buzzard_engine::identity::{
    DocumentVersion, NavigationGeneration, NavigationId, TopLevelContextId,
};
use wild_buzzard_engine::style_document::StyleDocumentLifecycle;
use wild_buzzard_engine::web::{
    AlpnOutcome, ConnectionSecurity, IpAddressSpace, ParsedNavigation, TlsVersion, WebHost,
    WebOrigin, WebScheme, WebTarget,
};

const URL: &str = "https://site.example/page";
const TLS: ConnectionSecurity = ConnectionSecurity::Tls {
    version: TlsVersion::Tls12,
    alpn: AlpnOutcome::NotNegotiated,
};
const PROJECTED: NavigationConnectionSecurity = NavigationConnectionSecurity::AuthenticatedTls {
    version: NavigationTlsVersion::Tls12,
    alpn: NavigationAlpn::NotNegotiated,
};

fn parsed(url: &str) -> ParsedNavigation {
    ParsedNavigation {
        identity: url.to_owned(),
        target: WebTarget {
            url: url.to_owned(),
            origin: WebOrigin {
                scheme: WebScheme::Https,
                host: WebHost::Domain("site.example".to_owned()),
                port: 443,
            },
        },
    }
}

fn version(revision: u64) -> DocumentVersion {
    DocumentVersion {
        document_id: 7,
        revision,
    }
}

fn navigation(context: u64) -> NavigationId {
    NavigationId::new(
        TopLevelContextId::new(context).unwrap(),
        NavigationGeneration::initial(),
    )
}

fn response(security: ConnectionSecurity) -> CommittedResponseAuthority {
    CommittedResponseAuthority {
        key: 40,
        security,
        address_space: IpAddressSpace { code: 2 },
    }
}

fn from_response(redirects: u8) -> NavigationCommitMetadata {
    NavigationCommitMetadata::from_general_web_response(
        URL,
        redirects,
        true,
        Some(&parsed(URL)),
        true,
        response(TLS),
    )
    .unwrap()
}

#[test]
fn requests_are_bounded_and_keep_their_capability() {
    assert_eq!(
        NavigationRequest::new("").err(),
        Some(NavigationRequestError::EmptyUrl)
    );
    let loopback = NavigationRequest::new("loopback").unwrap();
    assert_eq!(
        loopback.network_capability(),
        NavigationNetworkCapability::NumericLoopback
    );
    let web = NavigationRequest::general_web(URL).unwrap();
    assert_eq!(web.url(), URL);
    assert_eq!(
        web.network_capability(),
        NavigationNetworkCapability::GeneralWeb
    );
}

#[test]
fn a_final_response_becomes_a_commitment() {
    let commit = from_response(3);
    assert_eq!(commit.final_url(), URL);
    assert_eq!(commit.redirect_count(), 3);
    assert_eq!(commit.security(), PROJECTED);
    assert!(commit.had_https_downgrade());
    assert_eq!(commit.address_space(), Some(IpAddressSpace { code: 2 }));
    assert_eq!(commit.document_version(), None);
    assert_eq!(commit.ledger_key(), None);

    let refuse = |url: &str, redirects, answer: Option<ParsedNavigation>, matches, security| {
        NavigationCommitMetadata::from_general_web_response(
            url,
            redirects,
            false,
            answer.as_ref(),
            matches,
            response(security),
        )
        .err()
    };
    assert_eq!(
        refuse("", 0, Some(parsed(URL)), true, TLS),
        Some(NavigationCommitValidationError::InvalidFinalUrl)
    );
    assert_eq!(
        refuse(URL, 0, None, true, TLS),
        Some(NavigationCommitValidationError::InvalidFinalUrl)
    );
    assert_eq!(
        refuse(URL, 0, Some(parsed("https://site.example/other")), true, TLS),
        Some(NavigationCommitValidationError::NonCanonicalFinalUrl)
    );
    assert_eq!(
        refuse(URL, 0, Some(parsed(URL)), false, TLS),
        Some(NavigationCommitValidationError::ResponseAuthorityMismatch)
    );
    assert_eq!(
        refuse(URL, 0, Some(parsed(URL)), true, ConnectionSecurity::Cleartext),
        Some(NavigationCommitValidationError::SchemeSecurityMismatch)
    );
    assert_eq!(
        refuse(
            URL,
            MAX_TOP_LEVEL_REDIRECTS + 1,
            Some(parsed(URL)),
            true,
            TLS
        ),
        Some(NavigationCommitValidationError::TooManyRedirects)
    );
}

#[test]
fn a_commitment_binds_one_document_and_one_navigation() {
    let (commit, issued) = from_response(0)
        .bind_document(version(1), 90, None)
        .unwrap();
    assert_eq!(issued, Some(90));
    assert_eq!(commit.document_version(), Some(version(1)));
    assert_eq!(commit.ledger_key(), Some(90));
    let mut ledger = StyleDocumentLifecycle::new();

    assert_eq!(
        commit
            .clone()
            .bind_document(version(2), 91, Some(&ledger))
            .err(),
        Some(NavigationCommitValidationError::DocumentIdentityMismatch)
    );
    let (again, issued) = commit
        .clone()
        .bind_document(version(1), 91, Some(&ledger))
        .unwrap();
    assert_eq!(issued, None);
    assert!(again.same_commitment(&commit));

    assert_eq!(
        from_response(0).bind_navigation(navigation(1), version(1), &mut ledger),
        Err(NavigationCommitValidationError::UnboundDocument)
    );
    assert_eq!(
        commit.bind_navigation(navigation(1), version(2), &mut ledger),
        Err(NavigationCommitValidationError::DocumentIdentityMismatch)
    );
    assert_eq!(
        commit.bind_navigation(navigation(1), version(1), &mut ledger),
        Ok(())
    );
    assert_eq!(
        commit.bind_navigation(navigation(2), version(1), &mut ledger),
        Err(NavigationCommitValidationError::NavigationIdentityMismatch)
    );
    assert_eq!(commit.navigation(&ledger), Some(navigation(1)));

    ledger.retire();
    assert_eq!(
        commit.bind_document(version(1), 92, Some(&ledger)).err(),
        Some(NavigationCommitValidationError::UnboundDocument)
    );
}

#[test]
fn only_a_bound_response_may_initiate_subresources() {
    let document = parsed(URL);
    let synthetic = NavigationCommitMetadata::new(URL, 0, PROJECTED, false).unwrap();
    assert_eq!(synthetic.validate_general_web(Some(&document)), Ok(()));
    assert_eq!(
        synthetic.validate_general_web_for_subresources(version(1), Some(&document), true),
        Err(NavigationCommitValidationError::UnverifiedAddressSpace)
    );
    let unverified =
        NavigationCommitMetadata::new(URL, 0, NavigationConnectionSecurity::Unverified, false)
            .unwrap();
    assert_eq!(
        unverified.validate_general_web(Some(&document)),
        Err(NavigationCommitValidationError::UnverifiedSecurity)
    );
    let cleartext =
        NavigationCommitMetadata::new(URL, 0, NavigationConnectionSecurity::Cleartext, false)
            .unwrap();
    assert_eq!(
        cleartext.validate_general_web(Some(&document)),
        Err(NavigationCommitValidationError::SchemeSecurityMismatch)
    );
    assert_eq!(
        from_response(0).validate_general_web_for_subresources(version(1), Some(&document), true),
        Err(NavigationCommitValidationError::UnboundDocument)
    );

    let (commit, _) = from_response(0)
        .bind_document(version(1), 90, None)
        .unwrap();
    let mut ledger = StyleDocumentLifecycle::new();
    assert_eq!(
        commit.validate_general_web_for_subresources(version(1), Some(&document), false),
        Err(NavigationCommitValidationError::ResponseAuthorityMismatch)
    );
    assert_eq!(
        commit.validate_general_web_for_subresources(version(2), Some(&document), true),
        Err(NavigationCommitValidationError::DocumentIdentityMismatch)
    );
    assert_eq!(
        commit.validate_general_web_for_navigation(
            navigation(1),
            version(1),
            Some(&document),
            true,
            &ledger
        ),
        Err(NavigationCommitValidationError::NavigationIdentityMismatch)
    );
    commit
        .bind_navigation(navigation(1), version(1), &mut ledger)
        .unwrap();
    assert_eq!(
        commit.validate_general_web_for_navigation(
            navigation(1),
            version(1),
            Some(&document),
            true,
            &ledger
        ),
        Ok(())
    );
}

#[test]
fn a_commitment_is_described_without_its_authority() {
    let unowned = StyleDocumentLifecycle::new();
    let commit = NavigationCommitMetadata::new(
        "https://site.example/\u{7f}\"q\"\t\\",
        2,
        NavigationConnectionSecurity::Cleartext,
        true,
    )
    .unwrap();
    assert_eq!(
        commit.description(&unowned),
        format!(
            "NavigationCommitMetadata {{ final_url: {:?}, redirect_count: 2, security: \
             Cleartext, had_https_downgrade: true, address_space: None, document_version: \
             None, navigation: None, .. }}",
            commit.final_url()
        )
    );

    let (bound, _) = from_response(0).bind_document(version(5), 9, None).unwrap();
    let mut ledger = StyleDocumentLifecycle::new();
    ledger
        .bind_navigation(NavigationId::new(
            TopLevelContextId::new(6).unwrap(),
            NavigationGeneration::new(7).unwrap(),
        ))
        .unwrap();
    assert_eq!(
        bound.description(&ledger),
        "NavigationCommitMetadata { final_url: \"https://site.example/page\", redirect_count: \
         0, security: AuthenticatedTls { version: Tls12, alpn: NotNegotiated }, \
         had_https_downgrade: true, address_space: Some(IpAddressSpace { code: 2 }), \
         document_version: Some(DocumentVersion { document_id: 7, revision: 5 }), navigation: \
         Some(NavigationId { context: TopLevelContextId(6), generation: \
         NavigationGeneration(7) }), .. }"
    );
}

#[test]
fn response_authority_is_given_only_to_a_valid_commitment() {
    let unbound = from_response(0);
    assert_eq!(unbound.response_authority(), Some(response(TLS)));
    assert_eq!(
        unbound.committed_response_authority(version(1), Some(&parsed(URL)), true),
        Err(NavigationCommitValidationError::UnboundDocument)
    );
    let (bound, _) = unbound.bind_document(version(1), 9, None).unwrap();
    assert_eq!(
        bound.committed_response_authority(version(1), Some(&parsed(URL)), true),
        Ok(response(TLS))
    );
    assert_eq!(
        bound.committed_response_authority(version(1), None, true),
        Err(NavigationCommitValidationError::InvalidFinalUrl)
    );
    assert_eq!(
        bound.committed_response_authority(version(1), Some(&parsed(URL)), false),
        Err(NavigationCommitValidationError::ResponseAuthorityMismatch)
    );
    assert_eq!(
        bound.committed_response_authority(version(2), Some(&parsed(URL)), true),
        Err(NavigationCommitValidationError::DocumentIdentityMismatch)
    );
}
