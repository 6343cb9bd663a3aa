use wild_buzzard_engine::commit::{NavigationCommitMetadata, NavigationConnectionSecurity};
use wild_buzzard_engine::content_type::{
    ContentTypeInput, MalformedContentType, MAX_CONTENT_TYPE_CHARSETS,
};
use wild_buzzard_engine::document_policy::{
    capture_document_response_metadata, checked_add, CapturedDocumentResponseMetadata,
    DocumentPolicyError, DocumentPolicyField, DocumentPolicyLimit, ReferrerPolicyInput,
    MAX_CONTENT_TYPE_FIELDS, MAX_CONTENT_TYPE_FIELD_BYTES, MAX_CSP_BYTES, MAX_CSP_FIELD_BYTES,
    MAX_DOCUMENT_POLICY_INPUT_BYTES, MAX_ENFORCING_CSP_FIELDS,
    MAX_RECOGNIZED_REFERRER_POLICY_INPUTS, MAX_REFERRER_POLICY_FIELDS,
    MAX_REFERRER_POLICY_FIELD_BYTES, MAX_REFERRER_POLICY_TOKENS, MAX_REPORT_ONLY_CSP_FIELDS,
    MAX_SET_COOKIE_BYTES, MAX_SET_COOKIE_FIELDS,
};
use wild_buzzard_engine::headers::Headers;
use wild_buzzard_engine::identity::DocumentVersion;

fn headers(fields: &[(&str, &[u8])]) -> Headers {
    let mut headers = Headers::new();
    for (name, value) in fields {
        append(&mut headers, name, value);
    }
    headers
}

fn append(headers: &mut Headers, name: &str, value: &[u8]) {
    headers.append(name.as_bytes(), value.to_vec());
}

fn capture(headers: &Headers) -> Result<CapturedDocumentResponseMetadata, DocumentPolicyError> {
    let commit = NavigationCommitMetadata::new(
        "http://example.test/",
        0,
        NavigationConnectionSecurity::Cleartext,
        false,
    )
    .unwrap();
    let version = DocumentVersion { document_id: 1, revision: 1 };
    capture_document_response_metadata(headers).map(|metadata| metadata.bind(version, commit))
}

fn refusal(headers: &Headers) -> Option<DocumentPolicyError> {
    capture(headers).err()
}

#[test]
fn duplicates_remain_separate_and_sensitive_debug_is_redacted() {
    let captured = match capture(&headers(&[
        (
            "CONTENT-SECURITY-POLICY",
            b"default-src 'self'; report-uri https://secret.invalid/a",
        ),
        ("content-security-policy", b"img-src https:"),
        ("Content-Security-Policy-Report-Only", b"script-src 'none'"),
        ("Referrer-Policy", b"unknown, ORIGIN, no-referrer"),
        ("CONTENT-TYPE", b"Text/HTML; Charset=\"UTF-8\""),
        ("content-type", b"application/xhtml+xml; charset=iso-8859-1"),
        ("Set-Cookie", b"session=top-secret; HttpOnly"),
    ])) {
        Ok(captured) => captured,
        Err(error) => panic!("{error:?}"),
    };

    assert_eq!(captured.enforcing_csp_fields().len(), 2);
    assert_eq!(captured.enforcing_csp_fields()[1].as_bytes(), b"img-src https:");
    assert_eq!(captured.report_only_csp_fields().len(), 1);
    assert_eq!(
        captured.referrer_policy().recognized_inputs(),
        [ReferrerPolicyInput::Origin, ReferrerPolicyInput::NoReferrer]
    );
    assert_eq!(captured.referrer_policy().ignored_token_count(), 1);
    assert_eq!(captured.content_type_fields().len(), 2);
    assert_eq!(captured.set_cookie().field_count(), 1);
    assert_eq!(
        captured.set_cookie().value_bytes(),
        b"session=top-secret; HttpOnly".len()
    );

    let csp_debug = captured.enforcing_csp_fields()[0].redacted();
    assert!(!csp_debug.contains("secret"));
    assert_eq!(csp_debug, format!("CspFieldValue {{ bytes: {}, .. }}", 55));
}

#[test]
fn malformed_content_types_are_typed_without_retaining_raw_values() {
    let captured = match capture(&headers(&[
        ("Content-Type", b"not-a-media-type"),
        ("Content-Type", b"text/html; charset=\"unterminated"),
        ("Content-Type", b"text/html; charset=\"has space\""),
        ("Content-Type", b"text/\xffhtml"),
    ])) {
        Ok(captured) => captured,
        Err(error) => panic!("{error:?}"),
    };
    assert_eq!(
        captured.content_type_fields(),
        [
            ContentTypeInput::Malformed(MalformedContentType::InvalidMediaType),
            ContentTypeInput::Malformed(MalformedContentType::InvalidParameter),
            ContentTypeInput::Malformed(MalformedContentType::InvalidCharset),
            ContentTypeInput::Malformed(MalformedContentType::NonAscii),
        ]
    );
}

#[test]
fn checked_overflow_and_count_limits_are_typed() {
    assert_eq!(
        checked_add(
            usize::MAX,
            1,
            DocumentPolicyField::EnforcingContentSecurityPolicy
        ),
        Err(DocumentPolicyError::CounterOverflow {
            field: DocumentPolicyField::EnforcingContentSecurityPolicy
        })
    );

    let mut many = Headers::new();
    for _ in 0..=MAX_ENFORCING_CSP_FIELDS {
        append(&mut many, "Content-Security-Policy", b"default-src 'self'");
    }
    assert!(matches!(
        refusal(&many),
        Some(DocumentPolicyError::LimitExceeded {
            field: DocumentPolicyField::EnforcingContentSecurityPolicy,
            limit: DocumentPolicyLimit::FieldCount,
            actual,
            maximum: MAX_ENFORCING_CSP_FIELDS,
        }) if actual == MAX_ENFORCING_CSP_FIELDS + 1
    ));
}

#[test]
fn oversized_values_fail_before_copying() {
    let value = vec![b'a'; MAX_CSP_FIELD_BYTES + 1];
    let captured = refusal(&headers(&[("Content-Security-Policy", &value)]));
    assert!(matches!(
        captured,
        Some(DocumentPolicyError::LimitExceeded {
            field: DocumentPolicyField::EnforcingContentSecurityPolicy,
            limit: DocumentPolicyLimit::FieldBytes,
            actual,
            maximum: MAX_CSP_FIELD_BYTES,
        }) if actual == MAX_CSP_FIELD_BYTES + 1
    ));
}

#[test]
fn every_csp_bound_admits_its_edge_and_rejects_the_next_unit() {
    let maximum_value = vec![b'a'; MAX_CSP_FIELD_BYTES];
    assert!(capture(&headers(&[("Content-Security-Policy", &maximum_value)])).is_ok());
    let oversized_value = vec![b'a'; MAX_CSP_FIELD_BYTES + 1];
    assert!(matches!(
        refusal(&headers(&[("Content-Security-Policy", &oversized_value)])),
        Some(DocumentPolicyError::LimitExceeded {
            field: DocumentPolicyField::EnforcingContentSecurityPolicy,
            limit: DocumentPolicyLimit::FieldBytes,
            maximum: MAX_CSP_FIELD_BYTES,
            ..
        })
    ));

    for (name, maximum) in [
        ("Content-Security-Policy", MAX_ENFORCING_CSP_FIELDS),
        (
            "Content-Security-Policy-Report-Only",
            MAX_REPORT_ONLY_CSP_FIELDS,
        ),
    ] {
        let mut exact = Headers::new();
        for _ in 0..maximum {
            append(&mut exact, name, b"");
        }
        assert!(capture(&exact).is_ok());
        append(&mut exact, name, b"");
        assert!(matches!(
            refusal(&exact),
            Some(DocumentPolicyError::LimitExceeded {
                limit: DocumentPolicyLimit::FieldCount,
                actual,
                maximum: expected,
                ..
            }) if actual == maximum + 1 && expected == maximum
        ));
    }

    let mut aggregate = Headers::new();
    append(&mut aggregate, "Content-Security-Policy", &maximum_value);
    append(
        &mut aggregate,
        "Content-Security-Policy-Report-Only",
        &maximum_value,
    );
    assert!(capture(&aggregate).is_ok());
    append(&mut aggregate, "Content-Security-Policy", b"x");
    assert!(matches!(
        refusal(&aggregate),
        Some(DocumentPolicyError::LimitExceeded {
            limit: DocumentPolicyLimit::AggregateBytes,
            actual,
            maximum: MAX_CSP_BYTES,
            ..
        }) if actual == MAX_CSP_BYTES + 1
    ));
}

#[test]
fn every_referrer_bound_admits_its_edge_and_rejects_the_next_unit() {
    let mut fields = Headers::new();
    for _ in 0..MAX_REFERRER_POLICY_FIELDS {
        append(&mut fields, "Referrer-Policy", b"");
    }
    assert!(capture(&fields).is_ok());
    append(&mut fields, "Referrer-Policy", b"");
    assert!(matches!(
        refusal(&fields),
        Some(DocumentPolicyError::LimitExceeded {
            limit: DocumentPolicyLimit::FieldCount,
            actual,
            maximum: MAX_REFERRER_POLICY_FIELDS,
            ..
        }) if actual == MAX_REFERRER_POLICY_FIELDS + 1
    ));

    let exact_bytes = vec![b'x'; MAX_REFERRER_POLICY_FIELD_BYTES];
    assert!(capture(&headers(&[("Referrer-Policy", &exact_bytes)])).is_ok());
    let excess_bytes = vec![b'x'; MAX_REFERRER_POLICY_FIELD_BYTES + 1];
    assert!(matches!(
        refusal(&headers(&[("Referrer-Policy", &excess_bytes)])),
        Some(DocumentPolicyError::LimitExceeded {
            limit: DocumentPolicyLimit::FieldBytes,
            maximum: MAX_REFERRER_POLICY_FIELD_BYTES,
            ..
        })
    ));

    let exact_tokens = vec!["unknown"; MAX_REFERRER_POLICY_TOKENS].join(",");
    match capture(&headers(&[("Referrer-Policy", exact_tokens.as_bytes())])) {
        Ok(exact) => assert_eq!(
            exact.referrer_policy().ignored_token_count(),
            MAX_REFERRER_POLICY_TOKENS
        ),
        Err(error) => panic!("{error:?}"),
    }
    let excess_tokens = vec!["unknown"; MAX_REFERRER_POLICY_TOKENS + 1].join(",");
    assert!(matches!(
        refusal(&headers(&[("Referrer-Policy", excess_tokens.as_bytes())])),
        Some(DocumentPolicyError::LimitExceeded {
            limit: DocumentPolicyLimit::TokenCount,
            actual,
            maximum: MAX_REFERRER_POLICY_TOKENS,
            ..
        }) if actual == MAX_REFERRER_POLICY_TOKENS + 1
    ));

    let exact_recognized = vec!["origin"; MAX_RECOGNIZED_REFERRER_POLICY_INPUTS].join(",");
    match capture(&headers(&[("Referrer-Policy", exact_recognized.as_bytes())])) {
        Ok(exact) => {
            assert_eq!(
                exact.referrer_policy().recognized_inputs().len(),
                MAX_RECOGNIZED_REFERRER_POLICY_INPUTS
            );
            assert_eq!(
                exact.referrer_policy().last_recognized_input(),
                Some(ReferrerPolicyInput::Origin)
            );
        }
        Err(error) => panic!("{error:?}"),
    }
    let excess_recognized = vec!["origin"; MAX_RECOGNIZED_REFERRER_POLICY_INPUTS + 1].join(",");
    assert!(matches!(
        refusal(&headers(&[("Referrer-Policy", excess_recognized.as_bytes())])),
        Some(DocumentPolicyError::LimitExceeded {
            limit: DocumentPolicyLimit::RetainedInputCount,
            actual,
            maximum: MAX_RECOGNIZED_REFERRER_POLICY_INPUTS,
            ..
        }) if actual == MAX_RECOGNIZED_REFERRER_POLICY_INPUTS + 1
    ));
}

#[test]
fn every_content_type_bound_admits_its_edge_and_rejects_the_next_unit() {
    let mut fields = Headers::new();
    for _ in 0..MAX_CONTENT_TYPE_FIELDS {
        append(&mut fields, "Content-Type", b"text/html");
    }
    assert!(capture(&fields).is_ok());
    append(&mut fields, "Content-Type", b"text/plain");
    assert!(matches!(
        refusal(&fields),
        Some(DocumentPolicyError::LimitExceeded {
            limit: DocumentPolicyLimit::FieldCount,
            actual,
            maximum: MAX_CONTENT_TYPE_FIELDS,
            ..
        }) if actual == MAX_CONTENT_TYPE_FIELDS + 1
    ));

    let exact_bytes = vec![b'x'; MAX_CONTENT_TYPE_FIELD_BYTES];
    assert!(capture(&headers(&[("Content-Type", &exact_bytes)])).is_ok());
    let excess_bytes = vec![b'x'; MAX_CONTENT_TYPE_FIELD_BYTES + 1];
    assert!(matches!(
        refusal(&headers(&[("Content-Type", &excess_bytes)])),
        Some(DocumentPolicyError::LimitExceeded {
            limit: DocumentPolicyLimit::FieldBytes,
            maximum: MAX_CONTENT_TYPE_FIELD_BYTES,
            ..
        })
    ));

    let exact_charsets = format!(
        "text/html{}",
        ";charset=utf-8".repeat(MAX_CONTENT_TYPE_CHARSETS)
    );
    let exact = match capture(&headers(&[("Content-Type", exact_charsets.as_bytes())])) {
        Ok(exact) => exact,
        Err(error) => panic!("{error:?}"),
    };
    let ContentTypeInput::Parsed(parsed) = &exact.content_type_fields()[0] else {
        panic!("exact charset edge must parse");
    };
    assert_eq!(parsed.charsets().len(), MAX_CONTENT_TYPE_CHARSETS);
    assert_eq!(parsed.media_type(), "text/html");
    let excess_charsets = format!(
        "text/html{}",
        ";charset=utf-8".repeat(MAX_CONTENT_TYPE_CHARSETS + 1)
    );
    assert!(matches!(
        refusal(&headers(&[("Content-Type", excess_charsets.as_bytes())])),
        Some(DocumentPolicyError::LimitExceeded {
            limit: DocumentPolicyLimit::CharsetCount,
            actual,
            maximum: MAX_CONTENT_TYPE_CHARSETS,
            ..
        }) if actual == MAX_CONTENT_TYPE_CHARSETS + 1
    ));
}

#[test]
fn cookie_and_global_bounds_admit_their_edges_and_reject_the_next_unit() {
    let mut fields = Headers::new();
    for _ in 0..MAX_SET_COOKIE_FIELDS {
        append(&mut fields, "Set-Cookie", b"");
    }
    assert!(capture(&fields).is_ok());
    append(&mut fields, "Set-Cookie", b"");
    assert!(matches!(
        refusal(&fields),
        Some(DocumentPolicyError::LimitExceeded {
            field: DocumentPolicyField::SetCookie,
            limit: DocumentPolicyLimit::FieldCount,
            actual,
            maximum: MAX_SET_COOKIE_FIELDS,
        }) if actual == MAX_SET_COOKIE_FIELDS + 1
    ));

    let exact_cookie_bytes = vec![b'x'; MAX_SET_COOKIE_BYTES];
    match capture(&headers(&[("Set-Cookie", &exact_cookie_bytes)])) {
        Ok(exact) => assert_eq!(exact.set_cookie().value_bytes(), MAX_SET_COOKIE_BYTES),
        Err(error) => panic!("{error:?}"),
    }
    let excess_cookie_bytes = vec![b'x'; MAX_SET_COOKIE_BYTES + 1];
    assert!(matches!(
        refusal(&headers(&[("Set-Cookie", &excess_cookie_bytes)])),
        Some(DocumentPolicyError::LimitExceeded {
            field: DocumentPolicyField::SetCookie,
            limit: DocumentPolicyLimit::AggregateBytes,
            actual,
            maximum: MAX_SET_COOKIE_BYTES,
        }) if actual == MAX_SET_COOKIE_BYTES + 1
    ));

    let half_global = vec![b'x'; MAX_DOCUMENT_POLICY_INPUT_BYTES / 2];
    let mut global = Headers::new();
    append(
        &mut global,
        "Content-Security-Policy",
        &half_global[..MAX_CSP_FIELD_BYTES],
    );
    append(
        &mut global,
        "Content-Security-Policy-Report-Only",
        &half_global[..MAX_CSP_FIELD_BYTES],
    );
    append(&mut global, "Set-Cookie", &half_global);
    assert!(capture(&global).is_ok());
    append(&mut global, "Referrer-Policy", b"x");
    assert!(matches!(
        refusal(&global),
        Some(DocumentPolicyError::LimitExceeded {
            field: DocumentPolicyField::Aggregate,
            limit: DocumentPolicyLimit::AggregateBytes,
            actual,
            maximum: MAX_DOCUMENT_POLICY_INPUT_BYTES,
        }) if actual == MAX_DOCUMENT_POLICY_INPUT_BYTES + 1
    ));
}
