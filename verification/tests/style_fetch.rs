use wild_buzzard_engine::mime::extract_mime_type;
use wild_buzzard_engine::style_fetch::{
    sealed_transport_config, StyleFetchLimit, StyleFetchOwnerError, StyleFetchRejection,
    StyleFetchTransportPolicy, MAX_STYLE_FETCH_CHUNK_LINE_BYTES,
    MAX_STYLE_FETCH_CONNECTION_ATTEMPTS, MAX_STYLE_FETCH_DNS_CANDIDATES,
    MAX_STYLE_FETCH_INFORMATIONAL_RESPONSES, MAX_STYLE_FETCH_REQUEST_BODY_BYTES,
    MAX_STYLE_FETCH_REQUEST_HEADER_FIELDS, MAX_STYLE_FETCH_REQUEST_HEAD_BYTES,
    MAX_STYLE_FETCH_TLS_HANDSHAKE_BYTES, MAX_STYLE_FETCH_WIRE_BODY_BYTES,
    MAX_STYLE_FETCH_WIRE_HEADER_BYTES, MAX_STYLE_FETCH_WIRE_HEADER_FIELDS,
    STYLE_FETCH_CONNECT_TIMEOUT_SECONDS, STYLE_FETCH_DNS_TIMEOUT_SECONDS,
    STYLE_FETCH_READ_TIMEOUT_SECONDS, STYLE_FETCH_TLS_HANDSHAKE_TIMEOUT_SECONDS,
    STYLE_FETCH_WRITE_TIMEOUT_SECONDS,
};
use wild_buzzard_engine::style_transport::validate_mixed_content;
use wild_buzzard_engine::web::{IpAddress, WebHost, WebOrigin, WebScheme};

type MimeCase<'a> = (&'a [u8], &'a [u8], Option<&'a [u8]>);

#[test]
fn sealed_transport_uses_every_explicit_v1_field_at_the_style_policy() {
    let config = sealed_transport_config(StyleFetchTransportPolicy::default());

    assert_eq!(config.max_header_bytes, MAX_STYLE_FETCH_WIRE_HEADER_BYTES);
    assert_eq!(config.max_header_count, MAX_STYLE_FETCH_WIRE_HEADER_FIELDS);
    assert_eq!(config.max_body_bytes, MAX_STYLE_FETCH_WIRE_BODY_BYTES);
    assert_eq!(
        config.max_request_head_bytes,
        MAX_STYLE_FETCH_REQUEST_HEAD_BYTES
    );
    assert_eq!(
        config.max_request_header_count,
        MAX_STYLE_FETCH_REQUEST_HEADER_FIELDS
    );
    assert_eq!(
        config.max_request_body_bytes,
        MAX_STYLE_FETCH_REQUEST_BODY_BYTES
    );
    assert_eq!(
        config.max_chunk_line_bytes,
        MAX_STYLE_FETCH_CHUNK_LINE_BYTES
    );
    assert_eq!(
        config.max_informational_responses,
        MAX_STYLE_FETCH_INFORMATIONAL_RESPONSES
    );
    assert_eq!(config.connect_timeout, STYLE_FETCH_CONNECT_TIMEOUT_SECONDS);
    assert_eq!(config.read_timeout, STYLE_FETCH_READ_TIMEOUT_SECONDS);
    assert_eq!(config.write_timeout, STYLE_FETCH_WRITE_TIMEOUT_SECONDS);
    assert_eq!(config.dns_timeout, STYLE_FETCH_DNS_TIMEOUT_SECONDS);
    assert_eq!(
        config.tls_handshake_timeout,
        STYLE_FETCH_TLS_HANDSHAKE_TIMEOUT_SECONDS
    );
    assert_eq!(config.max_dns_candidates, MAX_STYLE_FETCH_DNS_CANDIDATES);
    assert_eq!(
        config.max_connection_attempts,
        MAX_STYLE_FETCH_CONNECTION_ATTEMPTS
    );
    assert_eq!(
        config.max_tls_handshake_bytes,
        MAX_STYLE_FETCH_TLS_HANDSHAKE_BYTES
    );
}

#[test]
fn a_transport_policy_only_narrows() {
    assert_eq!(
        StyleFetchTransportPolicy::new(MAX_STYLE_FETCH_CHUNK_LINE_BYTES + 1),
        Err(StyleFetchOwnerError::LimitWouldEnlarge(
            StyleFetchLimit::WireChunkLineBytes
        ))
    );
    let narrowed = StyleFetchTransportPolicy::new(16).unwrap();
    assert_eq!(sealed_transport_config(narrowed).max_chunk_line_bytes, 16);
}

#[test]
fn firefox_content_types_one_through_twenty_select_exact_essence_and_charset() {
    let cases: [MimeCase<'_>; 20] = [
        (b",text/plain", b"text/plain", None),
        (b"text/plain,", b"text/plain", None),
        (b"text/html,text/plain", b"text/plain", None),
        (b"text/plain;charset=gbk,text/html", b"text/html", None),
        (
            b"text/plain;charset=gbk,text/html;charset=windows-1254",
            b"text/html",
            Some(b"windows-1254"),
        ),
        (
            b"text/plain;charset=gbk,text/plain",
            b"text/plain",
            Some(b"gbk"),
        ),
        (
            b"text/plain;charset=gbk,text/plain;charset=windows-1252",
            b"text/plain",
            Some(b"windows-1252"),
        ),
        (
            b"text/html;charset=gbk,text/html;x=\",text/plain",
            b"text/html",
            Some(b"gbk"),
        ),
        (
            b"text/plain;charset=gbk;x=foo,text/plain",
            b"text/plain",
            Some(b"gbk"),
        ),
        (
            b"text/html;charset=gbk,text/plain,text/html",
            b"text/html",
            None,
        ),
        (b"text/plain,*/*", b"text/plain", None),
        (b"text/html,*/*", b"text/html", None),
        (b"*/*,text/html", b"text/html", None),
        (b"text/plain,*/*;charset=gbk", b"text/plain", None),
        (b"text/html,*/*;charset=gbk", b"text/html", None),
        (b"text/html;x=\",text/plain", b"text/html", None),
        (b"text/html;\",text/plain", b"text/html", None),
        (b"text/html;\",\\\",text/plain", b"text/html", None),
        (
            b"text/html;\",\\\",text/plain,\";charset=GBK",
            b"text/html",
            Some(b"GBK"),
        ),
        (b"text/html;\",\",text/plain", b"text/plain", None),
    ];

    for (index, (value, essence, charset)) in cases.into_iter().enumerate() {
        let extracted = extract_mime_type(value)
            .expect("bounded MIME extraction")
            .unwrap_or_else(|| panic!("contentTypes{} did not parse", index + 1));
        assert_eq!(
            extracted.essence.main_type.len() + 1 + extracted.essence.subtype.len(),
            essence.len()
        );
        let slash = essence
            .iter()
            .position(|byte| *byte == b'/')
            .expect("expected essence slash");
        assert!(extracted
            .essence
            .main_type
            .eq_ignore_ascii_case(&essence[..slash]));
        assert!(extracted
            .essence
            .subtype
            .eq_ignore_ascii_case(&essence[slash + 1..]));
        assert_eq!(
            extracted.charset.as_deref(),
            charset,
            "contentTypes{}",
            index + 1
        );
    }
}

fn origin(url: &str) -> WebOrigin {
    let authority = url
        .strip_prefix("http://")
        .and_then(|rest| rest.split('/').next())
        .expect("an http URL");
    let octets: Vec<u8> = authority
        .split('.')
        .filter_map(|octet| octet.parse().ok())
        .collect();
    let host = match (authority, octets.as_slice()) {
        ("[::1]", _) => WebHost::Ip(IpAddress::V6(1)),
        ("[::ffff:127.0.0.1]", _) => WebHost::Ip(IpAddress::V6(0xffff_7f00_0001)),
        (_, [first, second, third, fourth]) => {
            WebHost::Ip(IpAddress::V4(*first, *second, *third, *fourth))
        }
        (domain, _) => WebHost::Domain(domain.to_owned()),
    };
    WebOrigin {
        scheme: WebScheme::Http,
        host,
        port: 80,
    }
}

#[test]
fn shared_initial_and_redirect_mixed_content_gate_is_syntactic_only() {
    for admitted in [
        "http://localhost/style.css",
        "http://localhost./style.css",
        "http://sub.localhost/style.css",
        "http://sub.localhost./style.css",
        "http://127.0.0.1/style.css",
        "http://127.255.255.254/style.css",
        "http://[::1]/style.css",
    ] {
        assert_eq!(
            validate_mixed_content(WebScheme::Https, &origin(admitted)),
            Ok(()),
            "{admitted}"
        );
    }

    for rejected in [
        "http://0.0.0.0/style.css",
        "http://126.255.255.255/style.css",
        "http://128.0.0.1/style.css",
        "http://[::ffff:127.0.0.1]/style.css",
        "http://example.test/style.css",
    ] {
        assert_eq!(
            validate_mixed_content(WebScheme::Https, &origin(rejected)),
            Err(StyleFetchRejection::MixedContent),
            "{rejected}"
        );
    }
}
