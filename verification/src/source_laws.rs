//! What the tokens of a source list mean.

use vstd::prelude::*;

use crate::bytes::ByteClass;
use crate::csp_source::{CanonicalHosts, HostPatternModel, PortPattern, SourceModel};
use crate::web::{HostModel, WebScheme};

verus! {

/// The keywords, as bytes.
proof fn keyword_bytes()
    ensures
        crate::bytes::text("'self'"@) == seq![0x27u8, 0x73, 0x65, 0x6c, 0x66, 0x27],
        crate::bytes::text("'unsafe-inline'"@).len() == 15,
        crate::bytes::text("'unsafe-inline'"@)[0] == 0x27,
        crate::bytes::text("'unsafe-inline'"@)[1] == 0x75,
        crate::bytes::text("*"@) == seq![0x2au8],
        crate::bytes::text("*."@) == seq![0x2au8, 0x2e],
        crate::bytes::text("http:"@) == seq![0x68u8, 0x74, 0x74, 0x70, 0x3a],
        crate::bytes::text("https:"@) == seq![0x68u8, 0x74, 0x74, 0x70, 0x73, 0x3a],
        crate::bytes::text("http://"@) == seq![0x68u8, 0x74, 0x74, 0x70, 0x3a, 0x2f, 0x2f],
        crate::bytes::text("https://"@) == seq![0x68u8, 0x74, 0x74, 0x70, 0x73, 0x3a, 0x2f, 0x2f],
        crate::bytes::text("://"@) == seq![0x3au8, 0x2f, 0x2f],
        crate::bytes::text("nonce-"@) == seq![0x6eu8, 0x6f, 0x6e, 0x63, 0x65, 0x2d],
        crate::bytes::text("sha256-"@) == seq![0x73u8, 0x68, 0x61, 0x32, 0x35, 0x36, 0x2d],
        crate::bytes::text("sha384-"@) == seq![0x73u8, 0x68, 0x61, 0x33, 0x38, 0x34, 0x2d],
        crate::bytes::text("sha512-"@) == seq![0x73u8, 0x68, 0x61, 0x35, 0x31, 0x32, 0x2d],
{
    reveal_strlit("'self'");
    assert("'self'".is_ascii());
    vstd::utf8::is_ascii_chars_encode_utf8("'self'"@);
    assert(crate::bytes::text("'self'"@) =~= seq![0x27u8, 0x73, 0x65, 0x6c, 0x66, 0x27]);
    reveal_strlit("'unsafe-inline'");
    assert("'unsafe-inline'".is_ascii());
    vstd::utf8::is_ascii_chars_encode_utf8("'unsafe-inline'"@);
    reveal_strlit("*");
    assert("*".is_ascii());
    vstd::utf8::is_ascii_chars_encode_utf8("*"@);
    assert(crate::bytes::text("*"@) =~= seq![0x2au8]);
    reveal_strlit("*.");
    assert("*.".is_ascii());
    vstd::utf8::is_ascii_chars_encode_utf8("*."@);
    assert(crate::bytes::text("*."@) =~= seq![0x2au8, 0x2e]);
    reveal_strlit("http:");
    assert("http:".is_ascii());
    vstd::utf8::is_ascii_chars_encode_utf8("http:"@);
    assert(crate::bytes::text("http:"@) =~= seq![0x68u8, 0x74, 0x74, 0x70, 0x3a]);
    reveal_strlit("https:");
    assert("https:".is_ascii());
    vstd::utf8::is_ascii_chars_encode_utf8("https:"@);
    assert(crate::bytes::text("https:"@) =~= seq![0x68u8, 0x74, 0x74, 0x70, 0x73, 0x3a]);
    reveal_strlit("http://");
    assert("http://".is_ascii());
    vstd::utf8::is_ascii_chars_encode_utf8("http://"@);
    assert(crate::bytes::text("http://"@) =~= seq![0x68u8, 0x74, 0x74, 0x70, 0x3a, 0x2f, 0x2f]);
    reveal_strlit("https://");
    assert("https://".is_ascii());
    vstd::utf8::is_ascii_chars_encode_utf8("https://"@);
    assert(crate::bytes::text("https://"@) =~= seq![
        0x68u8,
        0x74,
        0x74,
        0x70,
        0x73,
        0x3a,
        0x2f,
        0x2f,
    ]);
    reveal_strlit("://");
    assert("://".is_ascii());
    vstd::utf8::is_ascii_chars_encode_utf8("://"@);
    assert(crate::bytes::text("://"@) =~= seq![0x3au8, 0x2f, 0x2f]);
    reveal_strlit("nonce-");
    assert("nonce-".is_ascii());
    vstd::utf8::is_ascii_chars_encode_utf8("nonce-"@);
    assert(crate::bytes::text("nonce-"@) =~= seq![0x6eu8, 0x6f, 0x6e, 0x63, 0x65, 0x2d]);
    reveal_strlit("sha256-");
    assert("sha256-".is_ascii());
    vstd::utf8::is_ascii_chars_encode_utf8("sha256-"@);
    assert(crate::bytes::text("sha256-"@) =~= seq![0x73u8, 0x68, 0x61, 0x32, 0x35, 0x36, 0x2d]);
    reveal_strlit("sha384-");
    assert("sha384-".is_ascii());
    vstd::utf8::is_ascii_chars_encode_utf8("sha384-"@);
    assert(crate::bytes::text("sha384-"@) =~= seq![0x73u8, 0x68, 0x61, 0x33, 0x38, 0x34, 0x2d]);
    reveal_strlit("sha512-");
    assert("sha512-".is_ascii());
    vstd::utf8::is_ascii_chars_encode_utf8("sha512-"@);
    assert(crate::bytes::text("sha512-"@) =~= seq![0x73u8, 0x68, 0x61, 0x35, 0x31, 0x32, 0x2d]);
}

/// Words that differ at some place are different words.
pub proof fn differ_at(token: Seq<u8>, word: Seq<u8>, i: int)
    requires
        0 <= i < word.len(),
        i < token.len() ==> crate::bytes::lower(token[i]) != crate::bytes::lower(word[i]),
    ensures
        !crate::bytes::same_word(token, word),
{
    if crate::bytes::same_word(token, word) {
        let (a, b) = (crate::bytes::lowered(token), crate::bytes::lowered(word));
        assert(a.len() == token.len() && b.len() == word.len());
        assert(a[i] == b[i]);
    }
}

/// The same word has the same letters.
pub proof fn same_letters(token: Seq<u8>, word: Seq<u8>)
    requires
        crate::bytes::same_word(token, word),
    ensures
        token.len() == word.len(),
        forall|i: int|
            0 <= i < word.len() ==> crate::bytes::lower(#[trigger] token[i])
                == crate::bytes::lower(word[i]),
{
    let (a, b) = (crate::bytes::lowered(token), crate::bytes::lowered(word));
    assert(a.len() == token.len() && b.len() == word.len());
    assert forall|i: int| 0 <= i < word.len() implies crate::bytes::lower(#[trigger] token[i])
        == crate::bytes::lower(word[i]) by {
        assert(a[i] == b[i]);
    }
}

/// Each keyword, and nothing else, has its meaning: case does not matter, and
/// the star stands alone.
#[verifier::rlimit(50)]
#[verifier::spinoff_prover]
pub proof fn keywords_have_one_meaning(
    token: Seq<u8>,
    scheme: WebScheme,
    hosts: CanonicalHosts,
)
    ensures
        crate::csp_source::source_of(token, scheme, hosts) is SelfOrigin
            <==> crate::bytes::same_word(token, crate::bytes::text("'self'"@)),
        crate::csp_source::source_of(token, scheme, hosts) is UnsafeInline
            <==> crate::bytes::same_word(token, crate::bytes::text("'unsafe-inline'"@)),
        crate::csp_source::source_of(token, scheme, hosts) is AnyNetwork <==> token
            == crate::bytes::text("*"@),
        crate::csp_source::source_of(token, scheme, hosts) == SourceModel::Scheme(WebScheme::Http)
            <==> crate::bytes::same_word(token, crate::bytes::text("http:"@)),
        crate::csp_source::source_of(token, scheme, hosts) == SourceModel::Scheme(WebScheme::Https)
            <==> crate::bytes::same_word(token, crate::bytes::text("https:"@)),
        !(crate::csp_source::source_of(token, scheme, hosts) is DenyAll),
{
    keyword_bytes();
    let own = crate::bytes::text("'self'"@);
    let inline_word = crate::bytes::text("'unsafe-inline'"@);
    let http = crate::bytes::text("http:"@);
    let https = crate::bytes::text("https:"@);
    if crate::bytes::same_word(token, own) {
        same_letters(token, own);
        assert(crate::bytes::lower(token[0]) == 0x27);
        assert(crate::bytes::lower(token[1]) == 0x73);
        differ_at(token, inline_word, 1);
    } else if crate::bytes::same_word(token, inline_word) {
        same_letters(token, inline_word);
        assert(crate::bytes::lower(token[0]) == 0x27);
    }
    if crate::bytes::same_word(token, http) {
        same_letters(token, http);
        assert(crate::bytes::lower(token[0]) == 0x68);
        differ_at(token, own, 0);
        differ_at(token, inline_word, 0);
    }
    if crate::bytes::same_word(token, https) {
        same_letters(token, https);
        assert(crate::bytes::lower(token[0]) == 0x68);
        differ_at(token, own, 0);
        differ_at(token, inline_word, 0);
    }
    if token == crate::bytes::text("*"@) {
        differ_at(token, own, 0);
        differ_at(token, inline_word, 0);
    }
}

/// A token in apostrophes, with a tag and a value.
pub open spec fn tagged(tag: Seq<u8>, value: Seq<u8>) -> Seq<u8> {
    seq!['\'' as u8] + tag + value + seq!['\'' as u8]
}

/// The parts of a tagged token.
proof fn tagged_parts(tag: Seq<u8>, value: Seq<u8>, word: Seq<u8>)
    requires
        crate::bytes::same_word(tag, word),
    ensures
        crate::csp_source::is_quoted(tagged(tag, value)),
        crate::csp_source::quoted_body(tagged(tag, value)) == tag + value,
        crate::bytes::starts_word(tag + value, word),
        crate::csp_source::behind(tag + value, word) == value,
{
    same_letters(tag, word);
    let token = tagged(tag, value);
    assert(crate::csp_source::quoted_body(token) =~= tag + value);
    assert((tag + value).take(word.len() as int) =~= tag);
    assert(crate::csp_source::behind(tag + value, word) =~= value);
}

/// Base-64 digits with up to two padding signs are a value.
proof fn padded_digits(digits: Seq<u8>, padding: Seq<u8>)
    requires
        digits.len() > 0,
        ByteClass::Base64.has_all(digits),
        padding.len() <= 2,
        forall|i: int| 0 <= i < padding.len() ==> #[trigger] padding[i] == '=' as u8,
    ensures
        crate::csp_source::is_base64_value(digits + padding),
{
    assert(ByteClass::Base64.has(digits[digits.len() - 1]));
    let value = digits + padding;
    if padding.len() == 0 {
        assert(value =~= digits);
    } else if padding.len() == 1 {
        assert(padding[0] == '=' as u8);
        assert(value.drop_last() =~= digits);
    } else {
        assert(padding[0] == '=' as u8);
        assert(padding[1] == '=' as u8);
        assert(value.drop_last().drop_last() =~= digits);
        assert(value.drop_last().last() == '=' as u8);
    }
}

/// A tagged nonce is read as what stands behind its tag.
proof fn tagged_nonce(token: Seq<u8>, scheme: WebScheme, hosts: CanonicalHosts)
    requires
        !crate::bytes::same_word(token, crate::bytes::text("'self'"@)),
        !crate::bytes::same_word(token, crate::bytes::text("'unsafe-inline'"@)),
        crate::csp_source::is_tagged_value(token, crate::bytes::text("nonce-"@)),
    ensures
        crate::csp_source::source_of(token, scheme, hosts) == SourceModel::Nonce(
            crate::csp_source::behind(
                crate::csp_source::quoted_body(token),
                crate::bytes::text("nonce-"@),
            ),
        ),
{
}

/// A tagged nonce is none of the keywords.
proof fn nonce_is_no_keyword(tag: Seq<u8>, value: Seq<u8>)
    requires
        crate::bytes::same_word(tag, crate::bytes::text("nonce-"@)),
    ensures
        !crate::bytes::same_word(tagged(tag, value), crate::bytes::text("'self'"@)),
        !crate::bytes::same_word(tagged(tag, value), crate::bytes::text("'unsafe-inline'"@)),
{
    let word = crate::bytes::text("nonce-"@);
    let token = tagged(tag, value);
    keyword_bytes();
    same_letters(tag, word);
    assert(token[1] == tag[0]);
    assert(crate::bytes::lower(token[1]) == 0x6e);
    differ_at(token, crate::bytes::text("'self'"@), 1);
    differ_at(token, crate::bytes::text("'unsafe-inline'"@), 1);
}

/// A nonce expression means exactly the value behind its tag.
#[verifier::rlimit(50)]
#[verifier::spinoff_prover]
pub proof fn nonce_tags_carry_values(
    tag: Seq<u8>,
    digits: Seq<u8>,
    padding: Seq<u8>,
    scheme: WebScheme,
    hosts: CanonicalHosts,
)
    requires
        crate::bytes::same_word(tag, crate::bytes::text("nonce-"@)),
        digits.len() > 0,
        ByteClass::Base64.has_all(digits),
        padding.len() <= 2,
        forall|i: int| 0 <= i < padding.len() ==> #[trigger] padding[i] == '=' as u8,
    ensures
        crate::csp_source::source_of(tagged(tag, digits + padding), scheme, hosts)
            == SourceModel::Nonce(digits + padding),
{
    let value = digits + padding;
    padded_digits(digits, padding);
    tagged_parts(tag, value, crate::bytes::text("nonce-"@));
    nonce_is_no_keyword(tag, value);
    tagged_nonce(tagged(tag, value), scheme, hosts);
}

/// A hash expression is no match, but it takes `'unsafe-inline'` away.
#[verifier::rlimit(50)]
#[verifier::spinoff_prover]
pub proof fn hash_tags_are_set_aside(
    tag: Seq<u8>,
    digits: Seq<u8>,
    padding: Seq<u8>,
    scheme: WebScheme,
    hosts: CanonicalHosts,
)
    requires
        crate::bytes::same_word(tag, crate::bytes::text("sha256-"@)) || crate::bytes::same_word(
            tag,
            crate::bytes::text("sha384-"@),
        ) || crate::bytes::same_word(tag, crate::bytes::text("sha512-"@)),
        digits.len() > 0,
        ByteClass::Base64.has_all(digits),
        padding.len() <= 2,
        forall|i: int| 0 <= i < padding.len() ==> #[trigger] padding[i] == '=' as u8,
    ensures
        crate::csp_source::source_of(
            tagged(tag, digits + padding),
            scheme,
            hosts,
        ) matches SourceModel::Unsupported { evidence, invalidates_unsafe_inline } && evidence.kind
            is Hash && invalidates_unsafe_inline && evidence.byte_len == tagged(
            tag,
            digits + padding,
        ).len() as usize,
{
    let value = digits + padding;
    let word = if crate::bytes::same_word(tag, crate::bytes::text("sha256-"@)) {
        crate::bytes::text("sha256-"@)
    } else if crate::bytes::same_word(tag, crate::bytes::text("sha384-"@)) {
        crate::bytes::text("sha384-"@)
    } else {
        crate::bytes::text("sha512-"@)
    };
    let token = tagged(tag, value);
    padded_digits(digits, padding);
    tagged_parts(tag, value, word);
    assert(!crate::bytes::same_word(token, crate::bytes::text("'self'"@))
        && !crate::bytes::same_word(token, crate::bytes::text("'unsafe-inline'"@))
        && !crate::bytes::starts_word(tag + value, crate::bytes::text("nonce-"@))) by {
        keyword_bytes();
        same_letters(tag, word);
        assert(token[1] == tag[0] && token[2] == tag[1]);
        assert(crate::bytes::lower(tag[0]) == 0x73 && crate::bytes::lower(tag[1]) == 0x68);
        differ_at(token, crate::bytes::text("'self'"@), 2);
        differ_at(token, crate::bytes::text("'unsafe-inline'"@), 1);
        if (tag + value).len() >= 6 {
            assert((tag + value).take(6)[0] == tag[0]);
            differ_at((tag + value).take(6), crate::bytes::text("nonce-"@), 0);
        }
    }
}

/// A nonce is only read from a token in apostrophes that ends with it.
pub proof fn nonces_are_tagged(token: Seq<u8>, scheme: WebScheme, hosts: CanonicalHosts)
    ensures
        crate::csp_source::source_of(token, scheme, hosts) matches SourceModel::Nonce(value) ==> {
            &&& value.len() > 0
            &&& token.len() == value.len() + 8
            &&& crate::bytes::same_word(token.take(7), seq!['\'' as u8] + crate::bytes::text("nonce-"@))
            &&& token.subrange(7, token.len() - 1) == value
            &&& token.last() == '\'' as u8
        },
{
    keyword_bytes();
    if let SourceModel::Nonce(value) = crate::csp_source::source_of(token, scheme, hosts) {
        let word = crate::bytes::text("nonce-"@);
        let body = crate::csp_source::quoted_body(token);
        same_letters(body.take(6), word);
        let tag = seq!['\'' as u8] + word;
        assert(crate::bytes::lowered(token.take(7)) =~= crate::bytes::lowered(tag)) by {
            assert forall|i: int| 0 <= i < 7 implies crate::bytes::lower(token.take(7)[i])
                == crate::bytes::lower(tag[i]) by {
                if i > 0 {
                    assert(body.take(6)[i - 1] == token[i]);
                }
            }
        }
        assert(token.subrange(7, token.len() - 1) =~= value);
    }
}

/// A host part with an optional port and an optional root path is read as its
/// host and its port; any other path makes the source useless.
#[verifier::rlimit(50)]
#[verifier::spinoff_prover]
pub proof fn authorities_are_read(
    token: Seq<u8>,
    scheme: WebScheme,
    host: Seq<u8>,
    port: Option<Seq<u8>>,
    path: Seq<u8>,
    hosts: CanonicalHosts,
)
    requires
        host.len() > 0,
        forall|i: int|
            0 <= i < host.len() ==> #[trigger] host[i] == '*' as u8 || ByteClass::HostName.has(
                host[i],
            ),
        port matches Some(digits) ==> forall|i: int|
            0 <= i < digits.len() ==> #[trigger] digits[i] == '*' as u8 || ByteClass::Digit.has(
                digits[i],
            ),
        path.len() > 0 ==> path[0] == '/' as u8,
    ensures
        ({
            let front = match port {
                Some(digits) => host + seq![':' as u8] + digits,
                None => host,
            };
            let pattern = crate::csp_source::host_pattern_of(host, scheme, hosts);
            let ports = match port {
                Some(digits) => crate::csp_source::port_of(digits),
                None => Some(PortPattern::Default),
            };
            let read = crate::csp_source::authority_source(token, scheme, front + path, hosts);
            &&& path.len() <= 1 && pattern is Some && ports is Some ==> read == (
            SourceModel::Host { scheme, host: pattern->0, port: ports->0 })
            &&& path.len() <= 1 && (pattern is None || ports is None) ==> (read matches
                SourceModel::Unsupported { evidence, invalidates_unsafe_inline } && evidence.kind
                is Malformed && !invalidates_unsafe_inline)
            &&& path.len() > 1 ==> (read matches SourceModel::Unsupported {
                evidence,
                invalidates_unsafe_inline,
            } && evidence.kind is HostPath && !invalidates_unsafe_inline)
        }),
{
    let front = match port {
        Some(digits) => host + seq![':' as u8] + digits,
        None => host,
    };
    let whole = front + path;
    let slash = ByteClass::Exactly('/' as u8);
    let colon = ByteClass::Exactly(':' as u8);
    let marks = ByteClass::Either('?' as u8, '#' as u8);
    assert forall|i: int| 0 <= i < front.len() implies !slash.has(#[trigger] front[i])
        && !marks.has(front[i]) && (i != host.len() ==> !colon.has(front[i])) by {
        if i < host.len() {
            assert(front[i] == host[i]);
        } else if i > host.len() {
            let digits = port->0;
            assert(front[i] == digits[i - host.len() - 1]);
        }
    }
    assert forall|i: int| 0 <= i < front.len() implies !slash.has(#[trigger] whole[i]) by {
        assert(whole[i] == front[i]);
    }
    if path.len() > 0 {
        assert(whole[front.len() as int] == path[0]);
    }
    crate::byte_laws::scan_ends_at(whole, 0, slash, front.len() as int);
    assert(whole.subrange(0, front.len() as int) =~= front);
    crate::byte_laws::scan_ends_at(front, 0, marks, front.len() as int);
    crate::byte_laws::scan_ends_at(front, 0, colon, host.len() as int);
    assert(front.subrange(0, host.len() as int) =~= host);
    if let Some(digits) = port {
        crate::byte_laws::scan_ends_at(front, host.len() as int + 1, colon, front.len() as int);
        assert(front.subrange(host.len() as int + 1, front.len() as int) =~= digits);
    }
}

/// Host parts: a star admits every host, a star and a full stop the subdomains of
/// a named domain, and a plainly spelled name what it names; an address counts
/// only as it is spelled.
pub proof fn host_parts_are_read(host: Seq<u8>, scheme: WebScheme, hosts: CanonicalHosts)
    requires
        crate::csp_source::plainly_spelled(host),
    ensures
        crate::csp_source::host_pattern_of(seq!['*' as u8], scheme, hosts) == Some(
            HostPatternModel::Any,
        ),
        hosts.named(scheme, host) matches Some(HostModel::Domain(domain)) ==> {
            &&& crate::csp_source::host_pattern_of(host, scheme, hosts) == Some(
                HostPatternModel::Exact(HostModel::Domain(domain)),
            )
            &&& crate::csp_source::host_pattern_of(
                seq!['*' as u8, '.' as u8] + host,
                scheme,
                hosts,
            ) == Some(HostPatternModel::Subdomains(domain))
        },
        hosts.named(scheme, host) is None ==> {
            &&& crate::csp_source::host_pattern_of(host, scheme, hosts) is None
            &&& crate::csp_source::host_pattern_of(
                seq!['*' as u8, '.' as u8] + host,
                scheme,
                hosts,
            ) is None
        },
        hosts.named(scheme, host) matches Some(HostModel::Ip(address)) ==> {
            &&& crate::csp_source::host_pattern_of(host, scheme, hosts) == if
                crate::csp_source::dotted_address(host) == Some(address) {
                Some(HostPatternModel::Exact(HostModel::Ip(address)))
            } else {
                None
            }
            &&& crate::csp_source::host_pattern_of(
                seq!['*' as u8, '.' as u8] + host,
                scheme,
                hosts,
            ) is None
        },
{
    keyword_bytes();
    assert(ByteClass::HostName.has(host[0]));
    let starred = seq!['*' as u8, '.' as u8] + host;
    assert(starred.take(2) =~= seq!['*' as u8, '.' as u8]);
    assert(starred.subrange(2, starred.len() as int) =~= host);
    assert(starred.len() > 1);
    if host.len() >= 2 {
        assert(host.take(2)[0] == host[0]);
    }
}

/// A host is plainly spelled only by letters, digits, hyphens and full stops, of
/// which none stands at an end or behind another.
pub proof fn plain_hosts(label: Seq<u8>, rest: Seq<u8>)
    requires
        label.len() > 0,
        forall|i: int|
            0 <= i < label.len() ==> ByteClass::HostName.has(#[trigger] label[i]) && label[i]
                != '.' as u8,
    ensures
        crate::csp_source::plainly_spelled(label),
        crate::csp_source::plainly_spelled(rest) ==> crate::csp_source::plainly_spelled(
            label + seq!['.' as u8] + rest,
        ),
        !crate::csp_source::plainly_spelled(label + seq!['.' as u8]),
        !crate::csp_source::plainly_spelled(seq!['.' as u8] + label),
        !crate::csp_source::plainly_spelled(label + seq!['.' as u8, '.' as u8] + label),
{
    let joined = label + seq!['.' as u8] + rest;
    assert(label[0] != '.' as u8 && label[label.len() - 1] != '.' as u8);
    if crate::csp_source::plainly_spelled(rest) {
        assert forall|i: int| 0 <= i < joined.len() implies ByteClass::HostName.has(
            #[trigger] joined[i],
        ) by {
            if i < label.len() {
                assert(joined[i] == label[i]);
            } else if i > label.len() {
                assert(joined[i] == rest[i - label.len() - 1]);
            }
        }
        assert forall|i: int, j: int|
            #![trigger joined[i], joined[j]]
            0 <= i && j == i + 1 && j < joined.len() implies !(joined[i] == '.' as u8 && joined[j]
            == '.' as u8) by {
            if i < label.len() {
                assert(joined[i] == label[i]);
            } else if i == label.len() {
                assert(joined[j] == rest[0]);
            } else {
                assert(joined[i] == rest[i - label.len() - 1]);
                assert(joined[j] == rest[j - label.len() - 1]);
            }
        }
        assert(joined[0] == label[0]);
        assert(joined.last() == rest.last());
    }
    let doubled = label + seq!['.' as u8, '.' as u8] + label;
    let at = label.len() as int;
    assert(doubled[at] == '.' as u8 && doubled[at + 1] == '.' as u8);
}

/// Ports: a star admits every port and digits their number up to 65535; nothing
/// else is a port.
pub proof fn ports_are_read(port: Seq<u8>)
    ensures
        crate::csp_source::port_of(port) == Some(PortPattern::Any) <==> port == seq!['*' as u8],
        crate::csp_source::port_of(port) is Some && port != seq!['*' as u8] <==> port.len() > 0
            && ByteClass::Digit.has_all(port) && crate::bytes::decimal(port) < 65536,
        crate::csp_source::port_of(port) matches Some(PortPattern::Exact(number)) ==> number
            == crate::bytes::decimal(port),
        !(crate::csp_source::port_of(port) matches Some(PortPattern::Default)),
{
    keyword_bytes();
    if port == seq!['*' as u8] {
        assert(port[0] == '*' as u8);
        assert(!ByteClass::Digit.has(port[0]));
    }
}

/// A host source has the scheme that it spells, or else that of the document;
/// a source of another scheme is useless.
#[verifier::rlimit(50)]
#[verifier::spinoff_prover]
pub proof fn host_sources_have_a_scheme(
    prefix: Seq<u8>,
    authority: Seq<u8>,
    scheme: WebScheme,
    hosts: CanonicalHosts,
)
    requires
        authority.len() > 0,
        authority[0] == '*' as u8 || ByteClass::HostName.has(authority[0]),
        forall|i: int| 0 <= i < authority.len() ==> #[trigger] authority[i] != ':' as u8,
    ensures
        crate::bytes::same_word(prefix, crate::bytes::text("http://"@)) ==>
            crate::csp_source::source_of(prefix + authority, scheme, hosts)
            == crate::csp_source::authority_source(
            prefix + authority,
            WebScheme::Http,
            authority,
            hosts,
        ),
        crate::bytes::same_word(prefix, crate::bytes::text("https://"@)) ==>
            crate::csp_source::source_of(prefix + authority, scheme, hosts)
            == crate::csp_source::authority_source(
            prefix + authority,
            WebScheme::Https,
            authority,
            hosts,
        ),
        authority != seq!['*' as u8] ==> crate::csp_source::source_of(authority, scheme, hosts)
            == crate::csp_source::authority_source(authority, scheme, authority, hosts),
{
    keyword_bytes();
    let own = crate::bytes::text("'self'"@);
    let inline_word = crate::bytes::text("'unsafe-inline'"@);
    let http_word = crate::bytes::text("http:"@);
    let https_word = crate::bytes::text("https:"@);
    let http = crate::bytes::text("http://"@);
    let https = crate::bytes::text("https://"@);
    let whole = prefix + authority;
    if crate::bytes::same_word(prefix, http) {
        same_letters(prefix, http);
        assert(whole[0] == prefix[0] && whole[4] == prefix[4] && whole[5] == prefix[5]);
        differ_at(whole, own, 0);
        differ_at(whole, inline_word, 0);
        assert(crate::bytes::lowered(whole).len() == whole.len());
        assert(crate::bytes::lowered(http_word).len() == 5);
        assert(crate::bytes::lower(prefix[4]) == 0x3a);
        differ_at(whole, https_word, 4);
        assert(whole.take(7) =~= prefix);
        assert(whole.subrange(7, whole.len() as int) =~= authority);
    }
    if crate::bytes::same_word(prefix, https) {
        same_letters(prefix, https);
        assert(whole[0] == prefix[0] && whole[4] == prefix[4]);
        differ_at(whole, own, 0);
        differ_at(whole, inline_word, 0);
        assert(crate::bytes::lower(prefix[4]) == 0x73);
        differ_at(whole, http_word, 4);
        assert(crate::bytes::lowered(whole).len() == whole.len());
        assert(crate::bytes::lowered(https_word).len() == 6);
        assert(whole.take(7)[4] == prefix[4]);
        differ_at(whole.take(7), http, 4);
        assert(whole.take(8) =~= prefix);
        assert(whole.subrange(8, whole.len() as int) =~= authority);
    }
    if authority != seq!['*' as u8] {
        differ_at(authority, own, 0);
        differ_at(authority, inline_word, 0);
        differ_at(authority, http_word, 4);
        differ_at(authority, https_word, 5);
        if authority.len() >= 7 {
            assert(authority.take(7)[4] == authority[4]);
            differ_at(authority.take(7), http, 4);
        }
        if authority.len() >= 8 {
            assert(authority.take(8)[5] == authority[5]);
            differ_at(authority.take(8), https, 5);
        }
        assert forall|i: int| 0 <= i && i + 3 <= authority.len() implies
            #[trigger] authority.subrange(i, i + 3) != crate::bytes::text("://"@) by {
            assert(authority.subrange(i, i + 3)[0] == authority[i]);
        }
        assert(authority[authority.len() - 1] != ':' as u8);
    }
}

/// An expression that ends with a colon names a scheme, and one of another scheme
/// than the two of the web never matches.
#[verifier::rlimit(50)]
#[verifier::spinoff_prover]
pub proof fn other_schemes_are_set_aside(
    token: Seq<u8>,
    scheme: WebScheme,
    hosts: CanonicalHosts,
)
    requires
        token.len() > 1,
        ByteClass::HostName.has(token[0]),
        token.last() == ':' as u8,
        !crate::bytes::same_word(token, crate::bytes::text("http:"@)),
        !crate::bytes::same_word(token, crate::bytes::text("https:"@)),
        !crate::bytes::starts_word(token, crate::bytes::text("http://"@)),
        !crate::bytes::starts_word(token, crate::bytes::text("https://"@)),
        token.len() <= usize::MAX,
    ensures
        crate::csp_source::source_of(token, scheme, hosts) matches SourceModel::Unsupported {
            evidence,
            invalidates_unsafe_inline,
        } && evidence.kind is NonHttpScheme && evidence.byte_len == token.len()
            && !invalidates_unsafe_inline,
{
    keyword_bytes();
    differ_at(token, crate::bytes::text("'self'"@), 0);
    differ_at(token, crate::bytes::text("'unsafe-inline'"@), 0);
}

} // verus!
