//! Source expressions of content security policies: reading and matching.

use vstd::prelude::*;

use crate::bytes::{
    eq_ignore_ascii_case, find_in, find_outside, parse_decimal, same_bytes, starts_ignore_ascii_case, try_copy,
    ByteClass, APOSTROPHE, COLON, DOT, EQUALS, NUMBER_SIGN, QUESTION_MARK, SLASH,
};
use crate::web::{same_host, HostModel, IpAddress, OriginModel, WebHost, WebOrigin, WebScheme};

verus! {

/// Privacy-safe category for a retained but deliberately nonmatching source.
#[derive(Clone, Copy, Debug, PartialEq, Eq, Structural)]
pub enum UnsupportedStyleSourceKind {
    /// A syntactically valid `sha256`, `sha384`, or `sha512` source.
    Hash,
    /// A host source with a path other than the nonrestrictive root path.
    HostPath,
    /// A source using a scheme outside the admitted HTTP(S) subset.
    NonHttpScheme,
    /// A recognized or quoted keyword outside this style-policy subset.
    Keyword,
    /// A malformed or otherwise unsupported source expression.
    Malformed,
}

/// Redacted evidence for one unsupported relevant source expression.
#[derive(Clone, Copy, Debug, PartialEq, Eq, Structural)]
pub struct UnsupportedStyleSource {
    /// Why the expression cannot match.
    pub kind: UnsupportedStyleSourceKind,
    /// Length of the expression.
    pub byte_len: usize,
}

impl UnsupportedStyleSource {
    /// Non-sensitive reason why the expression cannot match.
    pub fn kind(self) -> (kind: UnsupportedStyleSourceKind)
        ensures
            kind == self.kind,
    {
        self.kind
    }

    /// Serialized token length without the bytes.
    pub fn byte_len(self) -> (byte_len: usize)
        ensures
            byte_len == self.byte_len,
    {
        self.byte_len
    }
}

/// Ports that a host source admits.
#[derive(Clone, Copy, Debug, PartialEq, Eq, Structural)]
pub enum PortPattern {
    /// Every port.
    Any,
    /// This port, and its upgrade.
    Exact(u16),
    /// The default port of the source's scheme, and its upgrade.
    Default,
}

/// Hosts that a host source admits, in specifications.
pub enum HostPatternModel {
    /// Every host.
    Any,
    /// This host.
    Exact(HostModel),
    /// Every subdomain of this domain.
    Subdomains(Seq<char>),
}

/// A source expression, in specifications.
pub enum SourceModel {
    /// Admits nothing.
    DenyAll,
    /// Admits the document's own origin, and its upgrade.
    SelfOrigin,
    /// Admits every network target.
    AnyNetwork,
    /// Admits targets of this scheme, and its upgrade.
    Scheme(WebScheme),
    /// Admits targets by scheme, host and port.
    Host {
        /// Scheme, which also admits its upgrade.
        scheme: WebScheme,
        /// Admitted hosts.
        host: HostPatternModel,
        /// Admitted ports.
        port: PortPattern,
    },
    /// Admits elements with this nonce.
    Nonce(Seq<u8>),
    /// Admits inline styles.
    UnsafeInline,
    /// Admits nothing, and says why.
    Unsupported {
        /// Why the expression cannot match.
        evidence: UnsupportedStyleSource,
        /// Whether the expression disables `'unsafe-inline'`.
        invalidates_unsafe_inline: bool,
    },
}

/// Whether a source's scheme admits a target's scheme.
pub open spec fn scheme_admits(source: WebScheme, candidate: WebScheme) -> bool {
    source is Http || candidate is Https
}

/// Whether a source's port admits a target's port.
pub open spec fn port_admits(source: u16, candidate: u16) -> bool {
    source == candidate || (source == 80 && candidate == 443)
}

/// Default port of a scheme.
pub open spec fn default_port_of(scheme: WebScheme) -> u16 {
    match scheme {
        WebScheme::Http => 80,
        WebScheme::Https => 443,
    }
}

/// Whether a domain is a proper subdomain of another.
pub open spec fn is_subdomain(domain: Seq<u8>, parent: Seq<u8>) -> bool {
    let start = domain.len() - parent.len();
    start > 0 && domain.subrange(start, domain.len() as int) == parent && domain[start - 1] == DOT
}

impl HostPatternModel {
    /// Whether a host is admitted.
    pub open spec fn admits(self, host: HostModel) -> bool {
        match self {
            HostPatternModel::Any => true,
            HostPatternModel::Exact(expected) => host == expected,
            HostPatternModel::Subdomains(parent) => match host {
                HostModel::Domain(domain) => is_subdomain(
                    crate::bytes::text(domain),
                    crate::bytes::text(parent),
                ),
                HostModel::Ip(_) => false,
            },
        }
    }
}

impl SourceModel {
    /// Whether a target of `candidate` is admitted for a document of `document`.
    pub open spec fn admits_url(self, document: OriginModel, candidate: OriginModel) -> bool {
        match self {
            SourceModel::SelfOrigin => scheme_admits(document.scheme, candidate.scheme)
                && document.host == candidate.host && port_admits(document.port, candidate.port),
            SourceModel::AnyNetwork => true,
            SourceModel::Scheme(scheme) => scheme_admits(scheme, candidate.scheme),
            SourceModel::Host { scheme, host, port } => scheme_admits(scheme, candidate.scheme)
                && host.admits(candidate.host) && match port {
                PortPattern::Any => true,
                PortPattern::Exact(port) => port_admits(port, candidate.port),
                PortPattern::Default => port_admits(default_port_of(scheme), candidate.port),
            },
            _ => false,
        }
    }

    /// Whether an element with this nonce is admitted.
    pub open spec fn admits_nonce(self, nonce: Seq<u8>) -> bool {
        self matches SourceModel::Nonce(expected) && expected == nonce
    }

    /// Whether the expression disables `'unsafe-inline'`.
    pub open spec fn disables_inline(self) -> bool {
        match self {
            SourceModel::Nonce(_) => true,
            SourceModel::Unsupported { invalidates_unsafe_inline, .. } => invalidates_unsafe_inline,
            _ => false,
        }
    }
}

/// A host that the URL parser accepts, with the spelling it was asked about.
#[derive(Debug)]
pub struct CanonicalHost {
    /// Scheme that the host was read under.
    pub scheme: WebScheme,
    /// Spelling of the host.
    pub spelling: Vec<u8>,
    /// What the spelling names.
    pub host: WebHost,
}

/// What the URL parser makes of the host spellings that policies hold: a
/// spelling that is not among them is none that the parser accepts.
#[derive(Debug)]
pub struct CanonicalHosts {
    /// Accepted hosts.
    pub entries: Vec<CanonicalHost>,
}

impl CanonicalHosts {
    /// What a spelling names, looking from `from` on.
    pub open spec fn named_from(self, scheme: WebScheme, spelling: Seq<u8>, from: int) -> Option<
        HostModel,
    >
        decreases self.entries@.len() - from,
    {
        if from < 0 || from >= self.entries@.len() {
            None
        } else if self.entries@[from].scheme == scheme && self.entries@[from].spelling@
            == spelling {
            Some(self.entries@[from].host@)
        } else {
            self.named_from(scheme, spelling, from + 1)
        }
    }

    /// What a spelling names.
    pub open spec fn named(self, scheme: WebScheme, spelling: Seq<u8>) -> Option<HostModel> {
        self.named_from(scheme, spelling, 0)
    }

    /// Looks a spelling up.
    pub fn lookup(&self, scheme: WebScheme, spelling: &[u8]) -> (found: Option<&WebHost>)
        ensures
            match found {
                Some(host) => self.named(scheme, spelling@) == Some(host@),
                None => self.named(scheme, spelling@) is None,
            },
    {
        let mut at: usize = 0;
        while at < self.entries.len()
            invariant
                at <= self.entries@.len(),
                self.named_from(scheme, spelling@, at as int) == self.named(scheme, spelling@),
            decreases self.entries@.len() - at,
        {
            let entry = &self.entries[at];
            if entry.scheme == scheme && same_bytes(entry.spelling.as_slice(), spelling) {
                return Some(&entry.host);
            }
            at += 1;
        }
        None
    }
}

/// Whether a host is spelled by letters, digits, hyphens and single inner full
/// stops.
pub open spec fn plainly_spelled(host: Seq<u8>) -> bool {
    &&& host.len() > 0
    &&& host[0] != DOT
    &&& host.last() != DOT
    &&& forall|i: int, j: int|
        #![trigger host[i], host[j]]
        0 <= i && j == i + 1 && j < host.len() ==> !(host[i] == DOT && host[j] == DOT)
    &&& ByteClass::HostName.has_all(host)
}

/// A decimal octet without a leading zero.
pub open spec fn octet_of(digits: Seq<u8>) -> Option<u8> {
    if 1 <= digits.len() <= 3 && ByteClass::Digit.has_all(digits) && (digits.len() > 1 ==> digits[0]
        != 0x30) && crate::bytes::decimal(digits) <= 255 {
        Some(crate::bytes::decimal(digits) as u8)
    } else {
        None
    }
}

/// The address that four dotted octets spell.
pub open spec fn dotted_address(host: Seq<u8>) -> Option<IpAddress> {
    let len = host.len() as int;
    let first = crate::bytes::first_in(host, 0, ByteClass::Exactly(DOT));
    let second = crate::bytes::first_in(host, first + 1, ByteClass::Exactly(DOT));
    let third = crate::bytes::first_in(host, second + 1, ByteClass::Exactly(DOT));
    if first >= len || second >= len || third >= len {
        None
    } else {
        match (
            octet_of(host.subrange(0, first)),
            octet_of(host.subrange(first + 1, second)),
            octet_of(host.subrange(second + 1, third)),
            octet_of(host.subrange(third + 1, len)),
        ) {
            (Some(a), Some(b), Some(c), Some(d)) => Some(IpAddress::V4(a, b, c, d)),
            _ => None,
        }
    }
}

/// The host that a source names; an address must be spelled as it is.
pub open spec fn normalized_host(
    host: Seq<u8>,
    scheme: WebScheme,
    hosts: CanonicalHosts,
) -> Option<HostModel> {
    if !plainly_spelled(host) {
        None
    } else {
        match hosts.named(scheme, host) {
            Some(HostModel::Ip(address)) => if dotted_address(host) == Some(address) {
                Some(HostModel::Ip(address))
            } else {
                None
            },
            named => named,
        }
    }
}

/// An expression that cannot match.
pub open spec fn unsupported(
    token: Seq<u8>,
    kind: UnsupportedStyleSourceKind,
    invalidates_unsafe_inline: bool,
) -> SourceModel {
    SourceModel::Unsupported {
        evidence: UnsupportedStyleSource { kind, byte_len: token.len() as usize },
        invalidates_unsafe_inline,
    }
}

/// Ports that the text behind a colon admits.
pub open spec fn port_of(port: Seq<u8>) -> Option<PortPattern> {
    if port == crate::bytes::text("*"@) {
        Some(PortPattern::Any)
    } else if port.len() > 0 && ByteClass::Digit.has_all(port) && crate::bytes::decimal(port)
        <= 65535 {
        Some(PortPattern::Exact(crate::bytes::decimal(port) as u16))
    } else {
        None
    }
}

/// Hosts that a host part admits.
pub open spec fn host_pattern_of(
    host: Seq<u8>,
    scheme: WebScheme,
    hosts: CanonicalHosts,
) -> Option<HostPatternModel> {
    if host == crate::bytes::text("*"@) {
        Some(HostPatternModel::Any)
    } else if host.len() >= 2 && host.take(2) == crate::bytes::text("*."@) {
        match normalized_host(host.subrange(2, host.len() as int), scheme, hosts) {
            Some(HostModel::Domain(domain)) => Some(HostPatternModel::Subdomains(domain)),
            _ => None,
        }
    } else {
        match normalized_host(host, scheme, hosts) {
            Some(named) => Some(HostPatternModel::Exact(named)),
            None => None,
        }
    }
}

/// Whether a token names a scheme that is none of the web's.
pub open spec fn names_other_scheme(token: Seq<u8>) -> bool {
    ||| exists|i: int| 0 <= i && i + 3 <= token.len() && #[trigger] token.subrange(i, i + 3)
        == crate::bytes::text("://"@)
    ||| token.len() > 0 && token.last() == COLON
}

/// The expression that an authority of a host source stands for.
pub open spec fn authority_source(
    token: Seq<u8>,
    scheme: WebScheme,
    authority: Seq<u8>,
    hosts: CanonicalHosts,
) -> SourceModel {
    let path = crate::bytes::first_in(authority, 0, ByteClass::Exactly(SLASH));
    let bare = authority.subrange(0, path);
    let colon = crate::bytes::first_in(bare, 0, ByteClass::Exactly(COLON));
    let second = crate::bytes::first_in(bare, colon + 1, ByteClass::Exactly(COLON));
    let port = if colon < bare.len() {
        port_of(bare.subrange(colon + 1, bare.len() as int))
    } else {
        Some(PortPattern::Default)
    };
    let host = host_pattern_of(bare.subrange(0, colon), scheme, hosts);
    if path + 1 < authority.len() {
        unsupported(token, UnsupportedStyleSourceKind::HostPath, false)
    } else if bare.len() == 0 || crate::bytes::first_in(
        bare,
        0,
        ByteClass::Either(QUESTION_MARK, NUMBER_SIGN),
    ) < bare.len() || (colon < bare.len() && second < bare.len()) || port is None || host is None {
        unsupported(token, UnsupportedStyleSourceKind::Malformed, false)
    } else {
        SourceModel::Host { scheme, host: host->0, port: port->0 }
    }
}

/// The expression that a host source stands for.
pub open spec fn host_source(
    token: Seq<u8>,
    document_scheme: WebScheme,
    hosts: CanonicalHosts,
) -> SourceModel {
    let http = crate::bytes::text("http://"@);
    let https = crate::bytes::text("https://"@);
    if crate::bytes::starts_word(token, http) {
        authority_source(
            token,
            WebScheme::Http,
            token.subrange(http.len() as int, token.len() as int),
            hosts,
        )
    } else if crate::bytes::starts_word(token, https) {
        authority_source(
            token,
            WebScheme::Https,
            token.subrange(https.len() as int, token.len() as int),
            hosts,
        )
    } else if names_other_scheme(token) {
        unsupported(token, UnsupportedStyleSourceKind::NonHttpScheme, false)
    } else {
        authority_source(token, document_scheme, token, hosts)
    }
}

/// Bytes without one equals sign at the end.
pub open spec fn without_padding(value: Seq<u8>) -> Seq<u8> {
    if value.len() > 0 && value.last() == EQUALS {
        value.drop_last()
    } else {
        value
    }
}

/// Whether bytes are a base-64 value with at most two padding signs.
pub open spec fn is_base64_value(value: Seq<u8>) -> bool {
    let digits = without_padding(without_padding(value));
    digits.len() > 0 && ByteClass::Base64.has_all(digits)
}

/// Whether a token stands in apostrophes.
pub open spec fn is_quoted(token: Seq<u8>) -> bool {
    token.len() >= 2 && token[0] == APOSTROPHE && token.last() == APOSTROPHE
}

/// What stands between the apostrophes of a token.
pub open spec fn quoted_body(token: Seq<u8>) -> Seq<u8> {
    token.subrange(1, token.len() - 1)
}

/// What stands behind a word at the start of bytes.
pub open spec fn behind(bytes: Seq<u8>, word: Seq<u8>) -> Seq<u8> {
    bytes.subrange(word.len() as int, bytes.len() as int)
}

/// Whether a quoted token has a body of a word and a base-64 value.
pub open spec fn is_tagged_value(token: Seq<u8>, word: Seq<u8>) -> bool {
    is_quoted(token) && crate::bytes::starts_word(quoted_body(token), word) && is_base64_value(
        behind(quoted_body(token), word),
    )
}

/// Whether a quoted token has a body that begins with a word.
pub open spec fn is_tagged(token: Seq<u8>, word: Seq<u8>) -> bool {
    is_quoted(token) && crate::bytes::starts_word(quoted_body(token), word)
}

/// The expression that a token stands for.
pub open spec fn source_of(
    token: Seq<u8>,
    document_scheme: WebScheme,
    hosts: CanonicalHosts,
) -> SourceModel {
    let nonce = crate::bytes::text("nonce-"@);
    let sha256 = crate::bytes::text("sha256-"@);
    let sha384 = crate::bytes::text("sha384-"@);
    let sha512 = crate::bytes::text("sha512-"@);
    if crate::bytes::same_word(token, crate::bytes::text("'self'"@)) {
        SourceModel::SelfOrigin
    } else if crate::bytes::same_word(token, crate::bytes::text("'unsafe-inline'"@)) {
        SourceModel::UnsafeInline
    } else if is_tagged_value(token, nonce) {
        SourceModel::Nonce(behind(quoted_body(token), nonce))
    } else if is_tagged_value(token, sha256) || is_tagged_value(token, sha384) || is_tagged_value(
        token,
        sha512,
    ) {
        unsupported(token, UnsupportedStyleSourceKind::Hash, true)
    } else if is_tagged(token, nonce) || is_tagged(token, sha256) || is_tagged(token, sha384)
        || is_tagged(token, sha512) {
        unsupported(token, UnsupportedStyleSourceKind::Malformed, false)
    } else if is_quoted(token) {
        unsupported(token, UnsupportedStyleSourceKind::Keyword, false)
    } else if token == crate::bytes::text("*"@) {
        SourceModel::AnyNetwork
    } else if crate::bytes::same_word(token, crate::bytes::text("http:"@)) {
        SourceModel::Scheme(WebScheme::Http)
    } else if crate::bytes::same_word(token, crate::bytes::text("https:"@)) {
        SourceModel::Scheme(WebScheme::Https)
    } else {
        host_source(token, document_scheme, hosts)
    }
}

/// Hosts that a host source admits.
pub enum HostPattern {
    /// Every host.
    Any,
    /// This host.
    Exact(WebHost),
    /// Every subdomain of this domain.
    Subdomains(String),
}

impl View for HostPattern {
    type V = HostPatternModel;

    open spec fn view(&self) -> HostPatternModel {
        match self {
            HostPattern::Any => HostPatternModel::Any,
            HostPattern::Exact(host) => HostPatternModel::Exact(host@),
            HostPattern::Subdomains(domain) => HostPatternModel::Subdomains(domain@),
        }
    }
}

/// A source expression.
pub enum SourceExpression {
    /// Admits nothing.
    DenyAll,
    /// Admits the document's own origin, and its upgrade.
    SelfOrigin,
    /// Admits every network target.
    AnyNetwork,
    /// Admits targets of this scheme, and its upgrade.
    Scheme(WebScheme),
    /// Admits targets by scheme, host and port.
    Host {
        /// Scheme, which also admits its upgrade.
        scheme: WebScheme,
        /// Admitted hosts.
        host: HostPattern,
        /// Admitted ports.
        port: PortPattern,
    },
    /// Admits elements with this nonce.
    Nonce(Vec<u8>),
    /// Admits inline styles.
    UnsafeInline,
    /// Admits nothing, and says why.
    Unsupported {
        /// Why the expression cannot match.
        evidence: UnsupportedStyleSource,
        /// Whether the expression disables `'unsafe-inline'`.
        invalidates_unsafe_inline: bool,
    },
}

impl View for SourceExpression {
    type V = SourceModel;

    open spec fn view(&self) -> SourceModel {
        match self {
            SourceExpression::DenyAll => SourceModel::DenyAll,
            SourceExpression::SelfOrigin => SourceModel::SelfOrigin,
            SourceExpression::AnyNetwork => SourceModel::AnyNetwork,
            SourceExpression::Scheme(scheme) => SourceModel::Scheme(*scheme),
            SourceExpression::Host { scheme, host, port } => SourceModel::Host {
                scheme: *scheme,
                host: host@,
                port: *port,
            },
            SourceExpression::Nonce(nonce) => SourceModel::Nonce(nonce@),
            SourceExpression::UnsafeInline => SourceModel::UnsafeInline,
            SourceExpression::Unsupported { evidence, invalidates_unsafe_inline } =>
                SourceModel::Unsupported {
                evidence: *evidence,
                invalidates_unsafe_inline: *invalidates_unsafe_inline,
            },
        }
    }
}

/// Whether a source's scheme admits a target's scheme.
pub fn scheme_matches(source: WebScheme, candidate: WebScheme) -> (admits: bool)
    ensures
        admits == scheme_admits(source, candidate),
{
    match (source, candidate) {
        (WebScheme::Http, _) => true,
        (WebScheme::Https, WebScheme::Https) => true,
        (WebScheme::Https, WebScheme::Http) => false,
    }
}

/// Whether a source's port admits a target's port.
pub fn ports_match(source_port: u16, candidate_port: u16) -> (admits: bool)
    ensures
        admits == port_admits(source_port, candidate_port),
{
    source_port == candidate_port || (source_port == 80 && candidate_port == 443)
}

/// Default port of a scheme.
pub fn default_port(scheme: WebScheme) -> (port: u16)
    ensures
        port == default_port_of(scheme),
{
    match scheme {
        WebScheme::Http => 80,
        WebScheme::Https => 443,
    }
}

impl HostPattern {
    /// Whether a host is admitted.
    pub fn matches(&self, candidate: &WebHost) -> (admits: bool)
        ensures
            admits == self@.admits(candidate@),
    {
        match self {
            HostPattern::Any => true,
            HostPattern::Exact(expected) => same_host(candidate, expected),
            HostPattern::Subdomains(parent) => match candidate {
                WebHost::Ip(_) => false,
                WebHost::Domain(domain) => {
                    let domain: &[u8] = domain.as_str().as_bytes();
                    let parent: &[u8] = parent.as_str().as_bytes();
                    if domain.len() <= parent.len() {
                        return false;
                    }
                    let start: usize = domain.len() - parent.len();
                    same_bytes(&domain[start..domain.len()], parent) && domain[start - 1] == DOT
                },
            },
        }
    }
}

/// Whether two byte strings of one length are equal, looking at every byte.
fn same_secret(expected: &[u8], candidate: &[u8]) -> (same: bool)
    requires
        expected@.len() == candidate@.len(),
    ensures
        same == (expected@ == candidate@),
{
    let mut difference: u8 = 0;
    let mut at: usize = 0;
    assert(expected@.take(0) =~= candidate@.take(0));
    while at < expected.len()
        invariant
            at <= expected@.len(),
            expected@.len() == candidate@.len(),
            difference == 0 <==> expected@.take(at as int) == candidate@.take(at as int),
        decreases expected@.len() - at,
    {
        let left: u8 = expected[at];
        let right: u8 = candidate[at];
        let before: u8 = difference;
        difference = before | (left ^ right);
        proof {
            assert((before | (left ^ right)) == 0 <==> before == 0 && left == right)
                by (bit_vector);
            let longer = expected@.take(at + 1);
            let other = candidate@.take(at + 1);
            assert(longer =~= expected@.take(at as int).push(left));
            assert(other =~= candidate@.take(at as int).push(right));
            if longer == other {
                assert(longer.last() == left && other.last() == right);
                assert(longer.drop_last() =~= expected@.take(at as int));
                assert(other.drop_last() =~= candidate@.take(at as int));
            }
        }
        at += 1;
    }
    assert(expected@.take(at as int) =~= expected@);
    assert(candidate@.take(at as int) =~= candidate@);
    difference == 0
}

impl SourceExpression {
    /// Whether an element with this nonce is admitted.
    pub fn matches_nonce(&self, candidate: &str) -> (admits: bool)
        ensures
            admits == self@.admits_nonce(crate::bytes::text(candidate@)),
    {
        match self {
            SourceExpression::Nonce(expected) => {
                let candidate: &[u8] = candidate.as_bytes();
                expected.len() == candidate.len() && same_secret(expected.as_slice(), candidate)
            },
            _ => false,
        }
    }

    /// Whether the expression disables `'unsafe-inline'`.
    pub fn invalidates_unsafe_inline(&self) -> (disables: bool)
        ensures
            disables == self@.disables_inline(),
    {
        match self {
            SourceExpression::Nonce(_) => true,
            SourceExpression::Unsupported { invalidates_unsafe_inline, .. } =>
                *invalidates_unsafe_inline,
            _ => false,
        }
    }

    /// Whether a target of `candidate` is admitted for a document of `document`.
    pub fn matches_url(&self, document: &WebOrigin, candidate: &WebOrigin) -> (admits: bool)
        ensures
            admits == self@.admits_url(document@, candidate@),
    {
        match self {
            SourceExpression::SelfOrigin => scheme_matches(document.scheme, candidate.scheme)
                && same_host(&document.host, &candidate.host) && ports_match(
                document.port,
                candidate.port,
            ),
            SourceExpression::AnyNetwork => true,
            SourceExpression::Scheme(scheme) => scheme_matches(*scheme, candidate.scheme),
            SourceExpression::Host { scheme, host, port } => scheme_matches(
                *scheme,
                candidate.scheme,
            ) && host.matches(&candidate.host) && match port {
                PortPattern::Any => true,
                PortPattern::Exact(port) => ports_match(*port, candidate.port),
                PortPattern::Default => ports_match(default_port(*scheme), candidate.port),
            },
            _ => false,
        }
    }
}

/// Whether a host is spelled plainly.
pub fn valid_source_host_spelling(host: &[u8]) -> (plain: bool)
    ensures
        plain == plainly_spelled(host@),
{
    if host.len() == 0 || host[0] == DOT || host[host.len() - 1] == DOT {
        return false;
    }
    let mut at: usize = 1;
    while at < host.len()
        invariant
            1 <= at <= host@.len(),
            forall|i: int, j: int|
                #![trigger host@[i], host@[j]]
                0 <= i && j == i + 1 && j < at ==> !(host@[i] == DOT && host@[j] == DOT),
        decreases host@.len() - at,
    {
        if host[at - 1] == DOT && host[at] == DOT {
            assert(host@[at - 1] == DOT && host@[at as int] == DOT);
            return false;
        }
        at += 1;
    }
    ByteClass::HostName.contains_all(host)
}

/// Reads a decimal octet without a leading zero.
fn parse_octet(digits: &[u8]) -> (octet: Option<u8>)
    ensures
        octet == octet_of(digits@),
{
    if digits.len() < 1 || digits.len() > 3 || !ByteClass::Digit.contains_all(digits) {
        return None;
    }
    if digits.len() > 1 && digits[0] == 0x30 {
        return None;
    }
    match parse_decimal(digits, 255) {
        Some(value) => Some(value as u8),
        None => None,
    }
}

/// Reads four dotted octets.
pub fn parse_dotted_address(host: &[u8]) -> (address: Option<IpAddress>)
    ensures
        address == dotted_address(host@),
{
    let len: usize = host.len();
    let first: usize = find_in(host, 0, ByteClass::Exactly(DOT));
    if first == len {
        return None;
    }
    let second: usize = find_in(host, first + 1, ByteClass::Exactly(DOT));
    if second == len {
        return None;
    }
    let third: usize = find_in(host, second + 1, ByteClass::Exactly(DOT));
    if third == len {
        return None;
    }
    let a: Option<u8> = parse_octet(&host[0..first]);
    let b: Option<u8> = parse_octet(&host[first + 1..second]);
    let c: Option<u8> = parse_octet(&host[second + 1..third]);
    let d: Option<u8> = parse_octet(&host[third + 1..len]);
    match (a, b, c, d) {
        (Some(a), Some(b), Some(c), Some(d)) => Some(IpAddress::V4(a, b, c, d)),
        _ => None,
    }
}

/// Finds the host that a source names.
pub fn normalize_host(host: &[u8], scheme: WebScheme, hosts: &CanonicalHosts) -> (named: Option<
    WebHost,
>)
    ensures
        match named {
            Some(named) => normalized_host(host@, scheme, *hosts) == Some(named@),
            None => normalized_host(host@, scheme, *hosts) is None,
        },
{
    if !valid_source_host_spelling(host) {
        return None;
    }
    match hosts.lookup(scheme, host) {
        None => None,
        Some(WebHost::Domain(domain)) => Some(WebHost::Domain(domain.clone())),
        Some(WebHost::Ip(address)) => match parse_dotted_address(host) {
            Some(spelled) => if spelled == *address {
                Some(WebHost::Ip(*address))
            } else {
                None
            },
            None => None,
        },
    }
}

/// Reads the ports behind a colon.
fn parse_port_pattern(port: &[u8]) -> (pattern: Option<PortPattern>)
    ensures
        pattern == port_of(port@),
{
    if same_bytes(port, "*".as_bytes()) {
        return Some(PortPattern::Any);
    }
    if port.len() == 0 || !ByteClass::Digit.contains_all(port) {
        return None;
    }
    match parse_decimal(port, 65535) {
        Some(port) => Some(PortPattern::Exact(port as u16)),
        None => None,
    }
}

/// Reads the hosts that a host part admits.
fn parse_host_pattern(host: &[u8], scheme: WebScheme, hosts: &CanonicalHosts) -> (pattern: Option<
    HostPattern,
>)
    ensures
        match pattern {
            Some(pattern) => host_pattern_of(host@, scheme, *hosts) == Some(pattern@),
            None => host_pattern_of(host@, scheme, *hosts) is None,
        },
{
    if same_bytes(host, "*".as_bytes()) {
        return Some(HostPattern::Any);
    }
    if host.len() >= 2 {
        assert(host@.subrange(0, 2) =~= host@.take(2));
        if same_bytes(&host[0..2], "*.".as_bytes()) {
            return match normalize_host(&host[2..host.len()], scheme, hosts) {
                Some(WebHost::Domain(domain)) => Some(HostPattern::Subdomains(domain)),
                _ => None,
            };
        }
    }
    match normalize_host(host, scheme, hosts) {
        Some(named) => Some(HostPattern::Exact(named)),
        None => None,
    }
}

/// An expression that cannot match.
fn unsupported_source(
    token: &[u8],
    kind: UnsupportedStyleSourceKind,
    invalidates_unsafe_inline: bool,
) -> (source: SourceExpression)
    ensures
        source@ == unsupported(token@, kind, invalidates_unsafe_inline),
{
    SourceExpression::Unsupported {
        evidence: UnsupportedStyleSource { kind, byte_len: token.len() },
        invalidates_unsafe_inline,
    }
}

/// Reads the authority of a host source.
fn parse_authority_source(
    token: &[u8],
    scheme: WebScheme,
    authority: &[u8],
    hosts: &CanonicalHosts,
) -> (source: SourceExpression)
    ensures
        source@ == authority_source(token@, scheme, authority@, *hosts),
{
    let path: usize = find_in(authority, 0, ByteClass::Exactly(SLASH));
    if authority.len() - path > 1 {
        return unsupported_source(token, UnsupportedStyleSourceKind::HostPath, false);
    }
    let bare: &[u8] = &authority[0..path];
    if bare.len() == 0 || find_in(bare, 0, ByteClass::Either(QUESTION_MARK, NUMBER_SIGN))
        < bare.len() {
        return unsupported_source(token, UnsupportedStyleSourceKind::Malformed, false);
    }
    let colon: usize = find_in(bare, 0, ByteClass::Exactly(COLON));
    let mut port: Option<PortPattern> = Some(PortPattern::Default);
    if colon < bare.len() {
        if find_in(bare, colon + 1, ByteClass::Exactly(COLON)) < bare.len() {
            return unsupported_source(token, UnsupportedStyleSourceKind::Malformed, false);
        }
        port = parse_port_pattern(&bare[colon + 1..bare.len()]);
    }
    let port: PortPattern = match port {
        Some(port) => port,
        None => return unsupported_source(token, UnsupportedStyleSourceKind::Malformed, false),
    };
    match parse_host_pattern(&bare[0..colon], scheme, hosts) {
        Some(host) => SourceExpression::Host { scheme, host, port },
        None => unsupported_source(token, UnsupportedStyleSourceKind::Malformed, false),
    }
}

/// Whether a token names a scheme that is none of the web's.
fn has_other_scheme(token: &[u8]) -> (other: bool)
    ensures
        other == names_other_scheme(token@),
{
    let len: usize = token.len();
    let mark: &[u8] = "://".as_bytes();
    proof {
        reveal_strlit("://");
        assert("://".is_ascii());
        vstd::utf8::is_ascii_chars_encode_utf8("://"@);
    }
    let mut at: usize = 0;
    while at < len && 3 <= len - at
        invariant
            len == token@.len(),
            at <= len,
            mark@ == crate::bytes::text("://"@),
            mark@.len() == 3,
            forall|i: int|
                0 <= i < at && i + 3 <= token@.len() ==> #[trigger] token@.subrange(i, i + 3)
                    != crate::bytes::text("://"@),
        decreases len - at,
    {
        if same_bytes(&token[at..at + 3], mark) {
            assert(token@.subrange(at as int, at + 3) == crate::bytes::text("://"@));
            return true;
        }
        at += 1;
    }
    len > 0 && token[len - 1] == COLON
}

/// Reads a host source.
pub fn parse_host_source(
    token: &[u8],
    document_scheme: WebScheme,
    hosts: &CanonicalHosts,
) -> (source: SourceExpression)
    ensures
        source@ == host_source(token@, document_scheme, *hosts),
{
    let http: &[u8] = "http://".as_bytes();
    let https: &[u8] = "https://".as_bytes();
    if starts_ignore_ascii_case(token, http) {
        parse_authority_source(token, WebScheme::Http, &token[http.len()..token.len()], hosts)
    } else if starts_ignore_ascii_case(token, https) {
        parse_authority_source(token, WebScheme::Https, &token[https.len()..token.len()], hosts)
    } else if has_other_scheme(token) {
        unsupported_source(token, UnsupportedStyleSourceKind::NonHttpScheme, false)
    } else {
        parse_authority_source(token, document_scheme, token, hosts)
    }
}

/// Whether bytes are a base-64 value with at most two padding signs.
pub fn is_valid_base64_value(value: &[u8]) -> (valid: bool)
    ensures
        valid == is_base64_value(value@),
{
    let mut end: usize = value.len();
    let ghost once = without_padding(value@);
    assert(value@.subrange(0, end as int) =~= value@);
    if end > 0 && value[end - 1] == EQUALS {
        end -= 1;
    }
    assert(once =~= value@.subrange(0, end as int));
    if end > 0 && value[end - 1] == EQUALS {
        assert(once.last() == EQUALS);
        end -= 1;
    }
    assert(without_padding(once) =~= value@.subrange(0, end as int));
    end > 0 && ByteClass::Base64.contains_all(&value[0..end])
}

/// Reads the value behind a word in a quoted token.
fn tagged_value<'a>(body: &'a [u8], word: &[u8]) -> (value: Option<&'a [u8]>)
    ensures
        match value {
            Some(value) => crate::bytes::starts_word(body@, word@) && value@ == behind(
                body@,
                word@,
            ),
            None => !crate::bytes::starts_word(body@, word@),
        },
{
    if starts_ignore_ascii_case(body, word) {
        Some(&body[word.len()..body.len()])
    } else {
        None
    }
}

/// Reads a quoted token that is none of the keywords `'self'` and
/// `'unsafe-inline'`.
fn parse_quoted_source(token: &[u8]) -> (source: Option<SourceExpression>)
    requires
        is_quoted(token@),
        !crate::bytes::same_word(token@, crate::bytes::text("'self'"@)),
        !crate::bytes::same_word(token@, crate::bytes::text("'unsafe-inline'"@)),
    ensures
        source matches Some(source) ==> forall|scheme: WebScheme, hosts: CanonicalHosts|
            source@ == #[trigger] source_of(token@, scheme, hosts),
        source is None ==> is_tagged_value(token@, crate::bytes::text("nonce-"@)),
{
    let body: &[u8] = &token[1..token.len() - 1];
    let nonce: Option<&[u8]> = tagged_value(body, "nonce-".as_bytes());
    if let Some(value) = nonce {
        if is_valid_base64_value(value) {
            return match try_copy(value) {
                Some(value) => Some(SourceExpression::Nonce(value)),
                None => None,
            };
        }
    }
    let sha256: Option<&[u8]> = tagged_value(body, "sha256-".as_bytes());
    let sha384: Option<&[u8]> = tagged_value(body, "sha384-".as_bytes());
    let sha512: Option<&[u8]> = tagged_value(body, "sha512-".as_bytes());
    if let Some(value) = sha256 {
        if is_valid_base64_value(value) {
            return Some(unsupported_source(token, UnsupportedStyleSourceKind::Hash, true));
        }
    }
    if let Some(value) = sha384 {
        if is_valid_base64_value(value) {
            return Some(unsupported_source(token, UnsupportedStyleSourceKind::Hash, true));
        }
    }
    if let Some(value) = sha512 {
        if is_valid_base64_value(value) {
            return Some(unsupported_source(token, UnsupportedStyleSourceKind::Hash, true));
        }
    }
    if nonce.is_some() || sha256.is_some() || sha384.is_some() || sha512.is_some() {
        return Some(unsupported_source(token, UnsupportedStyleSourceKind::Malformed, false));
    }
    Some(unsupported_source(token, UnsupportedStyleSourceKind::Keyword, false))
}

/// Reads a source expression; gives up only where no memory for a nonce can be
/// had.
pub fn parse_source_expression(
    token: &[u8],
    document_scheme: WebScheme,
    hosts: &CanonicalHosts,
) -> (source: Option<SourceExpression>)
    ensures
        source matches Some(source) ==> source@ == source_of(token@, document_scheme, *hosts),
        source is None ==> source_of(token@, document_scheme, *hosts) is Nonce,
{
    if eq_ignore_ascii_case(token, "'self'".as_bytes()) {
        return Some(SourceExpression::SelfOrigin);
    }
    if eq_ignore_ascii_case(token, "'unsafe-inline'".as_bytes()) {
        return Some(SourceExpression::UnsafeInline);
    }
    if token.len() >= 2 && token[0] == APOSTROPHE && token[token.len() - 1] == APOSTROPHE {
        return parse_quoted_source(token);
    }
    if same_bytes(token, "*".as_bytes()) {
        return Some(SourceExpression::AnyNetwork);
    }
    if eq_ignore_ascii_case(token, "http:".as_bytes()) {
        return Some(SourceExpression::Scheme(WebScheme::Http));
    }
    if eq_ignore_ascii_case(token, "https:".as_bytes()) {
        return Some(SourceExpression::Scheme(WebScheme::Https));
    }
    Some(parse_host_source(token, document_scheme, hosts))
}

/// The host spelling that an authority asks the URL parser about.
pub open spec fn authority_query(scheme: WebScheme, authority: Seq<u8>) -> Option<
    (WebScheme, Seq<u8>),
> {
    let path = crate::bytes::first_in(authority, 0, ByteClass::Exactly(SLASH));
    let bare = authority.subrange(0, path);
    let host = bare.subrange(0, crate::bytes::first_in(bare, 0, ByteClass::Exactly(COLON)));
    let spelling = if host.len() >= 2 && host.take(2) == crate::bytes::text("*."@) {
        host.subrange(2, host.len() as int)
    } else {
        host
    };
    if plainly_spelled(spelling) {
        Some((scheme, spelling))
    } else {
        None
    }
}

/// The host spelling that a token asks the URL parser about.
pub open spec fn token_query(token: Seq<u8>, document_scheme: WebScheme) -> Option<
    (WebScheme, Seq<u8>),
> {
    let http = crate::bytes::text("http://"@);
    let https = crate::bytes::text("https://"@);
    if crate::bytes::starts_word(token, http) {
        authority_query(WebScheme::Http, behind(token, http))
    } else if crate::bytes::starts_word(token, https) {
        authority_query(WebScheme::Https, behind(token, https))
    } else {
        authority_query(document_scheme, token)
    }
}

/// What a token stands for depends on the URL parser only by the one spelling
/// that the token asks it about.
pub proof fn token_asks_once(
    token: Seq<u8>,
    document_scheme: WebScheme,
    left: CanonicalHosts,
    right: CanonicalHosts,
)
    requires
        token_query(token, document_scheme) matches Some((scheme, spelling)) ==> left.named(
            scheme,
            spelling,
        ) == right.named(scheme, spelling),
    ensures
        source_of(token, document_scheme, left) == source_of(token, document_scheme, right),
{
}

/// A host spelling to ask the URL parser about.
#[derive(Debug)]
pub struct HostQuery {
    /// Scheme to read the host under.
    pub scheme: WebScheme,
    /// Spelling of the host.
    pub spelling: Vec<u8>,
}

/// Queries, in specifications.
pub open spec fn query_models(queries: Seq<HostQuery>) -> Seq<(WebScheme, Seq<u8>)> {
    Seq::new(queries.len(), |i: int| (queries[i].scheme, queries[i].spelling@))
}

/// What the tokens of a field from `from` on ask, behind `asked`.
pub open spec fn field_queries(
    field: Seq<u8>,
    document_scheme: WebScheme,
    from: int,
    asked: Seq<(WebScheme, Seq<u8>)>,
) -> Seq<(WebScheme, Seq<u8>)>
    decreases field.len() - from,
{
    let start = crate::bytes::first_outside(field, from, ByteClass::PolicySeparator);
    let end = crate::bytes::first_in(field, start, ByteClass::PolicySeparator);
    if from < 0 || start >= field.len() {
        asked
    } else {
        proof {
            crate::bytes::first_outside_is_first(field, from, ByteClass::PolicySeparator);
            crate::bytes::first_in_is_first(field, start, ByteClass::PolicySeparator);
        }
        field_queries(
            field,
            document_scheme,
            end,
            match token_query(field.subrange(start, end), document_scheme) {
                Some(query) => asked.push(query),
                None => asked,
            },
        )
    }
}

/// Finds the host spelling that an authority asks the URL parser about.
fn query_authority<'a>(authority: &'a [u8]) -> (spelling: Option<&'a [u8]>)
    ensures
        forall|scheme: WebScheme|
            #[trigger] authority_query(scheme, authority@) == match spelling {
                Some(spelling) => Some((scheme, spelling@)),
                None => None,
            },
{
    let path: usize = find_in(authority, 0, ByteClass::Exactly(SLASH));
    let bare: &'a [u8] = &authority[0..path];
    let colon: usize = find_in(bare, 0, ByteClass::Exactly(COLON));
    let host: &'a [u8] = &bare[0..colon];
    let mut spelling: &'a [u8] = host;
    if host.len() >= 2 {
        assert(host@.subrange(0, 2) =~= host@.take(2));
        if same_bytes(&host[0..2], "*.".as_bytes()) {
            spelling = &host[2..host.len()];
        }
    }
    if valid_source_host_spelling(spelling) {
        Some(spelling)
    } else {
        None
    }
}

/// Lists the host spellings that the tokens of a policy field ask the URL
/// parser about.
pub fn host_queries(field: &[u8], document_scheme: WebScheme) -> (queries: Vec<HostQuery>)
    ensures
        query_models(queries@) == field_queries(field@, document_scheme, 0, Seq::empty()),
{
    let http: &[u8] = "http://".as_bytes();
    let https: &[u8] = "https://".as_bytes();
    let mut queries: Vec<HostQuery> = Vec::new();
    let mut from: usize = 0;
    let mut done: bool = false;
    assert(query_models(queries@) =~= Seq::<(WebScheme, Seq<u8>)>::empty());
    while !done
        invariant
            from <= field@.len(),
            http@ == crate::bytes::text("http://"@),
            https@ == crate::bytes::text("https://"@),
            !done ==> field_queries(field@, document_scheme, 0, Seq::empty()) == field_queries(
                field@,
                document_scheme,
                from as int,
                query_models(queries@),
            ),
            done ==> field_queries(field@, document_scheme, 0, Seq::empty()) == query_models(
                queries@,
            ),
        decreases
            field@.len() - from,
            if done {
                0int
            } else {
                1int
            },
    {
        let start: usize = find_outside(field, from, ByteClass::PolicySeparator);
        let end: usize = find_in(field, start, ByteClass::PolicySeparator);
        proof {
            crate::bytes::first_outside_is_first(field@, from as int, ByteClass::PolicySeparator);
            crate::bytes::first_in_is_first(field@, start as int, ByteClass::PolicySeparator);
        }
        if start == field.len() {
            done = true;
        } else {
            let token: &[u8] = &field[start..end];
            let (scheme, spelling): (WebScheme, Option<&[u8]>) = if starts_ignore_ascii_case(
                token,
                http,
            ) {
                (WebScheme::Http, query_authority(&token[http.len()..token.len()]))
            } else if starts_ignore_ascii_case(token, https) {
                (WebScheme::Https, query_authority(&token[https.len()..token.len()]))
            } else {
                (document_scheme, query_authority(token))
            };
            if let Some(spelling) = spelling {
                let ghost before = queries@;
                let spelling: Vec<u8> = vstd::slice::slice_to_vec(spelling);
                queries.push(HostQuery { scheme, spelling });
                assert(query_models(queries@) =~= query_models(before).push(
                    (scheme, spelling@),
                ));
            }
            from = end;
        }
    }
    queries
}

} // verus!
