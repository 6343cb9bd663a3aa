//! Plain values describing web targets and the connections that served them.

use vstd::prelude::*;

verus! {

/// Scheme of a web target.
#[derive(Clone, Copy, Debug, PartialEq, Eq, Structural)]
pub enum WebScheme {
    /// Cleartext HTTP.
    Http,
    /// HTTP over TLS.
    Https,
}

/// A numeric address.
#[derive(Clone, Copy, Debug, PartialEq, Eq, Structural)]
pub enum IpAddress {
    /// An IPv4 address, most significant octet first.
    V4(u8, u8, u8, u8),
    /// An IPv6 address.
    V6(u128),
}

/// Host of a web target.
#[derive(Debug, PartialEq, Eq)]
pub enum WebHost {
    /// A canonical domain name.
    Domain(String),
    /// A numeric address.
    Ip(IpAddress),
}

impl Clone for WebHost {
    fn clone(&self) -> (copy: Self)
        ensures
            copy == *self,
    {
        match self {
            WebHost::Domain(domain) => WebHost::Domain(domain.clone()),
            WebHost::Ip(address) => WebHost::Ip(*address),
        }
    }
}

/// What a host is, independent of where its text is stored.
pub enum HostModel {
    /// A canonical domain name.
    Domain(Seq<char>),
    /// A numeric address.
    Ip(IpAddress),
}

impl View for WebHost {
    type V = HostModel;

    open spec fn view(&self) -> HostModel {
        match self {
            WebHost::Domain(domain) => HostModel::Domain(domain@),
            WebHost::Ip(address) => HostModel::Ip(*address),
        }
    }
}

/// Whether two hosts are the same host; a name is never an address.
pub fn same_host(left: &WebHost, right: &WebHost) -> (same: bool)
    ensures
        same == (left@ == right@),
{
    match (left, right) {
        (WebHost::Domain(left), WebHost::Domain(right)) => *left == *right,
        (WebHost::Ip(left), WebHost::Ip(right)) => *left == *right,
        (WebHost::Domain(_), WebHost::Ip(_)) => false,
        (WebHost::Ip(_), WebHost::Domain(_)) => false,
    }
}

/// Scheme, host and port of a web target.
#[derive(Debug, PartialEq, Eq)]
pub struct WebOrigin {
    /// Scheme of the origin.
    pub scheme: WebScheme,
    /// Host of the origin.
    pub host: WebHost,
    /// Effective port of the origin.
    pub port: u16,
}

impl Clone for WebOrigin {
    fn clone(&self) -> (copy: Self)
        ensures
            copy == *self,
    {
        WebOrigin { scheme: self.scheme, host: self.host.clone(), port: self.port }
    }
}

/// What an origin is, independent of where its text is stored.
pub struct OriginModel {
    /// Scheme of the origin.
    pub scheme: WebScheme,
    /// Host of the origin.
    pub host: HostModel,
    /// Effective port of the origin.
    pub port: u16,
}

impl View for WebOrigin {
    type V = OriginModel;

    open spec fn view(&self) -> OriginModel {
        OriginModel { scheme: self.scheme, host: self.host@, port: self.port }
    }
}

/// Whether two origins agree in scheme, host and port.
pub fn same_origin(left: &WebOrigin, right: &WebOrigin) -> (same: bool)
    ensures
        same == (left@ == right@),
{
    left.scheme == right.scheme && same_host(&left.host, &right.host) && left.port == right.port
}

/// A credential-free HTTP(S) target without its fragment.
#[derive(Debug, PartialEq, Eq)]
pub struct WebTarget {
    /// Canonical serialization of the target.
    pub url: String,
    /// Origin of the target.
    pub origin: WebOrigin,
}

impl Clone for WebTarget {
    fn clone(&self) -> (copy: Self)
        ensures
            copy == *self,
    {
        WebTarget { url: self.url.clone(), origin: self.origin.clone() }
    }
}

/// What a target is, independent of where its text is stored.
pub struct TargetModel {
    /// Canonical serialization of the target.
    pub url: Seq<char>,
    /// Origin of the target.
    pub origin: OriginModel,
}

impl View for WebTarget {
    type V = TargetModel;

    open spec fn view(&self) -> TargetModel {
        TargetModel { url: self.url@, origin: self.origin@ }
    }
}

/// A navigation URL read by the URL parser: its canonical identity, fragment
/// included, and the network target behind it.
#[derive(Debug, PartialEq, Eq)]
pub struct ParsedNavigation {
    /// Canonical serialization, fragment included.
    pub identity: String,
    /// Network target.
    pub target: WebTarget,
}

impl Clone for ParsedNavigation {
    fn clone(&self) -> (copy: Self)
        ensures
            copy == *self,
    {
        ParsedNavigation { identity: self.identity.clone(), target: self.target.clone() }
    }
}

/// TLS version of a connection.
#[derive(Clone, Copy, Debug, PartialEq, Eq, Structural)]
pub enum TlsVersion {
    /// TLS 1.2.
    Tls12,
    /// TLS 1.3.
    Tls13,
}

/// Application protocol agreed on a TLS connection.
#[derive(Clone, Copy, Debug, PartialEq, Eq, Structural)]
pub enum AlpnOutcome {
    /// The peer explicitly selected HTTP/1.1.
    Http11,
    /// The peer selected no protocol and HTTP/1.1 was used.
    NotNegotiated,
}

/// Transport evidence of one response.
#[derive(Clone, Copy, Debug, PartialEq, Eq, Structural)]
pub enum ConnectionSecurity {
    /// The response arrived over cleartext.
    Cleartext,
    /// The response arrived over authenticated TLS.
    Tls {
        /// Negotiated version.
        version: TlsVersion,
        /// Application protocol outcome.
        alpn: AlpnOutcome,
    },
}

/// Address space of a connected peer, as coded by the transport.
#[derive(Clone, Copy, Debug, PartialEq, Eq, Structural)]
pub struct IpAddressSpace {
    /// Transport code of the space.
    pub code: u8,
}

} // verus!
