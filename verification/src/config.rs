//! Transport configuration: the protocol, routing mode, TLS mode and encoding
//! of one transport, and the validated conversion from a raw configuration
//! request into a resolved [`NetConfig`].

use vstd::prelude::*;

use crate::address::{
    address_matches, http_scheme_tls, resolves, tcp_scheme_tls, url_scheme, ws_scheme_tls,
    AddressInfo, Utils,
};
use crate::decoder::StreamEncoding;
use crate::status::NetResultStatus;

verus! {

/// Whether a transport connects over the clearnet or through the Tor overlay.
#[derive(Debug, Clone, Copy, PartialEq, Eq, Structural)]
pub enum NetMode {
    Tor,
    Clearnet,
}

/// Explicit HTTP version preference of a transport.
#[derive(Debug, Clone, Copy, PartialEq, Eq, Structural)]
pub enum NetHttpProtocol {
    Http1,
    Http2,
}

/// The protocol one transport serves.
#[derive(Debug, Clone, Copy, PartialEq, Eq, Structural)]
pub enum NetProtocol {
    Http,
    Grpc,
    WebSocket,
    Socket,
}

/// TLS certificate policy: standard verification, or accept-on-failure.
#[derive(Debug, Clone, Copy, PartialEq, Eq, Structural)]
pub enum TlsMode {
    Safe,
    Dangerous,
}

/// One HTTP header as an ordered (key, value) pair.
#[derive(Debug, Clone)]
pub struct NetHttpHeader {
    pub key: String,
    pub value: String,
}

impl NetHttpHeader {
    pub fn new(key: String, value: String) -> (r: NetHttpHeader)
        ensures
            r.key == key,
            r.value == value,
    {
        NetHttpHeader { key, value }
    }

    /// An equal header, built from fresh strings.
    pub fn duplicate(&self) -> (r: NetHttpHeader)
        ensures
            r == *self,
    {
        let r = NetHttpHeader { key: self.key.clone(), value: self.value.clone() };
        proof {
            assert(r == *self);
        }
        r
    }
}

/// An equal header list, built element by element.
pub fn duplicate_headers(headers: &Vec<NetHttpHeader>) -> (r: Vec<NetHttpHeader>)
    ensures
        r@ == headers@,
{
    let mut r: Vec<NetHttpHeader> = Vec::new();
    let mut i: usize = 0;
    while i < headers.len()
        invariant
            i <= headers.len(),
            r@ == headers@.take(i as int),
        decreases headers.len() - i,
    {
        r.push(headers[i].duplicate());
        proof {
            assert(r@ =~= headers@.take(i + 1));
        }
        i = i + 1;
    }
    proof {
        assert(headers@.take(headers@.len() as int) =~= headers@);
    }
    r
}

/// HTTP-specific transport settings: default headers, version preference, and
/// whether requests to a host other than the configured one may build an
/// ephemeral client instead of being rejected.
#[derive(Debug, Clone)]
pub struct NetHttpConfig {
    pub headers: Vec<NetHttpHeader>,
    pub protocol: Option<NetHttpProtocol>,
    pub global_client: bool,
}

/// Field-wise equality of HTTP settings, comparing the header list by
/// contents.
pub open spec fn http_config_matches(a: NetHttpConfig, b: NetHttpConfig) -> bool {
    &&& a.headers@ == b.headers@
    &&& a.protocol == b.protocol
    &&& a.global_client == b.global_client
}

impl Default for NetHttpConfig {
    /// No default headers, automatic version selection, no ephemeral clients.
    fn default() -> (r: NetHttpConfig)
        ensures
            r.headers@ == Seq::<NetHttpHeader>::empty(),
            r.protocol is None,
            !r.global_client,
    {
        NetHttpConfig { headers: Vec::new(), protocol: None, global_client: false }
    }
}

impl NetHttpConfig {
    /// Equal settings, built from fresh parts.
    pub fn duplicate(&self) -> (r: NetHttpConfig)
        ensures
            http_config_matches(r, *self),
    {
        NetHttpConfig {
            headers: duplicate_headers(&self.headers),
            protocol: self.protocol,
            global_client: self.global_client,
        }
    }
}

/// Directories the Tor client keeps its cache and state in.
#[derive(Debug, Clone)]
pub struct NetTorClientConfig {
    pub cache_dir: String,
    pub state_dir: String,
}

impl NetTorClientConfig {
    /// An equal configuration, built from fresh strings.
    pub fn duplicate(&self) -> (r: NetTorClientConfig)
        ensures
            r == *self,
    {
        let r = NetTorClientConfig {
            cache_dir: self.cache_dir.clone(),
            state_dir: self.state_dir.clone(),
        };
        proof {
            assert(r == *self);
        }
        r
    }
}

/// An equal optional Tor configuration.
pub fn duplicate_tor_config(c: &Option<NetTorClientConfig>) -> (r: Option<NetTorClientConfig>)
    ensures
        r == *c,
{
    match c {
        Some(t) => Some(t.duplicate()),
        None => None,
    }
}

/// A transport configuration as the host hands it over: the endpoint still as
/// URL text, everything else already decoded.
pub struct NetRequestConfig {
    pub url: String,
    pub mode: NetMode,
    pub protocol: NetProtocol,
    pub http: NetHttpConfig,
    pub tls_mode: TlsMode,
    pub tor_config: Option<NetTorClientConfig>,
    pub encoding: StreamEncoding,
}

/// A resolved transport configuration, immutable once the transport exists.
#[derive(Debug, Clone)]
pub struct NetConfig {
    pub addr: AddressInfo,
    pub mode: NetMode,
    pub http: NetHttpConfig,
    pub protocol: NetProtocol,
    pub tls_mode: TlsMode,
    pub tor_config: Option<NetTorClientConfig>,
    pub encoding: StreamEncoding,
}

/// Field-wise equality of resolved configurations, headers by contents.
pub open spec fn config_matches(a: NetConfig, b: NetConfig) -> bool {
    &&& a.addr == b.addr
    &&& a.mode == b.mode
    &&& http_config_matches(a.http, b.http)
    &&& a.protocol == b.protocol
    &&& a.tls_mode == b.tls_mode
    &&& a.tor_config == b.tor_config
    &&& a.encoding == b.encoding
}

impl NetConfig {
    /// The same configuration rebound to another address; every other field is
    /// kept. Used for ephemeral clients when a request targets an alternate
    /// host.
    pub fn change_addr(&self, new_addr: AddressInfo) -> (r: NetConfig)
        ensures
            r.addr == new_addr,
            r.mode == self.mode,
            http_config_matches(r.http, self.http),
            r.protocol == self.protocol,
            r.tls_mode == self.tls_mode,
            r.tor_config == self.tor_config,
            r.encoding == self.encoding,
    {
        NetConfig {
            addr: new_addr,
            mode: self.mode,
            http: self.http.duplicate(),
            protocol: self.protocol,
            tls_mode: self.tls_mode,
            tor_config: duplicate_tor_config(&self.tor_config),
            encoding: self.encoding,
        }
    }
}

/// The scheme rule each protocol resolves its URL under.
pub open spec fn scheme_tls_for_protocol(protocol: NetProtocol, scheme: Seq<char>) -> Option<bool> {
    match protocol {
        NetProtocol::Http => http_scheme_tls(scheme),
        NetProtocol::Grpc => http_scheme_tls(scheme),
        NetProtocol::WebSocket => ws_scheme_tls(scheme),
        NetProtocol::Socket => tcp_scheme_tls(scheme),
    }
}

/// Whether a configuration request's URL resolves under its protocol's scheme
/// rule.
pub open spec fn config_url_resolves(c: NetRequestConfig) -> bool {
    resolves(c.url@, scheme_tls_for_protocol(c.protocol, url_scheme(c.url@)))
}

impl NetRequestConfig {
    /// Resolve the URL under the protocol's scheme rule.
    pub fn to_protocol_address(&self) -> (r: Result<AddressInfo, NetResultStatus>)
        ensures
            r is Ok <==> config_url_resolves(*self),
            r matches Ok(a) ==> address_matches(
                a,
                self.url@,
                scheme_tls_for_protocol(self.protocol, url_scheme(self.url@))->0,
            ),
            r matches Err(e) ==> e == NetResultStatus::InvalidUrl,
    {
        match self.protocol {
            NetProtocol::Http => Utils::parse_http_url(self.url.as_str()),
            NetProtocol::Grpc => Utils::parse_http_url(self.url.as_str()),
            NetProtocol::WebSocket => Utils::parse_ws_url(self.url.as_str()),
            NetProtocol::Socket => Utils::parse_tcp_url(self.url.as_str()),
        }
    }

    /// Resolve into a full [`NetConfig`]; fails with `InvalidUrl` exactly when
    /// the URL does not resolve under the protocol's scheme rule.
    pub fn to_config(&self) -> (r: Result<NetConfig, NetResultStatus>)
        ensures
            r is Ok <==> config_url_resolves(*self),
            r matches Ok(c) ==> {
                &&& address_matches(
                    c.addr,
                    self.url@,
                    scheme_tls_for_protocol(self.protocol, url_scheme(self.url@))->0,
                )
                &&& c.mode == self.mode
                &&& http_config_matches(c.http, self.http)
                &&& c.protocol == self.protocol
                &&& c.tls_mode == self.tls_mode
                &&& c.tor_config == self.tor_config
                &&& c.encoding == self.encoding
            },
            r matches Err(e) ==> e == NetResultStatus::InvalidUrl,
    {
        let addr = match self.to_protocol_address() {
            Ok(a) => a,
            Err(e) => {
                return Err(e);
            },
        };
        Ok(
            NetConfig {
                addr,
                http: self.http.duplicate(),
                protocol: self.protocol,
                mode: self.mode,
                tls_mode: self.tls_mode,
                tor_config: duplicate_tor_config(&self.tor_config),
                encoding: self.encoding,
            },
        )
    }

    /// Resolve into a [`NetConfig`] after checking that the request declares
    /// the expected protocol; a mismatch is `InvalidConfigParameters`.
    pub fn to_protocol_config(&self, protocol: NetProtocol) -> (r: Result<
        NetConfig,
        NetResultStatus,
    >)
        ensures
            self.protocol != protocol ==> (r matches Err(e) && e
                == NetResultStatus::InvalidConfigParameters),
            self.protocol == protocol ==> {
                &&& (r is Ok <==> config_url_resolves(*self))
                &&& (r matches Ok(c) ==> {
                    &&& address_matches(
                        c.addr,
                        self.url@,
                        scheme_tls_for_protocol(self.protocol, url_scheme(self.url@))->0,
                    )
                    &&& c.mode == self.mode
                    &&& http_config_matches(c.http, self.http)
                    &&& c.protocol == self.protocol
                    &&& c.tls_mode == self.tls_mode
                    &&& c.tor_config == self.tor_config
                    &&& c.encoding == self.encoding
                })
                &&& (r matches Err(e) ==> e == NetResultStatus::InvalidUrl)
            },
    {
        if self.protocol != protocol {
            return Err(NetResultStatus::InvalidConfigParameters);
        }
        self.to_config()
    }
}

impl NetMode {
    /// Specification twin of [`NetMode::from_tag`].
    pub open spec fn from_tag_spec(tag: u8) -> Result<NetMode, NetResultStatus> {
        if tag == 1 {
            Ok(NetMode::Tor)
        } else if tag == 2 {
            Ok(NetMode::Clearnet)
        } else {
            Err(NetResultStatus::InvalidConfigParameters)
        }
    }

    /// Decode the host-boundary tag for the routing mode.
    pub fn from_tag(tag: u8) -> (r: Result<NetMode, NetResultStatus>)
        ensures
            r == Self::from_tag_spec(tag),
    {
        match tag {
            1 => Ok(NetMode::Tor),
            2 => Ok(NetMode::Clearnet),
            _ => Err(NetResultStatus::InvalidConfigParameters),
        }
    }
}

impl NetProtocol {
    /// Specification twin of [`NetProtocol::from_tag`].
    pub open spec fn from_tag_spec(tag: u8) -> Result<NetProtocol, NetResultStatus> {
        if tag == 1 {
            Ok(NetProtocol::Http)
        } else if tag == 2 {
            Ok(NetProtocol::Grpc)
        } else if tag == 3 {
            Ok(NetProtocol::WebSocket)
        } else if tag == 4 {
            Ok(NetProtocol::Socket)
        } else {
            Err(NetResultStatus::InvalidConfigParameters)
        }
    }

    /// Decode the host-boundary tag for the protocol.
    pub fn from_tag(tag: u8) -> (r: Result<NetProtocol, NetResultStatus>)
        ensures
            r == Self::from_tag_spec(tag),
    {
        match tag {
            1 => Ok(NetProtocol::Http),
            2 => Ok(NetProtocol::Grpc),
            3 => Ok(NetProtocol::WebSocket),
            4 => Ok(NetProtocol::Socket),
            _ => Err(NetResultStatus::InvalidConfigParameters),
        }
    }
}

impl TlsMode {
    /// Specification twin of [`TlsMode::from_tag`].
    pub open spec fn from_tag_spec(tag: u8) -> Result<TlsMode, NetResultStatus> {
        if tag == 1 {
            Ok(TlsMode::Safe)
        } else if tag == 2 {
            Ok(TlsMode::Dangerous)
        } else {
            Err(NetResultStatus::InvalidConfigParameters)
        }
    }

    /// Decode the host-boundary tag for the TLS policy.
    pub fn from_tag(tag: u8) -> (r: Result<TlsMode, NetResultStatus>)
        ensures
            r == Self::from_tag_spec(tag),
    {
        match tag {
            1 => Ok(TlsMode::Safe),
            2 => Ok(TlsMode::Dangerous),
            _ => Err(NetResultStatus::InvalidConfigParameters),
        }
    }
}

impl NetHttpProtocol {
    /// Specification twin of [`NetHttpProtocol::option_from_tag`].
    pub open spec fn option_from_tag_spec(tag: u8) -> Result<
        Option<NetHttpProtocol>,
        NetResultStatus,
    > {
        if tag == 0 {
            Ok(None)
        } else if tag == 1 {
            Ok(Some(NetHttpProtocol::Http1))
        } else if tag == 2 {
            Ok(Some(NetHttpProtocol::Http2))
        } else {
            Err(NetResultStatus::InvalidConfigParameters)
        }
    }

    /// Decode the host-boundary tag for the HTTP version preference, where 0
    /// means no preference.
    pub fn option_from_tag(tag: u8) -> (r: Result<Option<NetHttpProtocol>, NetResultStatus>)
        ensures
            r == Self::option_from_tag_spec(tag),
    {
        match tag {
            0 => Ok(None),
            1 => Ok(Some(NetHttpProtocol::Http1)),
            2 => Ok(Some(NetHttpProtocol::Http2)),
            _ => Err(NetResultStatus::InvalidConfigParameters),
        }
    }
}

impl NetHttpConfig {
    /// Assemble HTTP settings from host-boundary parts.
    pub fn from_parts(headers: Vec<NetHttpHeader>, protocol_tag: u8, global_client: bool) -> (r:
        Result<NetHttpConfig, NetResultStatus>)
        ensures
            r is Ok <==> protocol_tag <= 2,
            r matches Ok(c) ==> {
                &&& c.headers@ == headers@
                &&& Ok::<Option<NetHttpProtocol>, NetResultStatus>(c.protocol)
                    == NetHttpProtocol::option_from_tag_spec(protocol_tag)
                &&& c.global_client == global_client
            },
            r matches Err(e) ==> e == NetResultStatus::InvalidConfigParameters,
    {
        let protocol = match NetHttpProtocol::option_from_tag(protocol_tag) {
            Ok(p) => p,
            Err(e) => {
                return Err(e);
            },
        };
        Ok(NetHttpConfig { headers, protocol, global_client })
    }
}

impl NetRequestConfig {
    /// Assemble a configuration request from host-boundary parts, decoding
    /// every tag; any bad tag is `InvalidConfigParameters`.
    pub fn from_parts(
        url: String,
        mode_tag: u8,
        protocol_tag: u8,
        tls_tag: u8,
        encoding_tag: u8,
        http: NetHttpConfig,
        tor_config: Option<NetTorClientConfig>,
    ) -> (r: Result<NetRequestConfig, NetResultStatus>)
        ensures
            r is Ok <==> (1 <= mode_tag <= 2 && 1 <= protocol_tag <= 4 && 1 <= tls_tag <= 2 && 1
                <= encoding_tag <= 2),
            r matches Ok(c) ==> {
                &&& c.url == url
                &&& Ok::<NetMode, NetResultStatus>(c.mode) == NetMode::from_tag_spec(mode_tag)
                &&& Ok::<NetProtocol, NetResultStatus>(c.protocol) == NetProtocol::from_tag_spec(
                    protocol_tag,
                )
                &&& Ok::<TlsMode, NetResultStatus>(c.tls_mode) == TlsMode::from_tag_spec(tls_tag)
                &&& Ok::<StreamEncoding, NetResultStatus>(c.encoding)
                    == StreamEncoding::from_tag_spec(encoding_tag)
                &&& http_config_matches(c.http, http)
                &&& c.tor_config == tor_config
            },
            r matches Err(e) ==> e == NetResultStatus::InvalidConfigParameters,
    {
        let mode = match NetMode::from_tag(mode_tag) {
            Ok(m) => m,
            Err(e) => {
                return Err(e);
            },
        };
        let protocol = match NetProtocol::from_tag(protocol_tag) {
            Ok(p) => p,
            Err(e) => {
                return Err(e);
            },
        };
        let tls_mode = match TlsMode::from_tag(tls_tag) {
            Ok(t) => t,
            Err(e) => {
                return Err(e);
            },
        };
        let encoding = match StreamEncoding::from_tag(encoding_tag) {
            Ok(s) => s,
            Err(e) => {
                return Err(e);
            },
        };
        Ok(NetRequestConfig { url, mode, protocol, http, tls_mode, tor_config, encoding })
    }
}

} // verus!
