//! Address resolution: parsing a URL for a given protocol into
//! `(host, port, tls)` and rejecting scheme/protocol mismatches.

use vstd::prelude::*;

use crate::status::NetResultStatus;

verus! {

/// The decomposed routing tuple of an endpoint. The original URL text is
/// retained for diagnostic rebinding only; routing uses the other fields.
#[derive(Debug, Clone)]
pub struct AddressInfo {
    pub host: String,
    pub url: String,
    pub port: u16,
    pub is_tls: bool,
}

/// Whether the URL library accepts the text as an absolute URL.
pub uninterp spec fn url_ok(s: Seq<char>) -> bool;

/// The scheme of the parsed URL.
pub uninterp spec fn url_scheme(s: Seq<char>) -> Seq<char>;

/// The host of the parsed URL, where it has one.
pub uninterp spec fn url_host(s: Seq<char>) -> Option<Seq<char>>;

/// The port the URL library reports for the parsed URL. Absent when the text
/// names none — and also when it names the known default of its scheme, in
/// which case the resolvers' defaulting rule supplies that same value.
pub uninterp spec fn url_port(s: Seq<char>) -> Option<u16>;

/// What the URL library reports of one parsed URL.
pub struct UrlParts {
    pub scheme: String,
    pub host: Option<String>,
    pub port: Option<u16>,
}

/// Relies on url::Url::parse and its accessors scheme, host_str and port;
/// each result depends on the URL text alone.
#[verifier::external_body]
fn parse_url_parts(url_str: &str) -> (r: Option<UrlParts>)
    ensures
        r is Some <==> url_ok(url_str@),
        r matches Some(p) ==> {
            &&& p.scheme@ == url_scheme(url_str@)
            &&& (p.host is Some <==> url_host(url_str@) is Some)
            &&& (p.host matches Some(h) ==> url_host(url_str@) matches Some(sh) && h@ == sh)
            &&& p.port == url_port(url_str@)
        },
{
    match url::Url::parse(url_str) {
        Ok(u) => Some(
            UrlParts {
                scheme: u.scheme().to_string(),
                host: u.host_str().map(|h| h.to_string()),
                port: u.port(),
            },
        ),
        Err(_) => None,
    }
}

/// Scheme sets accepted by the three resolvers.
pub open spec fn http_scheme_tls(scheme: Seq<char>) -> Option<bool> {
    if scheme == "http"@ {
        Some(false)
    } else if scheme == "https"@ {
        Some(true)
    } else {
        None
    }
}

pub open spec fn ws_scheme_tls(scheme: Seq<char>) -> Option<bool> {
    if scheme == "ws"@ {
        Some(false)
    } else if scheme == "wss"@ {
        Some(true)
    } else {
        None
    }
}

pub open spec fn tcp_scheme_tls(scheme: Seq<char>) -> Option<bool> {
    if scheme == "tcp"@ {
        Some(false)
    } else if scheme == "tls"@ || scheme == "tcp+tls"@ {
        Some(true)
    } else {
        None
    }
}

/// What any of the three resolvers returns for an accepted URL: the host the
/// URL names, the explicit port or the TLS-driven default, the TLS flag of the
/// scheme, and the URL text itself.
pub open spec fn address_matches(r: AddressInfo, s: Seq<char>, is_tls: bool) -> bool {
    &&& url_host(s) matches Some(h) && r.host@ == h
    &&& r.port == (match url_port(s) {
        Some(p) => p,
        None => if is_tls {
            443u16
        } else {
            80u16
        },
    })
    &&& r.is_tls == is_tls
    &&& r.url@ == s
}

/// Whether a URL is accepted by the resolver for the given scheme rule.
pub open spec fn resolves(s: Seq<char>, tls_of_scheme: Option<bool>) -> bool {
    &&& url_ok(s)
    &&& tls_of_scheme is Some
    &&& url_host(s) is Some
}

pub struct Utils;

impl Utils {
    /// Resolve a WebSocket URL: schemes `ws` (plain) and `wss` (TLS).
    pub fn parse_ws_url(url_str: &str) -> (r: Result<AddressInfo, NetResultStatus>)
        ensures
            r is Ok <==> resolves(url_str@, ws_scheme_tls(url_scheme(url_str@))),
            r matches Ok(a) ==> address_matches(
                a,
                url_str@,
                ws_scheme_tls(url_scheme(url_str@))->0,
            ),
            r matches Err(e) ==> e == NetResultStatus::InvalidUrl,
    {
        let parts = match parse_url_parts(url_str) {
            Some(p) => p,
            None => {
                return Err(NetResultStatus::InvalidUrl);
            },
        };
        let ws: String = String::from_str("ws");
        let wss: String = String::from_str("wss");
        let is_tls: bool = if parts.scheme == ws {
            false
        } else if parts.scheme == wss {
            true
        } else {
            return Err(NetResultStatus::InvalidUrl);
        };
        Self::assemble(url_str, parts.host, parts.port, is_tls)
    }

    /// Resolve a raw-TCP URL: schemes `tcp` (plain), `tls` and `tcp+tls` (TLS).
    pub fn parse_tcp_url(url_str: &str) -> (r: Result<AddressInfo, NetResultStatus>)
        ensures
            r is Ok <==> resolves(url_str@, tcp_scheme_tls(url_scheme(url_str@))),
            r matches Ok(a) ==> address_matches(
                a,
                url_str@,
                tcp_scheme_tls(url_scheme(url_str@))->0,
            ),
            r matches Err(e) ==> e == NetResultStatus::InvalidUrl,
    {
        let parts = match parse_url_parts(url_str) {
            Some(p) => p,
            None => {
                return Err(NetResultStatus::InvalidUrl);
            },
        };
        let tcp: String = String::from_str("tcp");
        let tls: String = String::from_str("tls");
        let tcp_tls: String = String::from_str("tcp+tls");
        let is_tls: bool = if parts.scheme == tcp {
            false
        } else if parts.scheme == tls || parts.scheme == tcp_tls {
            true
        } else {
            return Err(NetResultStatus::InvalidUrl);
        };
        Self::assemble(url_str, parts.host, parts.port, is_tls)
    }

    /// Resolve an HTTP URL: schemes `http` (plain) and `https` (TLS).
    pub fn parse_http_url(url_str: &str) -> (r: Result<AddressInfo, NetResultStatus>)
        ensures
            r is Ok <==> resolves(url_str@, http_scheme_tls(url_scheme(url_str@))),
            r matches Ok(a) ==> address_matches(
                a,
                url_str@,
                http_scheme_tls(url_scheme(url_str@))->0,
            ),
            r matches Err(e) ==> e == NetResultStatus::InvalidUrl,
    {
        let parts = match parse_url_parts(url_str) {
            Some(p) => p,
            None => {
                return Err(NetResultStatus::InvalidUrl);
            },
        };
        let http: String = String::from_str("http");
        let https: String = String::from_str("https");
        let is_tls: bool = if parts.scheme == http {
            false
        } else if parts.scheme == https {
            true
        } else {
            return Err(NetResultStatus::InvalidUrl);
        };
        Self::assemble(url_str, parts.host, parts.port, is_tls)
    }

    /// Shared tail of the three resolvers: require a host, default the port.
    fn assemble(url_str: &str, host: Option<String>, port: Option<u16>, is_tls: bool) -> (r: Result<
        AddressInfo,
        NetResultStatus,
    >)
        requires
            url_ok(url_str@),
            host is Some <==> url_host(url_str@) is Some,
            host matches Some(h) ==> url_host(url_str@) matches Some(sh) && h@ == sh,
            port == url_port(url_str@),
        ensures
            r is Ok <==> url_host(url_str@) is Some,
            r matches Ok(a) ==> address_matches(a, url_str@, is_tls),
            r matches Err(e) ==> e == NetResultStatus::InvalidUrl,
    {
        let host = match host {
            Some(h) => h,
            None => {
                return Err(NetResultStatus::InvalidUrl);
            },
        };
        let port: u16 = match port {
            Some(p) => p,
            None => if is_tls {
                443
            } else {
                80
            },
        };
        Ok(AddressInfo { host, url: String::from_str(url_str), port, is_tls })
    }
}

} // verus!
