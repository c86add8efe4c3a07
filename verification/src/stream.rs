//! The stream factory's decision core: which of the four concrete byte-stream
//! stacks a configuration instantiates, the ALPN list a TLS handshake offers,
//! the certificate-acceptance policy, and the Tor lifecycle queries.

use vstd::prelude::*;

use crate::config::{NetHttpProtocol, NetMode, NetProtocol, TlsMode};
use crate::http::{alpn_h2, alpn_http11};
use crate::tor::TorLifecycle;

verus! {

/// The four concrete byte-stream stacks.
#[derive(Debug, Clone, Copy, PartialEq, Eq, Structural)]
pub enum StreamStack {
    /// Direct OS socket.
    Tcp,
    /// Routed through the process-wide Tor client.
    Tor,
    /// TLS over a direct socket.
    TlsTcp,
    /// TLS over a Tor stream.
    TlsTor,
}

/// The ALPN list offered for a protocol under an HTTP version preference:
/// HTTP and gRPC offer "h2", "http/1.1" or both by preference; socket-class
/// protocols offer nothing.
pub open spec fn alpn_list_spec(protocol: NetProtocol, pref: Option<NetHttpProtocol>) -> Seq<
    Seq<u8>,
> {
    match protocol {
        NetProtocol::Http | NetProtocol::Grpc => match pref {
            Some(NetHttpProtocol::Http1) => seq![alpn_http11()],
            Some(NetHttpProtocol::Http2) => seq![alpn_h2()],
            None => seq![alpn_h2(), alpn_http11()],
        },
        NetProtocol::WebSocket | NetProtocol::Socket => Seq::empty(),
    }
}

pub struct StreamUtils;

impl StreamUtils {
    /// The stack a transport's `(tls, mode)` pair selects at creation time.
    pub fn stream_stack(is_tls: bool, mode: &NetMode) -> (r: StreamStack)
        ensures
            r == (match (is_tls, mode) {
                (false, NetMode::Clearnet) => StreamStack::Tcp,
                (false, NetMode::Tor) => StreamStack::Tor,
                (true, NetMode::Clearnet) => StreamStack::TlsTcp,
                (true, NetMode::Tor) => StreamStack::TlsTor,
            }),
    {
        match (is_tls, mode) {
            (false, NetMode::Clearnet) => StreamStack::Tcp,
            (false, NetMode::Tor) => StreamStack::Tor,
            (true, NetMode::Clearnet) => StreamStack::TlsTcp,
            (true, NetMode::Tor) => StreamStack::TlsTor,
        }
    }

    /// The bytes "h2".
    fn h2_bytes() -> (r: Vec<u8>)
        ensures
            r@ == alpn_h2(),
    {
        let mut v: Vec<u8> = Vec::new();
        v.push(104);
        v.push(50);
        proof {
            assert(v@ =~= alpn_h2());
        }
        v
    }

    /// The bytes "http/1.1".
    fn http11_bytes() -> (r: Vec<u8>)
        ensures
            r@ == alpn_http11(),
    {
        let mut v: Vec<u8> = Vec::new();
        v.push(104);
        v.push(116);
        v.push(116);
        v.push(112);
        v.push(47);
        v.push(49);
        v.push(46);
        v.push(49);
        proof {
            assert(v@ =~= alpn_http11());
        }
        v
    }

    /// The ALPN list a TLS connector is configured with, per
    /// [`alpn_list_spec`].
    pub fn alpn_protocols(protocol: &NetProtocol, http_protocol: &Option<NetHttpProtocol>) -> (r:
        Vec<Vec<u8>>)
        ensures
            r.deep_view() == alpn_list_spec(*protocol, *http_protocol),
    {
        let mut r: Vec<Vec<u8>> = Vec::new();
        match protocol {
            NetProtocol::Http | NetProtocol::Grpc => {
                match http_protocol {
                    Some(NetHttpProtocol::Http1) => {
                        r.push(Self::http11_bytes());
                    },
                    Some(NetHttpProtocol::Http2) => {
                        r.push(Self::h2_bytes());
                    },
                    None => {
                        r.push(Self::h2_bytes());
                        r.push(Self::http11_bytes());
                    },
                }
            },
            NetProtocol::WebSocket | NetProtocol::Socket => {},
        }
        proof {
            assert(r.deep_view() =~~= alpn_list_spec(*protocol, *http_protocol));
        }
        r
    }

    /// Whether a certificate is accepted, from the standard verifier's
    /// verdict and the configured policy: `Safe` follows the verifier;
    /// `Dangerous` swallows any verification error and accepts.
    pub fn certificate_accepted(tls_mode: &TlsMode, verifier_ok: bool) -> (r: bool)
        ensures
            r == (verifier_ok || tls_mode is Dangerous),
    {
        match tls_mode {
            TlsMode::Safe => verifier_ok,
            TlsMode::Dangerous => true,
        }
    }

    /// Whether the process-wide Tor client has bootstrapped. Never fails.
    pub fn tor_inited(state: &TorLifecycle) -> (r: bool)
        ensures
            r == (state is Bootstrapped),
    {
        match state {
            TorLifecycle::Bootstrapped => true,
            TorLifecycle::Uninitialized => false,
        }
    }
}

/// The trust-on-first-use verifier: available beside the standard one but not
/// selected by default, it accepts every certificate unconditionally.
pub struct TofuVerifier;

impl TofuVerifier {
    /// Accepts whatever the standard verifier concluded.
    pub fn certificate_accepted(&self, verifier_ok: bool) -> (r: bool)
        ensures
            r,
    {
        let _ = verifier_ok;
        true
    }
}

} // verus!
