//! The HTTP client's decision core: version selection from preference and
//! negotiated ALPN, header selection, the retry schedule, routing of
//! alternate-host requests, and post-processing of a buffered response.
//!
//! The network sends themselves are asynchronous I/O and live with the caller;
//! every decision between two sends is taken here, over the observed outcome
//! of each attempt.

use vstd::prelude::*;

use crate::config::{NetConfig, NetHttpHeader, NetHttpProtocol};
use crate::decoder::{StreamBuffer, StreamEncoding};
use crate::response::NetResponseHttp;
use crate::status::NetResultStatus;

verus! {

/// Retry policy of one HTTP request: how many retries, which response
/// statuses to retry on, and the sleep between attempts.
pub struct NetHttpRetryConfig {
    pub max_retries: u8,
    pub retry_status: Vec<u16>,
    pub retry_delay: u32,
}

impl NetHttpRetryConfig {
    /// The policy used when a request names none: one retry, no
    /// retry-on-status, no sleep.
    pub fn default() -> (r: NetHttpRetryConfig)
        ensures
            r.max_retries == 1,
            r.retry_status@ == Seq::<u16>::empty(),
            r.retry_delay == 0,
    {
        NetHttpRetryConfig { max_retries: 1, retry_status: Vec::new(), retry_delay: 0 }
    }
}

/// What one network attempt came back with: a response with some status, or a
/// transport-level I/O failure.
#[derive(Debug, Clone, Copy, PartialEq, Eq, Structural)]
pub enum AttemptOutcome {
    Response { status: u16 },
    TransportError,
}

/// What to do after one attempt.
#[derive(Debug, Clone, Copy, PartialEq, Eq, Structural)]
pub enum RetryDecision {
    /// Deliver this response to the caller.
    Accept,
    /// Sleep, then resend on the existing connection (retryable status).
    RetrySame,
    /// Rebuild the connection, sleep, then resend (I/O failure).
    Reconnect,
    /// Retries exhausted on an I/O failure: fail with `ConnectionError`.
    GiveUp,
}

/// The decision taken after attempt number `attempt` (counted from 0) came
/// back with `outcome`: a response whose status is in `retry_status` is
/// retried while retries remain, any other response is delivered, and an I/O
/// failure reconnects while retries remain and fails afterwards.
pub open spec fn retry_decision_spec(
    cfg: NetHttpRetryConfig,
    attempt: int,
    outcome: AttemptOutcome,
) -> RetryDecision {
    match outcome {
        AttemptOutcome::Response { status } => {
            if cfg.retry_status@.contains(status) && attempt < cfg.max_retries {
                RetryDecision::RetrySame
            } else {
                RetryDecision::Accept
            }
        },
        AttemptOutcome::TransportError => {
            if attempt < cfg.max_retries {
                RetryDecision::Reconnect
            } else {
                RetryDecision::GiveUp
            }
        },
    }
}

/// Whether a status is in the retry list.
pub fn contains_status(list: &Vec<u16>, status: u16) -> (r: bool)
    ensures
        r == list@.contains(status),
{
    let mut i: usize = 0;
    while i < list.len()
        invariant
            i <= list.len(),
            forall|k: int| 0 <= k < i ==> list@[k] != status,
        decreases list.len() - i,
    {
        if list[i] == status {
            return true;
        }
        i = i + 1;
    }
    false
}

impl NetHttpRetryConfig {
    /// The decision after one attempt, per [`retry_decision_spec`].
    pub fn retry_step(&self, attempt: u8, outcome: &AttemptOutcome) -> (r: RetryDecision)
        ensures
            r == retry_decision_spec(*self, attempt as int, *outcome),
    {
        match outcome {
            AttemptOutcome::Response { status } => {
                if contains_status(&self.retry_status, *status) && attempt < self.max_retries {
                    RetryDecision::RetrySame
                } else {
                    RetryDecision::Accept
                }
            },
            AttemptOutcome::TransportError => {
                if attempt < self.max_retries {
                    RetryDecision::Reconnect
                } else {
                    RetryDecision::GiveUp
                }
            },
        }
    }
}

/// How a whole send ended: a response delivered after some attempt, or
/// retries exhausted on I/O failures.
#[derive(Debug, Clone, Copy, PartialEq, Eq, Structural)]
pub enum RetryRunResult {
    Delivered { attempt: usize, status: u16 },
    Failed,
}

/// The send driven over a fixed schedule of attempt outcomes, starting at
/// attempt number `attempt`: how many attempts run in total and how the send
/// ends.
pub open spec fn retry_run_from(
    cfg: NetHttpRetryConfig,
    outcomes: Seq<AttemptOutcome>,
    attempt: int,
) -> (int, RetryRunResult)
    recommends
        0 <= attempt < outcomes.len(),
    decreases outcomes.len() - attempt when 0 <= attempt < outcomes.len()
{
    if 0 <= attempt < outcomes.len() {
        let outcome = outcomes[attempt];
        match retry_decision_spec(cfg, attempt, outcome) {
            RetryDecision::Accept => (
                attempt + 1,
                RetryRunResult::Delivered { attempt: attempt as usize, status: outcome->status },
            ),
            RetryDecision::GiveUp => (attempt + 1, RetryRunResult::Failed),
            RetryDecision::RetrySame => retry_run_from(cfg, outcomes, attempt + 1),
            RetryDecision::Reconnect => retry_run_from(cfg, outcomes, attempt + 1),
        }
    } else {
        (attempt, RetryRunResult::Failed)
    }
}

/// The whole send from the first attempt.
pub open spec fn retry_run_spec(cfg: NetHttpRetryConfig, outcomes: Seq<AttemptOutcome>) -> (
    int,
    RetryRunResult,
) {
    retry_run_from(cfg, outcomes, 0)
}

/// One completed send: the number of network attempts it performed, how it
/// ended, and the cumulative sleep it inserted between attempts.
pub struct RetryRun {
    pub attempts: usize,
    pub result: RetryRunResult,
    pub slept_ms: u64,
}

impl NetHttpRetryConfig {
    /// Drive a whole send over a fixed schedule of attempt outcomes (what the
    /// network would answer on each attempt). At most `max_retries + 1`
    /// attempts run, sleeps happen between attempts only, and the result is
    /// the decision chain of [`retry_run_spec`].
    pub fn run_retry_schedule(&self, outcomes: &Vec<AttemptOutcome>) -> (r: RetryRun)
        requires
            outcomes@.len() > self.max_retries,
        ensures
            r.attempts == retry_run_spec(*self, outcomes@).0,
            r.result == retry_run_spec(*self, outcomes@).1,
            1 <= r.attempts <= self.max_retries + 1,
            r.slept_ms == (r.attempts - 1) * self.retry_delay,
    {
        let mut attempt: u8 = 0;
        let mut slept: u64 = 0;
        loop
            invariant
                attempt <= self.max_retries,
                outcomes@.len() > self.max_retries,
                retry_run_spec(*self, outcomes@) == retry_run_from(
                    *self,
                    outcomes@,
                    attempt as int,
                ),
                slept == attempt as u64 * self.retry_delay as u64,
            decreases self.max_retries - attempt,
        {
            let outcome = &outcomes[attempt as usize];
            match self.retry_step(attempt, outcome) {
                RetryDecision::Accept => {
                    let status: u16 = match outcome {
                        AttemptOutcome::Response { status } => *status,
                        AttemptOutcome::TransportError => 0,
                    };
                    return RetryRun {
                        attempts: attempt as usize + 1,
                        result: RetryRunResult::Delivered { attempt: attempt as usize, status },
                        slept_ms: slept,
                    };
                },
                RetryDecision::GiveUp => {
                    return RetryRun {
                        attempts: attempt as usize + 1,
                        result: RetryRunResult::Failed,
                        slept_ms: slept,
                    };
                },
                RetryDecision::RetrySame => {
                    proof {
                        lemma_sleep_step(slept, attempt as u64, self.retry_delay as u64);
                    }
                    slept = slept + self.retry_delay as u64;
                    attempt = attempt + 1;
                },
                RetryDecision::Reconnect => {
                    proof {
                        lemma_sleep_step(slept, attempt as u64, self.retry_delay as u64);
                    }
                    slept = slept + self.retry_delay as u64;
                    attempt = attempt + 1;
                },
            }
        }
    }
}

/// Accounting step for the cumulative retry sleep.
proof fn lemma_sleep_step(slept: u64, attempt: u64, delay: u64)
    requires
        slept == attempt * delay,
        attempt + 1 <= 255,
        delay <= 0xffff_ffffu64,
    ensures
        slept + delay == (attempt + 1) * delay,
        slept + delay <= 255 * 0xffff_ffffu64,
{
    assert(slept + delay == (attempt + 1) * delay && (attempt + 1) * delay <= 255 * 0xffff_ffffu64)
        by (nonlinear_arith)
        requires
            slept == attempt * delay,
            attempt + 1 <= 255,
            delay <= 0xffff_ffffu64,
    ;
}

/// Law (retry bound): a send with `max_retries = N` performs at most N + 1
/// network attempts, whatever the network answers.
pub proof fn lemma_retry_bound(cfg: NetHttpRetryConfig, outcomes: Seq<AttemptOutcome>)
    requires
        outcomes.len() > cfg.max_retries,
    ensures
        retry_run_spec(cfg, outcomes).0 <= cfg.max_retries + 1,
{
    lemma_retry_bound_from(cfg, outcomes, 0);
}

proof fn lemma_retry_bound_from(cfg: NetHttpRetryConfig, outcomes: Seq<AttemptOutcome>, attempt: int)
    requires
        0 <= attempt <= cfg.max_retries,
        outcomes.len() > cfg.max_retries,
    ensures
        retry_run_from(cfg, outcomes, attempt).0 <= cfg.max_retries + 1,
    decreases outcomes.len() - attempt,
{
    let outcome = outcomes[attempt];
    match retry_decision_spec(cfg, attempt, outcome) {
        RetryDecision::Accept => {},
        RetryDecision::GiveUp => {},
        RetryDecision::RetrySame => {
            lemma_retry_bound_from(cfg, outcomes, attempt + 1);
        },
        RetryDecision::Reconnect => {
            lemma_retry_bound_from(cfg, outcomes, attempt + 1);
        },
    }
}

/// Law (retry exhaustion): against a server that always answers with a status
/// in `retry_status`, the send performs exactly `max_retries + 1` attempts and
/// delivers the response of the last one.
pub proof fn lemma_retry_exhausts_on_retryable(
    cfg: NetHttpRetryConfig,
    outcomes: Seq<AttemptOutcome>,
)
    requires
        outcomes.len() > cfg.max_retries,
        forall|k: int|
            0 <= k <= cfg.max_retries ==> ((#[trigger] outcomes[k]) matches
                AttemptOutcome::Response { status } && cfg.retry_status@.contains(status)),
    ensures
        retry_run_spec(cfg, outcomes).0 == cfg.max_retries + 1,
        retry_run_spec(cfg, outcomes).1 == (RetryRunResult::Delivered {
            attempt: cfg.max_retries as usize,
            status: outcomes[cfg.max_retries as int]->status,
        }),
{
    lemma_retry_exhausts_from(cfg, outcomes, 0);
}

proof fn lemma_retry_exhausts_from(
    cfg: NetHttpRetryConfig,
    outcomes: Seq<AttemptOutcome>,
    attempt: int,
)
    requires
        0 <= attempt <= cfg.max_retries,
        outcomes.len() > cfg.max_retries,
        forall|k: int|
            0 <= k <= cfg.max_retries ==> ((#[trigger] outcomes[k]) matches
                AttemptOutcome::Response { status } && cfg.retry_status@.contains(status)),
    ensures
        retry_run_from(cfg, outcomes, attempt).0 == cfg.max_retries + 1,
        retry_run_from(cfg, outcomes, attempt).1 == (RetryRunResult::Delivered {
            attempt: cfg.max_retries as usize,
            status: outcomes[cfg.max_retries as int]->status,
        }),
    decreases outcomes.len() - attempt,
{
    if attempt < cfg.max_retries {
        lemma_retry_exhausts_from(cfg, outcomes, attempt + 1);
    }
}

/// How the HTTP version of a fresh connection is chosen from the configured
/// preference and the ALPN value the TLS handshake negotiated.
#[derive(Debug, Clone, Copy, PartialEq, Eq, Structural)]
pub enum HttpHandshakePlan {
    /// Speak HTTP/2.
    Http2,
    /// Speak HTTP/1.
    Http1,
    /// Try an HTTP/2 handshake; on failure fall back to HTTP/1.
    AutoHttp2,
}

/// The ALPN token for HTTP/2, as bytes ("h2").
pub open spec fn alpn_h2() -> Seq<u8> {
    seq![104u8, 50u8]
}

/// The ALPN token for HTTP/1.1, as bytes ("http/1.1").
pub open spec fn alpn_http11() -> Seq<u8> {
    seq![104u8, 116u8, 116u8, 112u8, 47u8, 49u8, 46u8, 49u8]
}

/// Whether the negotiated ALPN value selects HTTP/2.
pub open spec fn alpn_is_h2(alpn: Option<Seq<u8>>) -> bool {
    alpn matches Some(a) && a == alpn_h2()
}

/// Whether the negotiated ALPN bytes are exactly "h2".
pub fn negotiated_h2(alpn: &Option<Vec<u8>>) -> (r: bool)
    ensures
        r == alpn_is_h2(match alpn {
            Some(v) => Some(v@),
            None => None,
        }),
{
    match alpn {
        Some(v) => {
            if v.len() == 2 && v[0] == 104 && v[1] == 50 {
                proof {
                    assert(v@ =~= alpn_h2());
                }
                true
            } else {
                proof {
                    assert(v@ != alpn_h2());
                }
                false
            }
        },
        None => false,
    }
}

/// Choose the HTTP version for a fresh connection. A hard `Http2` preference
/// requires the handshake to have negotiated "h2" and otherwise fails with
/// `Http2ConnectionFailed`; `Http1` always speaks HTTP/1; no preference tries
/// HTTP/2 exactly when "h2" was negotiated, with HTTP/1 as fallback.
pub fn select_http_protocol(pref: &Option<NetHttpProtocol>, alpn: &Option<Vec<u8>>) -> (r: Result<
    HttpHandshakePlan,
    NetResultStatus,
>)
    ensures
        ({
            let h2 = alpn_is_h2(match alpn {
                Some(v) => Some(v@),
                None => None,
            });
            match pref {
                Some(NetHttpProtocol::Http2) => if h2 {
                    r == Ok::<HttpHandshakePlan, NetResultStatus>(HttpHandshakePlan::Http2)
                } else {
                    r == Err::<HttpHandshakePlan, NetResultStatus>(
                        NetResultStatus::Http2ConnectionFailed,
                    )
                },
                Some(NetHttpProtocol::Http1) => r == Ok::<HttpHandshakePlan, NetResultStatus>(
                    HttpHandshakePlan::Http1,
                ),
                None => if h2 {
                    r == Ok::<HttpHandshakePlan, NetResultStatus>(HttpHandshakePlan::AutoHttp2)
                } else {
                    r == Ok::<HttpHandshakePlan, NetResultStatus>(HttpHandshakePlan::Http1)
                },
            }
        }),
{
    let h2 = negotiated_h2(alpn);
    match pref {
        Some(NetHttpProtocol::Http2) => {
            if h2 {
                Ok(HttpHandshakePlan::Http2)
            } else {
                Err(NetResultStatus::Http2ConnectionFailed)
            }
        },
        Some(NetHttpProtocol::Http1) => Ok(HttpHandshakePlan::Http1),
        None => {
            if h2 {
                Ok(HttpHandshakePlan::AutoHttp2)
            } else {
                Ok(HttpHandshakePlan::Http1)
            }
        },
    }
}

/// The headers one request is sent with: the request's own, verbatim, where it
/// names any; the transport's configured defaults otherwise.
pub fn effective_headers(
    request_headers: &Option<Vec<NetHttpHeader>>,
    defaults: &Vec<NetHttpHeader>,
) -> (r: Vec<NetHttpHeader>)
    ensures
        match request_headers {
            Some(h) => r@ == h@,
            None => r@ == defaults@,
        },
{
    match request_headers {
        Some(h) => crate::config::duplicate_headers(h),
        None => crate::config::duplicate_headers(defaults),
    }
}

/// Where a request whose URL names a host is served. Requests to the
/// configured host use the transport's own client. For another host the
/// policy is explicit: with `global_client` set the transport builds an
/// ephemeral client for that host; without it the request is rejected.
#[derive(Debug, Clone, Copy, PartialEq, Eq, Structural)]
pub enum HttpHostRoute {
    /// Serve over the transport's own client.
    Configured,
    /// Build an ephemeral client for the request's host.
    Ephemeral,
}

/// Route a request by its URL's host, per the alternate-host policy.
pub fn route_for_host(config: &NetConfig, request_host: &String) -> (r: Result<
    HttpHostRoute,
    NetResultStatus,
>)
    ensures
        config.addr.host@ == request_host@ ==> r == Ok::<HttpHostRoute, NetResultStatus>(
            HttpHostRoute::Configured,
        ),
        config.addr.host@ != request_host@ && config.http.global_client ==> r == Ok::<
            HttpHostRoute,
            NetResultStatus,
        >(HttpHostRoute::Ephemeral),
        config.addr.host@ != request_host@ && !config.http.global_client ==> r == Err::<
            HttpHostRoute,
            NetResultStatus,
        >(NetResultStatus::InvalidRequestParameters),
{
    if config.addr.host == *request_host {
        Ok(HttpHostRoute::Configured)
    } else if config.http.global_client {
        Ok(HttpHostRoute::Ephemeral)
    } else {
        Err(NetResultStatus::InvalidRequestParameters)
    }
}

/// Whether a byte may appear in an HTTP method token: the `tchar` set of the
/// HTTP grammar (RFC 7230).
pub open spec fn is_tchar(b: u8) -> bool {
    ||| b == 33  // !
    ||| b == 35 || b == 36 || b == 37 || b == 38 || b == 39  // # $ % & '
    ||| b == 42 || b == 43 || b == 45 || b == 46  // * + - .
    ||| 48 <= b <= 57  // 0-9
    ||| 65 <= b <= 90  // A-Z
    ||| b == 94 || b == 95 || b == 96  // ^ _ `
    ||| 97 <= b <= 122  // a-z
    ||| b == 124 || b == 126  // | ~
}

/// Whether the bytes form a non-empty HTTP method token.
pub open spec fn method_token_ok(s: Seq<u8>) -> bool {
    s.len() > 0 && forall|i: int| 0 <= i < s.len() ==> is_tchar(#[trigger] s[i])
}

/// Whether the bytes name a syntactically valid HTTP method. A request with
/// an invalid method is rejected with `InvalidRequestParameters` before any
/// network attempt.
pub fn validate_method(method: &Vec<u8>) -> (r: bool)
    ensures
        r == method_token_ok(method@),
{
    if method.len() == 0 {
        return false;
    }
    let mut i: usize = 0;
    while i < method.len()
        invariant
            i <= method.len(),
            method@.len() > 0,
            forall|k: int| 0 <= k < i ==> is_tchar(#[trigger] method@[k]),
        decreases method.len() - i,
    {
        let b = method[i];
        let ok = b == 33 || (35 <= b && b <= 39) || b == 42 || b == 43 || b == 45 || b == 46 || (48
            <= b && b <= 57) || (65 <= b && b <= 90) || (94 <= b && b <= 96) || (97 <= b && b
            <= 122) || b == 124 || b == 126;
        if !ok {
            return false;
        }
        i = i + 1;
    }
    true
}

/// Post-process a fully buffered response: a success status (2xx) has its
/// body validated against the requested encoding, any other status is
/// reported with its body verbatim and encoding `Raw`. The body bytes pass
/// through unchanged either way.
pub fn finalize_http_response(
    status_code: u16,
    body: Vec<u8>,
    headers: Vec<NetHttpHeader>,
    encoding: StreamEncoding,
) -> (r: NetResponseHttp)
    ensures
        r.status_code == status_code,
        r.body@ == body@,
        r.headers == headers,
        r.encoding == (if 200 <= status_code < 300 {
            StreamBuffer::detected_encoding(encoding, body@)
        } else {
            StreamEncoding::Raw
        }),
{
    let is_success = 200 <= status_code && status_code < 300;
    if is_success {
        let (body, detected) = StreamBuffer::try_current_buffer(body, encoding);
        NetResponseHttp::new(status_code, body, headers, detected)
    } else {
        NetResponseHttp::new(status_code, body, headers, StreamEncoding::Raw)
    }
}

/// Everything decided about one HTTP request before its first network
/// attempt: where it is served, the headers it carries, and its body.
pub struct HttpSendPlan {
    /// Serve over the transport's own client, or an ephemeral one.
    pub route: HttpHostRoute,
    /// The host the request's URL names.
    pub host: String,
    /// The headers the request is sent with.
    pub headers: Vec<NetHttpHeader>,
    /// The request body; an absent body is empty.
    pub body: Vec<u8>,
}

/// Decide everything about one HTTP request that precedes its first network
/// attempt, in the order the checks run: the method must be a token
/// (`InvalidRequestParameters`), the URL must resolve under the HTTP schemes
/// (`InvalidUrl`), and the URL's host must be served under the alternate-host
/// policy (a host other than the configured one without `global_client` is
/// `InvalidRequestParameters`). Preparation succeeds on exactly the inputs
/// that pass all three checks. The headers are the request's own where it
/// names any, else the transport's defaults; a missing body is empty.
pub fn prepare_http_request(config: &NetConfig, request: &crate::request::NetRequestHttp) -> (r:
    Result<HttpSendPlan, NetResultStatus>)
    ensures
        r is Ok <==> (method_token_ok(vstd::utf8::encode_utf8(request.method@))
            && crate::address::resolves(
            request.url@,
            crate::address::http_scheme_tls(crate::address::url_scheme(request.url@)),
        ) && (crate::address::url_host(request.url@)->0 == config.addr.host@
            || config.http.global_client)),
        !method_token_ok(vstd::utf8::encode_utf8(request.method@)) ==> (r matches Err(e) && e
            == NetResultStatus::InvalidRequestParameters),
        method_token_ok(vstd::utf8::encode_utf8(request.method@)) && !crate::address::resolves(
            request.url@,
            crate::address::http_scheme_tls(crate::address::url_scheme(request.url@)),
        ) ==> (r matches Err(e) && e == NetResultStatus::InvalidUrl),
        method_token_ok(vstd::utf8::encode_utf8(request.method@)) && crate::address::resolves(
            request.url@,
            crate::address::http_scheme_tls(crate::address::url_scheme(request.url@)),
        ) && crate::address::url_host(request.url@)->0 != config.addr.host@
            && !config.http.global_client ==> (r matches Err(e) && e
            == NetResultStatus::InvalidRequestParameters),
        r matches Ok(plan) ==> {
            let host = crate::address::url_host(request.url@)->0;
            &&& method_token_ok(vstd::utf8::encode_utf8(request.method@))
            &&& crate::address::resolves(
                request.url@,
                crate::address::http_scheme_tls(crate::address::url_scheme(request.url@)),
            )
            &&& plan.host@ == host
            &&& (config.addr.host@ == host ==> plan.route == HttpHostRoute::Configured)
            &&& (config.addr.host@ != host ==> config.http.global_client && plan.route
                == HttpHostRoute::Ephemeral)
            &&& (match request.headers {
                Some(own) => plan.headers@.len() == own@.len() && (forall|k: int|
                    0 <= k < own@.len() ==> (#[trigger] plan.headers@[k]).key == own@[k].key
                        && plan.headers@[k].value == own@[k].value),
                None => plan.headers@ == config.http.headers@,
            })
            &&& (match request.body {
                Some(b) => plan.body@ == b@,
                None => plan.body@ == Seq::<u8>::empty(),
            })
        },
{
    let method_bytes = request.method.as_str().as_bytes_vec();
    if !validate_method(&method_bytes) {
        return Err(NetResultStatus::InvalidRequestParameters);
    }
    let addr = match crate::address::Utils::parse_http_url(request.url.as_str()) {
        Ok(a) => a,
        Err(e) => {
            return Err(e);
        },
    };
    let route = match route_for_host(config, &addr.host) {
        Ok(route) => route,
        Err(e) => {
            return Err(e);
        },
    };
    let headers = match &request.headers {
        Some(own) => crate::request::headers_from_refs(own),
        None => crate::config::duplicate_headers(&config.http.headers),
    };
    let body = match &request.body {
        Some(b) => crate::response::duplicate_bytes(b),
        None => Vec::new(),
    };
    Ok(HttpSendPlan { route, host: addr.host, headers, body })
}

/// The headers one attempt carries on the wire: an HTTP/1 request gets a
/// `Host` header taken from the URL's host appended after the chosen headers;
/// HTTP/2 carries the authority in its own framing and the headers pass
/// through unchanged.
pub fn headers_with_host(
    headers: &Vec<NetHttpHeader>,
    host: &String,
    protocol: &NetHttpProtocol,
) -> (r: Vec<NetHttpHeader>)
    ensures
        protocol is Http1 ==> {
            &&& r@.len() == headers@.len() + 1
            &&& r@.take(headers@.len() as int) == headers@
            &&& r@.last().key@ == "host"@
            &&& r@.last().value == host
        },
        protocol is Http2 ==> r@ == headers@,
{
    let mut r = crate::config::duplicate_headers(headers);
    match protocol {
        NetHttpProtocol::Http1 => {
            let ghost before = r@;
            r.push(NetHttpHeader::new(String::from_str("host"), host.clone()));
            proof {
                assert(r@.take(before.len() as int) =~= before);
            }
        },
        NetHttpProtocol::Http2 => {},
    }
    r
}

} // verus!
