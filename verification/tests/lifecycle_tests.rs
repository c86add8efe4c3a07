use net_sdk::config::{NetHttpProtocol, NetMode, NetProtocol, NetTorClientConfig, TlsMode};
use net_sdk::request::NetRequestKind;
use net_sdk::response::NetResponseKind;
use net_sdk::status::NetResultStatus;
use net_sdk::stream::{StreamStack, StreamUtils};
use net_sdk::tor::{update_config_response, TorLifecycle};

fn init_tor_request() -> NetRequestKind {
    NetRequestKind::InitTor(NetTorClientConfig {
        cache_dir: "/tmp/cache".to_string(),
        state_dir: "/tmp/state".to_string(),
    })
}

#[test]
fn tor_connection_requires_bootstrap_first() {
    // A Tor-routed connection before InitTor fails with
    // TorClientNotInitialized; after a successful bootstrap it is allowed.
    let mut tor = TorLifecycle::Uninitialized;
    assert!(matches!(
        tor.connect_allowed(),
        Err(NetResultStatus::TorClientNotInitialized)
    ));
    tor.init_step(true, true).unwrap();
    assert!(tor.connect_allowed().is_ok());
}

#[test]
fn tor_init_reports_config_and_bootstrap_failures() {
    let mut tor = TorLifecycle::Uninitialized;
    assert!(matches!(tor.init_step(false, false), Err(NetResultStatus::InvalidTorConfig)));
    assert!(matches!(
        tor.init_step(true, false),
        Err(NetResultStatus::TorInitializationFailed)
    ));
    assert!(!StreamUtils::tor_inited(&tor));
    assert!(tor.init_step(true, true).is_ok());
    assert!(StreamUtils::tor_inited(&tor));
}

#[test]
fn tor_init_is_idempotent() {
    let mut tor = TorLifecycle::Uninitialized;
    tor.init_step(true, true).unwrap();
    // A second init succeeds without another bootstrap, whatever its inputs.
    assert!(tor.init_step(false, false).is_ok());
    assert!(matches!(tor, TorLifecycle::Bootstrapped));
}

#[test]
fn update_config_serves_the_tor_operations() {
    let mut tor = TorLifecycle::Uninitialized;

    let query = update_config_response(&mut tor, &NetRequestKind::TorInited, false, false).unwrap();
    assert!(matches!(query, NetResponseKind::TorInited(false)));

    let failed = update_config_response(&mut tor, &init_tor_request(), true, false).unwrap();
    assert!(matches!(
        failed,
        NetResponseKind::ResponseError(NetResultStatus::TorInitializationFailed)
    ));

    let inited = update_config_response(&mut tor, &init_tor_request(), true, true).unwrap();
    assert!(matches!(inited, NetResponseKind::TorInited(true)));

    let query = update_config_response(&mut tor, &NetRequestKind::TorInited, false, false).unwrap();
    assert!(matches!(query, NetResponseKind::TorInited(true)));

    assert!(matches!(
        update_config_response(&mut tor, &NetRequestKind::TorInited, false, false),
        Ok(_)
    ));
    assert!(matches!(
        update_config_response(
            &mut tor,
            &NetRequestKind::Socket(net_sdk::request::NetRequestSocket::Subscribe),
            false,
            false,
        ),
        Err(NetResultStatus::InvalidRequestParameters)
    ));
}

#[test]
fn stream_stack_quadrants() {
    assert!(matches!(StreamUtils::stream_stack(false, &NetMode::Clearnet), StreamStack::Tcp));
    assert!(matches!(StreamUtils::stream_stack(false, &NetMode::Tor), StreamStack::Tor));
    assert!(matches!(StreamUtils::stream_stack(true, &NetMode::Clearnet), StreamStack::TlsTcp));
    assert!(matches!(StreamUtils::stream_stack(true, &NetMode::Tor), StreamStack::TlsTor));
}

#[test]
fn alpn_lists_by_protocol_and_preference() {
    let h2 = StreamUtils::alpn_protocols(&NetProtocol::Http, &Some(NetHttpProtocol::Http2));
    assert_eq!(h2, vec![b"h2".to_vec()]);
    let h1 = StreamUtils::alpn_protocols(&NetProtocol::Grpc, &Some(NetHttpProtocol::Http1));
    assert_eq!(h1, vec![b"http/1.1".to_vec()]);
    let auto = StreamUtils::alpn_protocols(&NetProtocol::Http, &None);
    assert_eq!(auto, vec![b"h2".to_vec(), b"http/1.1".to_vec()]);
    let ws = StreamUtils::alpn_protocols(&NetProtocol::WebSocket, &None);
    assert!(ws.is_empty());
    let raw = StreamUtils::alpn_protocols(&NetProtocol::Socket, &Some(NetHttpProtocol::Http2));
    assert!(raw.is_empty());
}

#[test]
fn dangerous_tls_swallows_verification_errors() {
    assert!(StreamUtils::certificate_accepted(&TlsMode::Safe, true));
    assert!(!StreamUtils::certificate_accepted(&TlsMode::Safe, false));
    assert!(StreamUtils::certificate_accepted(&TlsMode::Dangerous, false));
    assert!(StreamUtils::certificate_accepted(&TlsMode::Dangerous, true));
}

#[test]
fn tofu_verifier_accepts_everything() {
    let tofu = net_sdk::stream::TofuVerifier;
    assert!(tofu.certificate_accepted(true));
    assert!(tofu.certificate_accepted(false));
}
