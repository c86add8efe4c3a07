use net_sdk::address::Utils;
use net_sdk::config::{
    NetHttpConfig, NetHttpHeader, NetHttpProtocol, NetMode, NetProtocol, NetRequestConfig,
    NetTorClientConfig, TlsMode,
};
use net_sdk::decoder::StreamEncoding;
use net_sdk::status::NetResultStatus;

fn request_config(url: &str, protocol: NetProtocol) -> NetRequestConfig {
    NetRequestConfig {
        url: url.to_string(),
        mode: NetMode::Clearnet,
        protocol,
        http: NetHttpConfig {
            headers: vec![NetHttpHeader::new("accept".to_string(), "*/*".to_string())],
            protocol: Some(NetHttpProtocol::Http2),
            global_client: false,
        },
        tls_mode: TlsMode::Safe,
        tor_config: Some(NetTorClientConfig {
            cache_dir: "/tmp/cache".to_string(),
            state_dir: "/tmp/state".to_string(),
        }),
        encoding: StreamEncoding::Json,
    }
}

#[test]
fn to_config_resolves_and_carries_every_field() {
    let request = request_config("https://api.example:9443/v1", NetProtocol::Http);
    let config = request.to_config().unwrap();
    assert_eq!(config.addr.host, "api.example");
    assert_eq!(config.addr.port, 9443);
    assert!(config.addr.is_tls);
    assert!(matches!(config.mode, NetMode::Clearnet));
    assert!(matches!(config.protocol, NetProtocol::Http));
    assert!(matches!(config.tls_mode, TlsMode::Safe));
    assert!(matches!(config.encoding, StreamEncoding::Json));
    assert_eq!(config.http.headers.len(), 1);
    assert_eq!(config.http.headers[0].key, "accept");
    assert_eq!(config.tor_config.as_ref().unwrap().cache_dir, "/tmp/cache");
}

#[test]
fn to_config_uses_the_protocol_scheme_rule() {
    // A gRPC endpoint resolves with the HTTP schemes.
    assert!(request_config("https://grpc.example/", NetProtocol::Grpc).to_config().is_ok());
    // A WebSocket endpoint needs ws/wss.
    assert!(matches!(
        request_config("https://ws.example/", NetProtocol::WebSocket).to_config(),
        Err(NetResultStatus::InvalidUrl)
    ));
    assert!(request_config("wss://ws.example/", NetProtocol::WebSocket).to_config().is_ok());
    // A raw socket needs tcp/tls/tcp+tls.
    assert!(request_config("tcp://sock.example:9000", NetProtocol::Socket).to_config().is_ok());
}

#[test]
fn to_protocol_config_rejects_protocol_mismatch() {
    let request = request_config("https://api.example/", NetProtocol::Http);
    assert!(matches!(
        request.to_protocol_config(NetProtocol::Grpc),
        Err(NetResultStatus::InvalidConfigParameters)
    ));
    assert!(request.to_protocol_config(NetProtocol::Http).is_ok());
}

#[test]
fn change_addr_rebinds_the_address_only() {
    let request = request_config("https://api.example/", NetProtocol::Http);
    let config = request.to_config().unwrap();
    let new_addr = Utils::parse_http_url("https://other.example:444/").unwrap();
    let rebound = config.change_addr(new_addr);
    assert_eq!(rebound.addr.host, "other.example");
    assert_eq!(rebound.addr.port, 444);
    assert!(matches!(rebound.mode, NetMode::Clearnet));
    assert!(matches!(rebound.protocol, NetProtocol::Http));
    assert_eq!(rebound.http.headers.len(), 1);
    assert_eq!(rebound.tor_config.as_ref().unwrap().state_dir, "/tmp/state");
}

#[test]
fn mode_tags_decode_per_table() {
    assert!(matches!(NetMode::from_tag(1), Ok(NetMode::Tor)));
    assert!(matches!(NetMode::from_tag(2), Ok(NetMode::Clearnet)));
    assert!(matches!(NetMode::from_tag(3), Err(NetResultStatus::InvalidConfigParameters)));
}

#[test]
fn protocol_tags_decode_per_table() {
    assert!(matches!(NetProtocol::from_tag(1), Ok(NetProtocol::Http)));
    assert!(matches!(NetProtocol::from_tag(2), Ok(NetProtocol::Grpc)));
    assert!(matches!(NetProtocol::from_tag(3), Ok(NetProtocol::WebSocket)));
    assert!(matches!(NetProtocol::from_tag(4), Ok(NetProtocol::Socket)));
    assert!(matches!(NetProtocol::from_tag(0), Err(NetResultStatus::InvalidConfigParameters)));
}

#[test]
fn tls_tags_decode_per_table() {
    assert!(matches!(TlsMode::from_tag(1), Ok(TlsMode::Safe)));
    assert!(matches!(TlsMode::from_tag(2), Ok(TlsMode::Dangerous)));
    assert!(matches!(TlsMode::from_tag(9), Err(NetResultStatus::InvalidConfigParameters)));
}

#[test]
fn http_protocol_tags_decode_with_zero_as_auto() {
    assert!(matches!(NetHttpProtocol::option_from_tag(0), Ok(None)));
    assert!(matches!(NetHttpProtocol::option_from_tag(1), Ok(Some(NetHttpProtocol::Http1))));
    assert!(matches!(NetHttpProtocol::option_from_tag(2), Ok(Some(NetHttpProtocol::Http2))));
    assert!(matches!(
        NetHttpProtocol::option_from_tag(3),
        Err(NetResultStatus::InvalidConfigParameters)
    ));
}

#[test]
fn http_config_from_parts_checks_the_tag() {
    let headers = vec![NetHttpHeader::new("k".to_string(), "v".to_string())];
    let config = NetHttpConfig::from_parts(headers, 2, true).unwrap();
    assert!(matches!(config.protocol, Some(NetHttpProtocol::Http2)));
    assert!(config.global_client);
    assert!(matches!(
        NetHttpConfig::from_parts(Vec::new(), 7, false),
        Err(NetResultStatus::InvalidConfigParameters)
    ));
}

#[test]
fn request_config_from_parts_decodes_every_tag() {
    let http = NetHttpConfig { headers: Vec::new(), protocol: None, global_client: false };
    let config = NetRequestConfig::from_parts(
        "wss://h/".to_string(),
        2,
        3,
        1,
        2,
        http,
        None,
    )
    .unwrap();
    assert!(matches!(config.mode, NetMode::Clearnet));
    assert!(matches!(config.protocol, NetProtocol::WebSocket));
    assert!(matches!(config.tls_mode, TlsMode::Safe));
    assert!(matches!(config.encoding, StreamEncoding::Raw));

    let http = NetHttpConfig { headers: Vec::new(), protocol: None, global_client: false };
    assert!(matches!(
        NetRequestConfig::from_parts("wss://h/".to_string(), 2, 3, 1, 9, http, None),
        Err(NetResultStatus::InvalidConfigParameters)
    ));
}

#[test]
fn default_http_config_is_empty_and_auto() {
    let config = NetHttpConfig::default();
    assert!(config.headers.is_empty());
    assert!(config.protocol.is_none());
    assert!(!config.global_client);
}
