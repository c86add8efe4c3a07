use net_sdk::address::Utils;
use net_sdk::status::NetResultStatus;

#[test]
fn http_url_https_default_port() {
    let a = Utils::parse_http_url("https://example.com/").unwrap();
    assert_eq!(a.host, "example.com");
    assert_eq!(a.port, 443);
    assert!(a.is_tls);
    assert_eq!(a.url, "https://example.com/");
}

#[test]
fn http_url_plain_default_port() {
    let a = Utils::parse_http_url("http://example.com/x?q=1").unwrap();
    assert_eq!(a.host, "example.com");
    assert_eq!(a.port, 80);
    assert!(!a.is_tls);
}

#[test]
fn http_url_explicit_port() {
    let a = Utils::parse_http_url("http://example.com:8080/x").unwrap();
    assert_eq!(a.port, 8080);
}

#[test]
fn http_url_rejects_other_schemes() {
    assert!(matches!(
        Utils::parse_http_url("ftp://example.com/"),
        Err(NetResultStatus::InvalidUrl)
    ));
    assert!(matches!(
        Utils::parse_http_url("ws://example.com/"),
        Err(NetResultStatus::InvalidUrl)
    ));
}

#[test]
fn http_url_rejects_garbage() {
    assert!(matches!(
        Utils::parse_http_url("not a url"),
        Err(NetResultStatus::InvalidUrl)
    ));
}

#[test]
fn ws_url_schemes_and_ports() {
    let wss = Utils::parse_ws_url("wss://echo/").unwrap();
    assert_eq!(wss.host, "echo");
    assert_eq!(wss.port, 443);
    assert!(wss.is_tls);

    let ws = Utils::parse_ws_url("ws://echo:9000/chat").unwrap();
    assert_eq!(ws.port, 9000);
    assert!(!ws.is_tls);

    assert!(matches!(
        Utils::parse_ws_url("https://echo/"),
        Err(NetResultStatus::InvalidUrl)
    ));
}

#[test]
fn tcp_url_schemes_and_ports() {
    let plain = Utils::parse_tcp_url("tcp://node.example:5555").unwrap();
    assert_eq!(plain.host, "node.example");
    assert_eq!(plain.port, 5555);
    assert!(!plain.is_tls);

    let tls = Utils::parse_tcp_url("tls://node.example").unwrap();
    assert_eq!(tls.port, 443);
    assert!(tls.is_tls);

    let combined = Utils::parse_tcp_url("tcp+tls://node.example:700").unwrap();
    assert_eq!(combined.port, 700);
    assert!(combined.is_tls);

    assert!(matches!(
        Utils::parse_tcp_url("tcp2://node.example"),
        Err(NetResultStatus::InvalidUrl)
    ));
}
