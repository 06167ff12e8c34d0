//! Checks of the startup configuration: forward-proxy precedence, port
//! parsing, and the fatal paths that must keep the service from serving.

use openai_proxy::config::{
    choose_mode, resolve_config, resolve_port, select_forward_proxy, UpstreamMode, DEFAULT_PORT,
};

#[test]
fn forward_proxy_precedence_is_fixed() {
    let pick = |a: Option<&str>, b: Option<&str>, c: Option<&str>, d: Option<&str>| {
        select_forward_proxy(
            a.map(|s| s.as_bytes().to_vec()),
            b.map(|s| s.as_bytes().to_vec()),
            c.map(|s| s.as_bytes().to_vec()),
            d.map(|s| s.as_bytes().to_vec()),
        )
    };
    assert_eq!(
        pick(Some("http://a:1"), Some("http://b:1"), Some("http://c:1"), Some("http://d:1")),
        Some(b"http://a:1".to_vec())
    );
    assert_eq!(pick(None, Some("http://b:1"), None, Some("http://d:1")), Some(b"http://b:1".to_vec()));
    assert_eq!(pick(None, None, Some("http://c:1"), Some("http://d:1")), Some(b"http://c:1".to_vec()));
    assert_eq!(pick(None, None, None, Some("http://d:1")), Some(b"http://d:1".to_vec()));
    assert_eq!(pick(None, None, None, None), None);
}

#[test]
fn mode_follows_proxy_presence() {
    assert_eq!(choose_mode(&Some(b"http://p:3128".to_vec())), UpstreamMode::ViaForwardProxy);
    assert_eq!(choose_mode(&None), UpstreamMode::Direct);
}

#[test]
fn port_defaults_when_unset() {
    assert_eq!(resolve_port(None), Some(4000));
    assert_eq!(DEFAULT_PORT, 4000);
}

#[test]
fn port_parses_like_a_decimal_u16() {
    assert_eq!(resolve_port(Some(&b"8080".to_vec())), Some(8080));
    assert_eq!(resolve_port(Some(&b"+123".to_vec())), Some(123));
    assert_eq!(resolve_port(Some(&b"0".to_vec())), Some(0));
    assert_eq!(resolve_port(Some(&b"65535".to_vec())), Some(65535));
    assert_eq!(resolve_port(Some(&b"007".to_vec())), Some(7));
}

#[test]
fn malformed_port_is_startup_fatal() {
    assert_eq!(resolve_port(Some(&b"".to_vec())), None);
    assert_eq!(resolve_port(Some(&b"+".to_vec())), None);
    assert_eq!(resolve_port(Some(&b"abc".to_vec())), None);
    assert_eq!(resolve_port(Some(&b"80a".to_vec())), None);
    assert_eq!(resolve_port(Some(&b"-1".to_vec())), None);
    assert_eq!(resolve_port(Some(&b"65536".to_vec())), None);
    assert_eq!(resolve_port(Some(&b"99999999999999999999".to_vec())), None);
}

#[test]
fn config_resolves_or_refuses_as_a_whole() {
    let c = resolve_config(
        None,
        Some(b"http://proxy:3128".to_vec()),
        None,
        None,
        Some(&b"4321".to_vec()),
    )
    .unwrap();
    assert_eq!(c.port, 4321);
    assert_eq!(c.forward_proxy, Some(b"http://proxy:3128".to_vec()));

    let c = resolve_config(None, None, None, None, None).unwrap();
    assert_eq!(c.port, 4000);
    assert_eq!(c.forward_proxy, None);

    // A malformed port must keep the service from reaching a serving state.
    assert!(resolve_config(None, None, None, None, Some(&b"not-a-port".to_vec())).is_none());
}
