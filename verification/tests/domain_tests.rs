use wordpress_panel::domain::{
    clear_tunnel_host, install_target, install_wildcard_script, is_safe_hostname, parse_ipv4,
    resolves_to, set_tunnel_host, snippet_path, tunnel_host_marker, wildcard_active, wildcard_rule,
    ResolvedAddr, TunnelHostError, DEFAULT_IP,
};
use wordpress_panel::netcheck::Ipv4Addr;

#[test]
fn wildcard_rule_text() {
    assert_eq!(wildcard_rule("127.0.0.2"), "address=/test/127.0.0.2\n");
    assert_eq!(DEFAULT_IP, "127.0.0.1");
}

#[test]
fn snippet_and_target_paths() {
    assert_eq!(snippet_path("/home/u/.config/wordpress-panel"), "/home/u/.config/wordpress-panel/dnsmasq-panel.conf");
    assert_eq!(install_target(), "/etc/NetworkManager/dnsmasq.d/wordpress-panel.conf");
}

#[test]
fn install_script_text() {
    assert_eq!(
        install_wildcard_script("127.0.0.3"),
        "install -d /etc/NetworkManager/dnsmasq.d && printf '%s' 'address=/test/127.0.0.3\n' > '/etc/NetworkManager/dnsmasq.d/wordpress-panel.conf' && (systemctl reload NetworkManager || systemctl restart NetworkManager)"
    );
}

#[test]
fn wildcard_active_needs_loopback() {
    assert!(!wildcard_active(&vec![]));
    assert!(!wildcard_active(&vec![ResolvedAddr::V4(Ipv4Addr(10, 0, 0, 1))]));
    assert!(wildcard_active(&vec![ResolvedAddr::V4(Ipv4Addr(10, 0, 0, 1)), ResolvedAddr::V4(Ipv4Addr(127, 0, 0, 2))]));
    assert!(wildcard_active(&vec![ResolvedAddr::V6([0, 0, 0, 0, 0, 0, 0, 1])]));
    assert!(!wildcard_active(&vec![ResolvedAddr::V6([0, 0, 0, 0, 0, 0, 0, 2])]));
}

#[test]
fn resolves_to_exact_text() {
    let r = vec!["127.0.0.2".to_string(), "::1".to_string()];
    assert!(resolves_to(&r, "127.0.0.2"));
    assert!(!resolves_to(&r, "127.0.0.1"));
}

#[test]
fn marker_and_hostname_rules() {
    assert_eq!(tunnel_host_marker("abc"), "# panel-tunnel:abc");
    assert!(is_safe_hostname("random-word-1234.trycloudflare.com"));
    assert!(!is_safe_hostname(""));
    assert!(!is_safe_hostname("a b"));
    assert!(!is_safe_hostname("a;rm"));
    assert!(!is_safe_hostname(&"a".repeat(256)));
    assert!(is_safe_hostname(&"a".repeat(255)));
}

#[test]
fn ipv4_parsing_like_std() {
    assert_eq!(parse_ipv4("127.0.0.1"), Some(Ipv4Addr(127, 0, 0, 1)));
    assert_eq!(parse_ipv4("255.255.255.255"), Some(Ipv4Addr(255, 255, 255, 255)));
    assert_eq!(parse_ipv4("256.0.0.1"), None);
    assert_eq!(parse_ipv4("01.0.0.1"), None);
    assert_eq!(parse_ipv4("1.2.3"), None);
    assert_eq!(parse_ipv4("1.2.3.4.5"), None);
    assert_eq!(parse_ipv4("1..3.4"), None);
    assert_eq!(parse_ipv4("+1.2.3.4"), None);
    assert_eq!(parse_ipv4("10.20.30.40"), Some(Ipv4Addr(10, 20, 30, 40)));
    assert_eq!(parse_ipv4("0.0.0.0"), Some(Ipv4Addr(0, 0, 0, 0)));
    assert_eq!(parse_ipv4("1.2.3.04"), None);
    assert_eq!(parse_ipv4("a.b.c.d"), None);
}

#[test]
fn tunnel_host_script_and_errors() {
    let ok = set_tunnel_host("p1", "x.trycloudflare.com", "104.16.1.2").unwrap();
    assert_eq!(
        ok,
        "grep -vF '# panel-tunnel:p1' /etc/hosts > /etc/hosts.tmp || true; echo '104.16.1.2 x.trycloudflare.com # panel-tunnel:p1' >> /etc/hosts.tmp && install -m 644 /etc/hosts.tmp /etc/hosts && rm -f /etc/hosts.tmp"
    );
    let e = set_tunnel_host("p1", "bad host", "1.2.3.4").unwrap_err();
    assert_eq!(e, TunnelHostError::UnsafeHostname("bad host".into()));
    assert_eq!(e.message(), "hostname con caracteres inesperados: bad host");
    let e = set_tunnel_host("p1", "ok.com", "1.2.3").unwrap_err();
    assert_eq!(e.message(), "IP inválida: 1.2.3");
    assert_eq!(
        clear_tunnel_host("p1"),
        "grep -vF '# panel-tunnel:p1' /etc/hosts > /etc/hosts.tmp || true; install -m 644 /etc/hosts.tmp /etc/hosts && rm -f /etc/hosts.tmp"
    );
}
