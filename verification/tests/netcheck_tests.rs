use wordpress_panel::netcheck::{listen_addr, parse_v4, pick_loopback_ip, port_status, Ipv4Addr, PortStatus};

#[test]
fn v4_little_endian() {
    assert_eq!(parse_v4("0100007F"), Some(Ipv4Addr(127, 0, 0, 1)));
    assert_eq!(parse_v4("00000000"), Some(Ipv4Addr(0, 0, 0, 0)));
    assert_eq!(parse_v4("0200007F"), Some(Ipv4Addr(127, 0, 0, 2)));
}

#[test]
fn listen_addr_matches_port_and_state() {
    let line = "   0: 0100007F:0050 00000000:0000 0A 00000000:00000000 00:0 0 0 12345 1";
    assert_eq!(listen_addr(line, 80), Some("0100007F"));
    assert_eq!(listen_addr(line, 443), None);
    let estab = line.replacen(" 0A ", " 01 ", 1);
    assert_eq!(listen_addr(&estab, 80), None);
}

#[test]
fn free_for_semantics() {
    let lo1 = Ipv4Addr(127, 0, 0, 1);
    let lo2 = Ipv4Addr(127, 0, 0, 2);
    assert!(PortStatus::Free.free_for(lo1));
    assert!(!PortStatus::Wildcard.free_for(lo2));
    let s = PortStatus::Specific(vec![lo1]);
    assert!(!s.free_for(lo1));
    assert!(s.free_for(lo2));
}

#[test]
fn port_status_sorts_and_dedups() {
    let st = port_status(false, vec![Ipv4Addr(127, 0, 0, 3), Ipv4Addr(127, 0, 0, 1), Ipv4Addr(127, 0, 0, 3)]);
    match st {
        PortStatus::Specific(ips) => assert_eq!(ips, vec![Ipv4Addr(127, 0, 0, 1), Ipv4Addr(127, 0, 0, 3)]),
        _ => panic!("expected specific"),
    }
    assert!(matches!(port_status(true, vec![Ipv4Addr(127, 0, 0, 1)]), PortStatus::Wildcard));
    assert!(matches!(port_status(false, vec![]), PortStatus::Free));
}

#[test]
fn pick_loopback_skips_busy_addresses() {
    let http = PortStatus::Specific(vec![Ipv4Addr(127, 0, 0, 2)]);
    let https = PortStatus::Specific(vec![Ipv4Addr(127, 0, 0, 3)]);
    assert_eq!(pick_loopback_ip(&http, &https), Some(Ipv4Addr(127, 0, 0, 4)));
    assert_eq!(pick_loopback_ip(&PortStatus::Free, &PortStatus::Wildcard), None);
    assert_eq!(pick_loopback_ip(&PortStatus::Free, &PortStatus::Free), Some(Ipv4Addr(127, 0, 0, 2)));
}
