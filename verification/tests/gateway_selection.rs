//! Gateway selection: tunnel-interface exclusion, metric ordering, and
//! IPv4 literal validation.

use vnexus_core::{RouteCandidate, TunError, is_ipv4_str, select_gateway};

fn cand(next_hop: &str, alias: &str, metric: u32) -> RouteCandidate {
    RouteCandidate {
        next_hop: next_hop.to_string(),
        interface_alias: alias.to_string(),
        metric,
    }
}

#[test]
fn excludes_tunnel_like_interfaces_and_null_hops() {
    let candidates = vec![
        cand("10.0.0.1", "tun0", 1),
        cand("10.0.0.1", "TAP-Windows Adapter V9", 2),
        cand("10.0.0.1", "V-Nexus Adapter", 3),
        cand("0.0.0.0", "Ethernet", 4),
        cand("192.168.8.1", "Ethernet 2", 50),
    ];
    assert_eq!(select_gateway(&candidates).unwrap(), "192.168.8.1");
}

#[test]
fn exclusion_ignores_ascii_case() {
    let candidates = vec![
        cand("10.1.1.1", "Tunnel adapter", 1),
        cand("10.2.2.2", "my tap device", 2),
        cand("10.3.3.3", "v-nexus virtual", 3),
        cand("172.16.0.1", "Wi-Fi", 9),
    ];
    assert_eq!(select_gateway(&candidates).unwrap(), "172.16.0.1");
}

#[test]
fn picks_lowest_metric_earliest_on_tie() {
    let candidates = vec![
        cand("192.168.1.1", "Ethernet", 25),
        cand("192.168.2.1", "Wi-Fi", 5),
        cand("192.168.3.1", "Ethernet 3", 5),
    ];
    // 5 beats 25; the earlier of the two fives wins, as a stable sort
    // by metric would have it.
    assert_eq!(select_gateway(&candidates).unwrap(), "192.168.2.1");
}

#[test]
fn no_candidates_is_no_gateway() {
    let r = select_gateway(&vec![]);
    assert!(matches!(r, Err(TunError::NoGatewayFound)));
}

#[test]
fn all_excluded_is_no_gateway() {
    let candidates = vec![cand("0.0.0.0", "Ethernet", 1), cand("10.0.0.1", "tun0", 2)];
    let r = select_gateway(&candidates);
    assert!(matches!(r, Err(TunError::NoGatewayFound)));
}

#[test]
fn winner_must_be_an_ipv4_literal() {
    // The best candidate's next hop does not read as an IPv4 literal.
    let candidates = vec![cand("fe80::1", "Ethernet", 1), cand("192.168.1.1", "Wi-Fi", 9)];
    let r = select_gateway(&candidates);
    assert!(matches!(r, Err(TunError::NoGatewayFound)));
}

#[test]
fn ipv4_literal_accepts_dotted_quads() {
    assert!(is_ipv4_str("192.168.1.1"));
    assert!(is_ipv4_str("0.0.0.0"));
    assert!(is_ipv4_str("255.255.255.255"));
    assert!(is_ipv4_str("8.8.8.8"));
    assert!(is_ipv4_str("01.2.3.4"));
}

#[test]
fn ipv4_literal_rejects_everything_else() {
    assert!(!is_ipv4_str(""));
    assert!(!is_ipv4_str("192.168.1"));
    assert!(!is_ipv4_str("192.168.1.1.5"));
    assert!(!is_ipv4_str("256.1.1.1"));
    assert!(!is_ipv4_str("1.2.3.1000"));
    assert!(!is_ipv4_str("a.b.c.d"));
    assert!(!is_ipv4_str("1..2.3"));
    assert!(!is_ipv4_str("1.2.3."));
    assert!(!is_ipv4_str(".1.2.3"));
    assert!(!is_ipv4_str("gateway"));
    assert!(!is_ipv4_str("192,168,1,1"));
}

#[test]
fn no_gateway_error_message() {
    let e = TunError::NoGatewayFound;
    assert_eq!(e.message(), "Gateway detection returned no usable result.");
}
