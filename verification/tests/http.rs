//! Which addresses outgoing connections may reach.

use astrid::http::{is_safe_ip, IpAddress, ResolveError, SafeDnsResolver};

fn v4(a: u8, b: u8, c: u8, d: u8) -> IpAddress {
    IpAddress::V4([a, b, c, d])
}

fn v6(s: [u16; 8]) -> IpAddress {
    IpAddress::V6(s)
}

/// `::ffff:a.b.c.d`
fn mapped(a: u8, b: u8, c: u8, d: u8) -> IpAddress {
    v6([0, 0, 0, 0, 0, 0xffff, (a as u16) << 8 | b as u16, (c as u16) << 8 | d as u16])
}

#[test]
fn test_is_safe_ip() {
    // Safe IPs
    assert!(is_safe_ip(v4(8, 8, 8, 8)));
    assert!(is_safe_ip(v4(1, 1, 1, 1)));
    assert!(is_safe_ip(v4(198, 51, 100, 1)));
    assert!(is_safe_ip(v6([0x2001, 0x4860, 0x4860, 0, 0, 0, 0, 0x8888])));

    // Loopback / Unspecified
    assert!(!is_safe_ip(v4(127, 0, 0, 1)));
    assert!(!is_safe_ip(v6([0, 0, 0, 0, 0, 0, 0, 1])));
    assert!(!is_safe_ip(v4(0, 0, 0, 0)));
    assert!(!is_safe_ip(v6([0; 8])));

    // 0.0.0.0/8 block
    assert!(!is_safe_ip(v4(0, 0, 0, 1)));
    assert!(!is_safe_ip(v4(0, 255, 255, 255)));

    // Private IPv4 (RFC 1918)
    assert!(!is_safe_ip(v4(10, 0, 0, 1)));
    assert!(!is_safe_ip(v4(10, 255, 255, 255)));
    assert!(!is_safe_ip(v4(172, 16, 0, 1)));
    assert!(!is_safe_ip(v4(172, 31, 255, 255)));
    assert!(!is_safe_ip(v4(192, 168, 0, 1)));
    assert!(!is_safe_ip(v4(192, 168, 255, 255)));

    // Link-local / CGNAT
    assert!(!is_safe_ip(v4(169, 254, 169, 254)));
    assert!(!is_safe_ip(v4(100, 64, 0, 1)));
    assert!(!is_safe_ip(v4(100, 127, 255, 255)));

    // Private IPv6 (Unique Local, Link Local)
    assert!(!is_safe_ip(v6([0xfc00, 0, 0, 0, 0, 0, 0, 1])));
    assert!(!is_safe_ip(v6([0xfd00, 0, 0, 0, 0, 0, 0, 1])));
    assert!(!is_safe_ip(v6([0xfe80, 0, 0, 0, 0, 0, 0, 1])));

    // IPv4-mapped IPv6 bypassing traditional checks
    assert!(!is_safe_ip(mapped(127, 0, 0, 1)));
    assert!(!is_safe_ip(mapped(10, 0, 0, 1)));
    assert!(!is_safe_ip(mapped(169, 254, 169, 254)));
}

#[test]
fn range_edges_and_multicast() {
    assert!(is_safe_ip(v4(172, 15, 255, 255)));
    assert!(is_safe_ip(v4(172, 32, 0, 0)));
    assert!(is_safe_ip(v4(100, 63, 255, 255)));
    assert!(is_safe_ip(v4(100, 128, 0, 0)));
    assert!(!is_safe_ip(v4(224, 0, 0, 1)));
    assert!(!is_safe_ip(v4(239, 255, 255, 255)));
    assert!(is_safe_ip(v4(223, 255, 255, 255)));
    assert!(!is_safe_ip(v4(255, 255, 255, 255)));
    assert!(!is_safe_ip(v6([0xff02, 0, 0, 0, 0, 0, 0, 1])));
    assert!(is_safe_ip(v6([0xfec0, 0, 0, 0, 0, 0, 0, 1])));
    // An IPv4-compatible address is judged as the IPv4 address it wraps.
    assert!(is_safe_ip(v6([0, 0, 0, 0, 0, 0, 0x0808, 0x0808])));
    assert!(is_safe_ip(mapped(8, 8, 8, 8)));
}

#[test]
fn resolver_keeps_only_safe_addresses() {
    let r = SafeDnsResolver;
    let got = r.safe_addresses(vec![v4(10, 0, 0, 1), v4(8, 8, 8, 8), mapped(127, 0, 0, 1), v4(1, 1, 1, 1)]);
    assert_eq!(got, Ok(vec![v4(8, 8, 8, 8), v4(1, 1, 1, 1)]));
}

#[test]
fn resolver_refuses_when_nothing_is_safe() {
    let r = SafeDnsResolver;
    assert_eq!(r.safe_addresses(vec![v4(127, 0, 0, 1), v4(192, 168, 1, 1)]), Err(ResolveError::Unauthorized));
    assert_eq!(r.safe_addresses(Vec::new()), Err(ResolveError::Unauthorized));
    assert_eq!(
        ResolveError::Unauthorized.message(),
        "DNS resolved to an unauthorized private or local IP address"
    );
}
