use analytics_backend::ip_resolver::{
    extract_from_header, is_private_or_loopback, is_private_or_loopback_parsed, is_valid_ip,
    normalize_ip, resolve_client_ip,
};
use axum::http::{HeaderMap, HeaderValue};

#[test]
fn normalizes_ipv6_loopback() {
    assert_eq!(normalize_ip("::1"), "127.0.0.1");
}

#[test]
fn detects_private_ip() {
    assert!(is_private_or_loopback("127.0.0.1"));
    assert!(is_private_or_loopback("192.168.1.10"));
    assert!(!is_private_or_loopback("8.8.8.8"));
}

#[test]
fn extracts_first_public_ip() {
    let header = "10.0.0.1, 203.0.113.45, 172.16.0.1";
    assert_eq!(extract_from_header(header), Some("203.0.113.45".to_string()));
}

#[test]
fn normalize_strips_mapped_prefix_and_space() {
    assert_eq!(normalize_ip("  ::ffff:198.51.100.7 "), "198.51.100.7");
    assert_eq!(normalize_ip("0:0:0:0:0:0:0:1"), "127.0.0.1");
    assert_eq!(normalize_ip("\u{3000}8.8.4.4\t"), "8.8.4.4");
    assert_eq!(normalize_ip("2001:db8::1"), "2001:db8::1");
}

#[test]
fn private_ranges_of_both_families() {
    for ip in [
        "10.1.2.3",
        "172.16.0.1",
        "172.31.255.255",
        "169.254.1.1",
        "0.0.0.0",
        "255.255.255.255",
        "::1",
        "fd12::1",
        "fc00::",
        "not an address",
        "",
    ] {
        assert!(is_private_or_loopback(ip), "{ip} should count as private");
    }
    for ip in ["172.32.0.1", "172.15.0.1", "1.1.1.1", "2001:db8::1", "::ffff:10.0.0.1", "::2"] {
        assert!(!is_private_or_loopback(ip), "{ip} should count as public");
    }
}

#[test]
fn parsed_octets_are_classified() {
    assert!(is_private_or_loopback_parsed(&vec![192, 168, 0, 1]));
    assert!(!is_private_or_loopback_parsed(&vec![93, 184, 216, 34]));
    let mut loopback6 = vec![0u8; 16];
    loopback6[15] = 1;
    assert!(is_private_or_loopback_parsed(&loopback6));
    let mut public6 = vec![0u8; 16];
    public6[0] = 0x20;
    public6[1] = 0x01;
    assert!(!is_private_or_loopback_parsed(&public6));
}

#[test]
fn validity_of_addresses() {
    assert!(is_valid_ip("8.8.8.8"));
    assert!(is_valid_ip("::1"));
    assert!(!is_valid_ip("8.8.8"));
    assert!(!is_valid_ip(" 8.8.8.8"));
    assert!(!is_valid_ip("unknown"));
}

#[test]
fn header_unknown_and_private_only() {
    assert_eq!(extract_from_header("  UnKnown "), None);
    assert_eq!(extract_from_header("10.0.0.1, 192.168.0.2"), None);
    assert_eq!(extract_from_header(""), None);
    assert_eq!(extract_from_header(" , ,::ffff:203.0.113.9"), Some("203.0.113.9".to_string()));
    assert_eq!(extract_from_header("garbage, 8.8.8.8"), Some("8.8.8.8".to_string()));
}

fn headers(pairs: &[(&'static str, &'static str)]) -> HeaderMap {
    let mut map = HeaderMap::new();
    for (name, value) in pairs {
        map.append(*name, HeaderValue::from_static(value));
    }
    map
}

#[test]
fn resolves_from_trusted_headers_in_order() {
    let map = headers(&[("x-real-ip", "198.51.100.1"), ("x-forwarded-for", "10.0.0.1, 203.0.113.5")]);
    assert_eq!(resolve_client_ip(&map, Some("192.168.1.1".to_string()), true), "203.0.113.5");
    let map = headers(&[("x-forwarded-for", "10.0.0.1"), ("cf-connecting-ip", "198.51.100.1")]);
    assert_eq!(resolve_client_ip(&map, None, true), "198.51.100.1");
}

#[test]
fn untrusted_headers_are_ignored() {
    let map = headers(&[("x-forwarded-for", "203.0.113.5")]);
    assert_eq!(resolve_client_ip(&map, Some("::1".to_string()), false), "127.0.0.1");
    assert_eq!(resolve_client_ip(&map, None, false), "127.0.0.1");
    assert_eq!(
        resolve_client_ip(&map, Some("::ffff:192.0.2.4".to_string()), false),
        "192.0.2.4"
    );
}

#[test]
fn only_first_value_of_a_header_counts() {
    let map = headers(&[("x-forwarded-for", "10.0.0.1"), ("x-forwarded-for", "203.0.113.5")]);
    assert_eq!(resolve_client_ip(&map, Some("192.0.2.1".to_string()), true), "192.0.2.1");
}

#[test]
fn non_text_header_value_is_skipped() {
    let mut map = HeaderMap::new();
    map.insert("x-forwarded-for", HeaderValue::from_bytes(b"203.0.113.5\xff").unwrap());
    map.insert("x-client-ip", HeaderValue::from_static("198.51.100.3"));
    assert_eq!(resolve_client_ip(&map, None, true), "198.51.100.3");
}
