use analytics_backend::config::{env_or, parse_u16, server_port, trust_proxy_headers, ClickHouseConfig};
use analytics_backend::text::{decimal_string, split_str, str_eq_ignore_ascii_case, trim_str};

#[test]
fn clickhouse_settings_defaults() {
    let c = ClickHouseConfig::from_env_values(None, None, None, None);
    assert_eq!(c.url, "http://localhost:8123");
    assert_eq!(c.database, "analytics");
    assert_eq!(c.user, "default");
    assert_eq!(c.password_to_use(), None);
    let c = ClickHouseConfig::from_env_values(Some("http://ch:8123".to_string()), None, None, Some("pw".to_string()));
    assert_eq!(c.url, "http://ch:8123");
    assert_eq!(c.password_to_use().map(|s| s.as_str()), Some("pw"));
}

#[test]
fn trust_setting() {
    assert!(trust_proxy_headers(Some("true".to_string())));
    assert!(trust_proxy_headers(Some("1".to_string())));
    assert!(!trust_proxy_headers(Some("TRUE".to_string())));
    assert!(!trust_proxy_headers(None));
}

#[test]
fn port_parsing_matches_std() {
    for text in ["8080", "+80", "0", "65535", "65536", "", "+", "-1", " 80", "8o", "000123", "99999999999"] {
        assert_eq!(parse_u16(text), text.parse::<u16>().ok(), "{text:?}");
    }
    assert_eq!(server_port(Some("9000".to_string())), 9000);
    assert_eq!(server_port(Some("abc".to_string())), 8080);
    assert_eq!(server_port(None), 8080);
    assert_eq!(env_or(None, "0.0.0.0"), "0.0.0.0");
    assert_eq!(env_or(Some("h".to_string()), "0.0.0.0"), "h");
}

#[test]
fn text_helpers_match_std() {
    for text in ["", "  ", " a b ", "\u{2003}x\u{85}", "\t\nq\r", "\u{200b}z"] {
        assert_eq!(trim_str(text), text.trim(), "{text:?}");
    }
    for text in ["", ",", "a,b", ",a,,b,", "no commas"] {
        let ours: Vec<&str> = split_str(text, ',');
        let std: Vec<&str> = text.split(',').collect();
        assert_eq!(ours, std, "{text:?}");
    }
    assert!(str_eq_ignore_ascii_case("UnKnOwN", "unknown"));
    assert!(!str_eq_ignore_ascii_case("unknow", "unknown"));
    for n in [0u64, 7, 10, 1234567890, u64::MAX] {
        assert_eq!(decimal_string(n), n.to_string());
    }
}

#[test]
fn trimming_twice_is_trimming_once() {
    for text in [" \u{a0}a \u{2028}", "b", "\t\t", " c d "] {
        let once = trim_str(text);
        assert_eq!(trim_str(once), once);
    }
}
