use analytics_backend::controllers::{
    batch_coordinates, extract_client_ip, fetch_events_response, health_check, record_events_response,
};
use analytics_backend::errors::AppError;
use analytics_backend::geoip::{
    after_primary_lookup, geo_from_ipapi, geo_from_ipinfo, geo_from_lookup, null_to_unknown, plan_geo,
    GeoLocation, GeoPlan, IpApiResponse, IpInfoResponse,
};
use analytics_backend::services::{
    enrich_events, enrich_events_in_batch, ip_api_url, is_private_ip, should_reverse_geocode,
};
use analytics_backend::tracker_models::{
    EventPayload, EventRow, GeoInfo, IpApiResponse as IpApiAnswer, ReverseGeoResponse,
};
use axum::http::{HeaderMap, HeaderValue};

#[test]
fn blank_lookup_fields_become_unknown() {
    assert_eq!(null_to_unknown(None), "Unknown");
    assert_eq!(null_to_unknown(Some("  ".to_string())), "Unknown");
    assert_eq!(null_to_unknown(Some(" Pune".to_string())), " Pune");
}

#[test]
fn ipinfo_answers() {
    let answer = IpInfoResponse {
        ip: None,
        city: Some("Chennai".to_string()),
        region: Some("".to_string()),
        country: Some("IN".to_string()),
        bogon: None,
    };
    let g = geo_from_ipinfo("203.0.113.5", answer).unwrap();
    assert_eq!(g.ip, "203.0.113.5");
    assert_eq!(g.country, "IN");
    assert_eq!(g.country_code, "IN");
    assert_eq!(g.region, "Unknown");
    assert_eq!(g.city, "Chennai");
    let bogon = IpInfoResponse { ip: None, city: None, region: None, country: None, bogon: Some(true) };
    match geo_from_ipinfo("10.0.0.1", bogon) {
        Err(AppError::Internal(m)) => assert_eq!(m, "bogon IP"),
        other => panic!("unexpected {other:?}"),
    }
}

#[test]
fn ipapi_answers() {
    let ok = IpApiResponse {
        status: "success".to_string(),
        message: None,
        query: Some("198.51.100.2".to_string()),
        country: Some("Japan".to_string()),
        country_code: Some("JP".to_string()),
        region_name: None,
        city: Some("Osaka".to_string()),
    };
    let g = geo_from_ipapi("x", ok).unwrap();
    assert_eq!((g.ip.as_str(), g.country_code.as_str(), g.region.as_str()), ("198.51.100.2", "JP", "Unknown"));
    let failed = IpApiResponse {
        status: "fail".to_string(),
        message: None,
        query: None,
        country: None,
        country_code: None,
        region_name: None,
        city: None,
    };
    match geo_from_ipapi("x", failed) {
        Err(AppError::Internal(m)) => assert_eq!(m, "ip-api lookup failed"),
        other => panic!("unexpected {other:?}"),
    }
}

#[test]
fn geo_plan_and_fallbacks() {
    match plan_geo("192.168.1.2") {
        GeoPlan::Resolved(g) => {
            assert_eq!(g.country, "Private");
            assert_eq!(g.country_code, "PRV");
            assert_eq!(g.ip, "192.168.1.2");
        }
        GeoPlan::Lookup => panic!("private address must not be looked up"),
    }
    assert!(matches!(plan_geo("8.8.8.8"), GeoPlan::Lookup));
    let g = geo_from_lookup("8.8.8.8", Err(AppError::Internal("down".to_string())));
    assert_eq!((g.country.as_str(), g.country_code.as_str(), g.city.as_str()), ("Unknown", "UNK", "Unknown"));
    let found = GeoLocation { country: "X".to_string(), ..GeoLocation::default() };
    assert_eq!(geo_from_lookup("8.8.8.8", Ok(found)).country, "X");
    assert!(after_primary_lookup(Err(AppError::Internal("e".to_string()))).is_none());
}

#[test]
fn local_addresses_by_text() {
    for ip in [
        "127.0.0.1", "127.0.0.2", "127.255.0.9", "::1", "0.0.0.0", "10.9.8.7", "172.16.0.1", "172.20.1.1",
        "172.29.1.1", "172.31.255.1", "192.168.4.4", "fe80::1",
    ] {
        assert!(is_private_ip(ip), "{ip}");
    }
    for ip in ["172.2.3.4", "172.200.1.1", "172.15.0.1", "172.32.0.1", "8.8.8.8", "11.0.0.1", "1270.0.0.1"] {
        assert!(!is_private_ip(ip), "{ip}");
    }
    assert_eq!(ip_api_url("10.0.0.1"), "http://ip-api.com/json");
    assert_eq!(ip_api_url("8.8.8.8"), "http://ip-api.com/json/8.8.8.8");
}

#[test]
fn reverse_geocode_city_falls_back_to_locality() {
    let g = GeoInfo::from_reverse_geo(ReverseGeoResponse {
        country_name: Some("India".to_string()),
        principal_subdivision: None,
        city: Some("".to_string()),
        locality: Some("Velachery".to_string()),
    });
    assert_eq!((g.country.as_str(), g.region.as_str(), g.city.as_str()), ("India", "Unknown", "Velachery"));
    let g = GeoInfo::from_reverse_geo(ReverseGeoResponse {
        country_name: None,
        principal_subdivision: None,
        city: None,
        locality: None,
    });
    assert_eq!(g.city, "Unknown");
}

#[test]
fn ip_api_status_decides() {
    let g = GeoInfo::from_ip_api(IpApiAnswer {
        status: "success".to_string(),
        country: Some("Kenya".to_string()),
        region_name: None,
        city: Some("Nairobi".to_string()),
    });
    assert_eq!((g.country.as_str(), g.region.as_str(), g.city.as_str()), ("Kenya", "Unknown", "Nairobi"));
    let g = GeoInfo::from_ip_api(IpApiAnswer {
        status: "fail".to_string(),
        country: Some("Kenya".to_string()),
        region_name: None,
        city: None,
    });
    assert_eq!(g.country, "Unknown");
    let d = GeoInfo::default();
    assert_eq!((d.country.as_str(), d.region.as_str(), d.city.as_str()), ("Unknown", "Unknown", "Unknown"));
}

fn payload(lat: Option<f64>) -> EventPayload {
    EventPayload {
        user_id: "u".to_string(),
        session_id: "s".to_string(),
        device: "mobile".to_string(),
        browser: "Chrome".to_string(),
        os: "Android".to_string(),
        country: "ignored".to_string(),
        region: String::new(),
        city: String::new(),
        latitude_bits: lat.map(f64::to_bits),
        longitude_bits: lat.map(|v| (v + 1.0).to_bits()),
        click_count: 2,
        user_journey: "/a>/b".to_string(),
        screen_width: 390,
        screen_height: 844,
    }
}

#[test]
fn batch_rows_take_the_batch_location() {
    let geo = GeoInfo { country: "India".to_string(), region: "Kerala".to_string(), city: "Kochi".to_string() };
    let rows: Vec<EventRow> = enrich_events(vec![payload(Some(9.93)), payload(None)], "1.2.3.4", &geo);
    assert_eq!(rows.len(), 2);
    assert_eq!(rows[0].country, "India");
    assert_eq!(rows[1].city, "Kochi");
    assert_eq!(f64::from_bits(rows[0].latitude_bits), 9.93);
    assert_eq!(f64::from_bits(rows[1].latitude_bits), 0.0);
    assert_eq!(rows[1].user_journey, "/a>/b");
    assert_ne!(rows[0].event_id, rows[1].event_id);
    let again = enrich_events(vec![payload(None)], "1.2.3.4", &geo);
    assert_ne!(again[0].event_id, rows[0].event_id);
}

#[test]
fn batch_rows_are_numbered() {
    let geo = GeoInfo::default();
    let rows = enrich_events_in_batch(vec![payload(None), payload(None), payload(None)], &geo, "b7");
    let ids: Vec<&str> = rows.iter().map(|r| r.event_id.as_str()).collect();
    assert_eq!(ids, vec!["b7-0", "b7-1", "b7-2"]);
    assert_eq!(rows[2].country, "Unknown");
}

#[test]
fn coordinates_of_first_event() {
    let events = vec![payload(Some(1.5)), payload(Some(2.5))];
    let (lat, lon) = batch_coordinates(&events);
    assert_eq!(lat.map(f64::from_bits), Some(1.5));
    assert_eq!(lon.map(f64::from_bits), Some(2.5));
    assert_eq!(batch_coordinates(&Vec::new()), (None, None));
    assert!(should_reverse_geocode(lat, lon));
    assert!(!should_reverse_geocode(lat, None));
}

#[test]
fn client_ip_from_proxy_headers() {
    let mut map = HeaderMap::new();
    assert_eq!(extract_client_ip(&map, "192.0.2.1"), "192.0.2.1");
    map.insert("x-real-ip", HeaderValue::from_static(" 198.51.100.4 "));
    assert_eq!(extract_client_ip(&map, "192.0.2.1"), "198.51.100.4");
    map.insert("x-forwarded-for", HeaderValue::from_static(" , 203.0.113.1"));
    assert_eq!(extract_client_ip(&map, "192.0.2.1"), "198.51.100.4");
    map.insert("x-forwarded-for", HeaderValue::from_static(" 10.1.1.1 , 203.0.113.1"));
    assert_eq!(extract_client_ip(&map, "192.0.2.1"), "10.1.1.1");
}

#[test]
fn api_answers() {
    let ok = record_events_response(Ok(()));
    assert!(ok.success);
    assert_eq!(ok.message, "Events recorded successfully");
    let failed = record_events_response(Err("timeout".to_string()));
    assert!(!failed.success);
    assert_eq!(failed.message, "Failed to record events: timeout");
    let fetched = fetch_events_response(Ok(Vec::new()));
    assert_eq!(fetched.message, "Fetched 0 events");
    let fetch_failed = fetch_events_response(Err("boom".to_string()));
    assert_eq!(fetch_failed.message, "Failed to fetch events: boom");
    assert!(fetch_failed.data.is_none());
    let h = health_check();
    assert!(h.success && h.message == "Analytics backend is running");
}

#[test]
fn errors_display_and_status() {
    let e = AppError::BadRequest("no steps".to_string());
    assert_eq!(e.to_display_string(), "Bad request: no steps");
    assert_eq!(e.status_code(), 400);
    assert_eq!(e.message(), "no steps");
    let e = AppError::ClickHouse("down".to_string());
    assert_eq!(e.to_display_string(), "ClickHouse error: down");
    assert_eq!(e.status_code(), 500);
    assert_eq!(AppError::Internal("x".to_string()).to_display_string(), "Internal error: x");
}
