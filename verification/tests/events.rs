use analytics_backend::controller::{
    default_heatmap_event_type, locate_event, locate_events, parse_funnel_steps, HeatmapQuery,
};
use analytics_backend::errors::AppError;
use analytics_backend::geoip::GeoLocation;
use analytics_backend::models::{event_timestamp, ClickEventRow, IncomingEvent, UserMetadataRow};
use analytics_backend::repository::FunnelProgress;
use analytics_backend::service::{build_user_report, funnel_results, plan_track, prepare_rows, TrackPlan};

fn event(user: &str) -> IncomingEvent {
    IncomingEvent {
        user_id: user.to_string(),
        session_id: "s1".to_string(),
        event_type: "click".to_string(),
        seq: 7,
        page_url: "/home".to_string(),
        timestamp: None,
        browser: None,
        os: Some("Linux".to_string()),
        device_type: None,
        viewport_width: Some(1280),
        viewport_height: None,
        ip: None,
        country: None,
        region: None,
        city: None,
        previous_page: Some("/".to_string()),
        current_page: Some("/home".to_string()),
        external_referrer: None,
        hash: None,
        section: None,
        duration_seconds: Some(12),
        funnel_step_name: None,
        funnel_step_number: None,
        funnel_description: None,
        element_tag: Some("a".to_string()),
        element_id: None,
        element_text: None,
        click_count: Some(3),
        x_pos: Some(10),
        y_pos: Some(20),
        x_percent_bits: Some(12.5f32.to_bits()),
        y_percent_bits: None,
        scroll_depth: Some(80),
    }
}

fn geo() -> GeoLocation {
    GeoLocation {
        ip: "203.0.113.5".to_string(),
        country: "India".to_string(),
        country_code: "IN".to_string(),
        region: "Tamil Nadu".to_string(),
        city: "Chennai".to_string(),
    }
}

#[test]
fn row_takes_timestamp_and_defaults() {
    let mut e = event("u1");
    e.timestamp = Some("2024-01-01T00:00:00Z".to_string());
    assert_eq!(event_timestamp(&e), Some(1_704_067_200_000_000_000));
    let row = ClickEventRow::from(e);
    assert_eq!(row.timestamp_nanos, 1_704_067_200_000_000_000);
    assert_eq!(row.user_id, "u1");
    assert_eq!(row.browser, "");
    assert_eq!(row.os, "Linux");
    assert_eq!(row.viewport_width, 1280);
    assert_eq!(row.viewport_height, 0);
    assert_eq!(row.ip, "");
    assert_eq!(row.x_percent_bits.map(f32::from_bits), Some(12.5));
    assert_eq!(row.click_count, Some(3));
    assert_eq!(row.scroll_depth, Some(80));
}

#[test]
fn row_with_offset_and_bad_timestamp() {
    let mut e = event("u2");
    e.timestamp = Some("2024-01-01T05:30:00+05:30".to_string());
    assert_eq!(event_timestamp(&e), Some(1_704_067_200_000_000_000));
    let mut bad = event("u3");
    bad.timestamp = Some("yesterday".to_string());
    assert_eq!(event_timestamp(&bad), None);
    let row = ClickEventRow::from(bad);
    assert!(row.timestamp_nanos > 1_704_067_200_000_000_000);
    let fixed = ClickEventRow::at_instant(event("u4"), 42);
    assert_eq!(fixed.timestamp_nanos, 42);
}

#[test]
fn rows_for_batch_keep_order() {
    let rows = prepare_rows(vec![event("a"), event("b"), event("c")]);
    let users: Vec<&str> = rows.iter().map(|r| r.user_id.as_str()).collect();
    assert_eq!(users, vec!["a", "b", "c"]);
    assert!(prepare_rows(Vec::new()).is_empty());
}

#[test]
fn client_location_wins_when_usable() {
    let mut e = event("u");
    e.country = Some("France".to_string());
    e.region = Some("unknown".to_string());
    e.city = Some("".to_string());
    e.ip = Some("198.51.100.8".to_string());
    locate_event(&mut e, "203.0.113.5", &geo());
    assert_eq!(e.country.as_deref(), Some("France"));
    assert_eq!(e.region.as_deref(), Some("Tamil Nadu"));
    assert_eq!(e.city.as_deref(), Some("Chennai"));
    assert_eq!(e.ip.as_deref(), Some("198.51.100.8"));
}

#[test]
fn private_client_ip_and_private_country_replaced() {
    let mut e = event("u");
    e.ip = Some("192.168.0.9".to_string());
    e.country = Some("Private".to_string());
    locate_event(&mut e, "203.0.113.5", &geo());
    assert_eq!(e.ip.as_deref(), Some("203.0.113.5"));
    assert_eq!(e.country.as_deref(), Some("India"));
}

#[test]
fn locating_twice_changes_nothing() {
    let mut events = vec![event("a"), event("b")];
    events[1].city = Some("Madurai".to_string());
    locate_events(&mut events, "10.0.0.1", &geo());
    let first: Vec<_> = events
        .iter()
        .map(|e| (e.ip.clone(), e.country.clone(), e.region.clone(), e.city.clone()))
        .collect();
    locate_events(&mut events, "10.0.0.1", &geo());
    let second: Vec<_> = events
        .iter()
        .map(|e| (e.ip.clone(), e.country.clone(), e.region.clone(), e.city.clone()))
        .collect();
    assert_eq!(first, second);
    assert_eq!(events[1].city.as_deref(), Some("Madurai"));
    assert_eq!(events[0].ip.as_deref(), Some("10.0.0.1"));
}

#[test]
fn funnel_steps_are_trimmed() {
    let steps = parse_funnel_steps(" signup , ,checkout,pay ").unwrap();
    assert_eq!(steps, vec!["signup", "checkout", "pay"]);
    match parse_funnel_steps(" , ") {
        Err(AppError::BadRequest(msg)) => assert_eq!(msg, "steps query param is required"),
        other => panic!("unexpected {other:?}"),
    }
    assert!(parse_funnel_steps("").is_err());
}

#[test]
fn heatmap_defaults_to_clicks() {
    assert_eq!(default_heatmap_event_type(), "click");
    let q = HeatmapQuery::new("/p".to_string(), None);
    assert_eq!(q.event_type, "click");
    let q = HeatmapQuery::new("/p".to_string(), Some("scroll".to_string()));
    assert_eq!(q.event_type, "scroll");
}

#[test]
fn funnel_progress_pairs_steps_with_counts() {
    let mut progress = FunnelProgress::new(vec!["a".to_string(), "b".to_string()]);
    assert_eq!(progress.next_step().map(|s| s.as_str()), Some("a"));
    progress.record(10);
    assert_eq!(progress.next_step().map(|s| s.as_str()), Some("b"));
    progress.record(4);
    assert_eq!(progress.next_step(), None);
    let counts = progress.into_counts();
    assert_eq!(counts, vec![("a".to_string(), 10), ("b".to_string(), 4)]);
    let results = funnel_results(counts);
    assert_eq!(results[1].step_name, "b");
    assert_eq!(results[1].sessions_reached, 4);
}

#[test]
fn user_report_defaults_to_unknown() {
    let report = build_user_report("u9".to_string(), None, Vec::new(), Vec::new(), None);
    assert_eq!(report.user_id, "u9");
    assert_eq!(report.country, "Unknown");
    assert_eq!(report.device_type, "Unknown");
    let meta = UserMetadataRow {
        country: "Spain".to_string(),
        region: "Madrid".to_string(),
        city: "Madrid".to_string(),
        browser: "Firefox".to_string(),
        os: "Linux".to_string(),
        device_type: "desktop".to_string(),
    };
    let report = build_user_report("u9".to_string(), Some(meta), Vec::new(), Vec::new(), None);
    assert_eq!(report.browser, "Firefox");
    assert_eq!(UserMetadataRow::unknown().os, "Unknown");
}

#[test]
fn plain_health_answer() {
    assert_eq!(analytics_backend::controller::health_check(), "ok");
}

#[test]
fn empty_batch_stores_nothing() {
    assert!(matches!(plan_track(Vec::new()), TrackPlan::Nothing));
    match plan_track(vec![event("a"), event("b")]) {
        TrackPlan::Insert(rows) => assert_eq!(rows.len(), 2),
        TrackPlan::Nothing => panic!("a non-empty batch is stored"),
    }
}
