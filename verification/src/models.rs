//! Tracker events, the rows stored for them, and the rows of the analytics
//! reports.
//!
//! Floating-point fields (click positions in percent) are held as their IEEE
//! bit patterns (`f32::to_bits`), and instants as nanoseconds since the Unix
//! epoch; they are carried through unchanged.

use vstd::prelude::*;

verus! {

/// One event sent by the tracker script.
#[derive(Debug)]
pub struct IncomingEvent {
    pub user_id: String,
    pub session_id: String,
    pub event_type: String,
    pub seq: u32,
    pub page_url: String,
    pub timestamp: Option<String>,
    pub browser: Option<String>,
    pub os: Option<String>,
    pub device_type: Option<String>,
    pub viewport_width: Option<u16>,
    pub viewport_height: Option<u16>,
    pub ip: Option<String>,
    pub country: Option<String>,
    pub region: Option<String>,
    pub city: Option<String>,
    pub previous_page: Option<String>,
    pub current_page: Option<String>,
    pub external_referrer: Option<String>,
    pub hash: Option<String>,
    pub section: Option<String>,
    pub duration_seconds: Option<u32>,
    pub funnel_step_name: Option<String>,
    pub funnel_step_number: Option<u16>,
    pub funnel_description: Option<String>,
    pub element_tag: Option<String>,
    pub element_id: Option<String>,
    pub element_text: Option<String>,
    pub click_count: Option<u32>,
    pub x_pos: Option<u16>,
    pub y_pos: Option<u16>,
    pub x_percent_bits: Option<u32>,
    pub y_percent_bits: Option<u32>,
    pub scroll_depth: Option<u8>,
}

/// A batch of tracker events.
#[derive(Debug)]
pub struct EventBatch {
    pub events: Vec<IncomingEvent>,
}

/// The row stored for one tracker event.
#[derive(Debug)]
pub struct ClickEventRow {
    pub user_id: String,
    pub session_id: String,
    pub seq: u32,
    pub event_type: String,
    pub timestamp_nanos: i128,
    pub page_url: String,
    pub browser: String,
    pub os: String,
    pub device_type: String,
    pub viewport_width: u16,
    pub viewport_height: u16,
    pub ip: String,
    pub country: String,
    pub region: String,
    pub city: String,
    pub previous_page: Option<String>,
    pub current_page: Option<String>,
    pub external_referrer: Option<String>,
    pub hash: Option<String>,
    pub section: Option<String>,
    pub duration_seconds: Option<u32>,
    pub funnel_step_name: Option<String>,
    pub funnel_step_number: Option<u16>,
    pub funnel_description: Option<String>,
    pub element_tag: Option<String>,
    pub element_id: Option<String>,
    pub element_text: Option<String>,
    pub click_count: Option<u32>,
    pub x_pos: Option<u16>,
    pub y_pos: Option<u16>,
    pub x_percent_bits: Option<u32>,
    pub y_percent_bits: Option<u32>,
    pub scroll_depth: Option<u8>,
}

/// One page view of a user's navigation.
#[derive(Debug)]
pub struct NavigationStep {
    pub session_id: String,
    pub seq: u32,
    pub previous_page: Option<String>,
    pub current_page: Option<String>,
    pub external_referrer: Option<String>,
    pub timestamp_nanos: i128,
}

#[derive(Debug)]
pub struct NavigationStats {
    pub previous_page: Option<String>,
    pub current_page: Option<String>,
    pub transitions: u64,
}

#[derive(Debug)]
pub struct ClickLog {
    pub page_url: String,
    pub element_id: Option<String>,
    pub element_text: Option<String>,
    pub clicks: u64,
}

#[derive(Debug)]
pub struct ClickCountResult {
    pub user_id: String,
    pub session_id: String,
    pub total_clicks: u64,
}

/// How many sessions reached one step of a funnel.
#[derive(Debug)]
pub struct FunnelStepResult {
    pub step_name: String,
    pub sessions_reached: u64,
}

#[derive(Debug)]
pub struct LocationStats {
    pub location: String,
    pub visitors: u64,
}

/// A user's location and device, from their latest located event.
#[derive(Debug)]
pub struct UserMetadataRow {
    pub country: String,
    pub region: String,
    pub city: String,
    pub browser: String,
    pub os: String,
    pub device_type: String,
}

#[derive(Debug)]
pub struct NavigationFlowStep {
    pub session_id: String,
    pub seq: u32,
    pub event_type: String,
    pub previous_page: Option<String>,
    pub current_page: Option<String>,
    pub hash: Option<String>,
    pub section: Option<String>,
    pub timestamp_nanos: i128,
}

#[derive(Debug)]
pub struct UserClickDetail {
    pub previous_page: Option<String>,
    pub current_page: Option<String>,
    pub viewport_width: u16,
    pub viewport_height: u16,
    pub element_tag: Option<String>,
    pub element_id: Option<String>,
    pub element_text: Option<String>,
    pub x_pos: Option<u16>,
    pub y_pos: Option<u16>,
    pub x_percent_bits: Option<u32>,
    pub y_percent_bits: Option<u32>,
    pub timestamp_nanos: i128,
}

#[derive(Debug)]
pub struct ExitWayDetail {
    pub exit_type: Option<String>,
    pub target_url: Option<String>,
    pub timestamp_nanos: i128,
}

/// Everything recorded about one user.
#[derive(Debug)]
pub struct UserProfileReport {
    pub user_id: String,
    pub country: String,
    pub region: String,
    pub city: String,
    pub browser: String,
    pub os: String,
    pub device_type: String,
    pub navigation_flow: Vec<NavigationFlowStep>,
    pub clicks: Vec<UserClickDetail>,
    pub exit_way: Option<ExitWayDetail>,
}

/// The instant that `OffsetDateTime::parse(text, &Rfc3339)` reads from `text`,
/// in nanoseconds since the Unix epoch; `None` where the text is no RFC 3339
/// date-time.
pub uninterp spec fn rfc3339_unix_nanos(text: Seq<char>) -> Option<int>;

/// `OffsetDateTime::parse` with the RFC 3339 format, the instant taken as
/// nanoseconds since the Unix epoch.
#[verifier::external_body]
fn parse_rfc3339_nanos(text: &str) -> (r: Option<i128>)
    ensures
        match r {
            Some(n) => rfc3339_unix_nanos(text@) == Some(n as int),
            None => rfc3339_unix_nanos(text@) is None,
        },
{
    match time::OffsetDateTime::parse(text, &time::format_description::well_known::Rfc3339) {
        Ok(t) => Some(t.unix_timestamp_nanos()),
        Err(_) => None,
    }
}

/// `OffsetDateTime::now_utc`, as nanoseconds since the Unix epoch. It reads
/// the system clock, so nothing is stated of its value.
#[verifier::external_body]
fn now_utc_nanos() -> i128 {
    time::OffsetDateTime::now_utc().unix_timestamp_nanos()
}

/// The text of an optional string, empty where it is absent.
pub open spec fn text_or_empty(value: Option<String>) -> Seq<char> {
    match value {
        Some(s) => s@,
        None => Seq::empty(),
    }
}

/// A `u16` or, where it is absent, 0.
pub open spec fn u16_or_zero(value: Option<u16>) -> u16 {
    match value {
        Some(v) => v,
        None => 0,
    }
}

/// The instant an event carries, where it carries a valid RFC 3339 timestamp.
pub open spec fn event_instant(e: IncomingEvent) -> Option<int> {
    match e.timestamp {
        Some(t) => rfc3339_unix_nanos(t@),
        None => None,
    }
}

/// `row` is the row stored for `e`: its fields carried over, the device and
/// location fields defaulted to empty or zero where `e` lacks them.
pub open spec fn row_carries_event(row: ClickEventRow, e: IncomingEvent) -> bool {
    &&& row.user_id == e.user_id
    &&& row.session_id == e.session_id
    &&& row.seq == e.seq
    &&& row.event_type == e.event_type
    &&& row.page_url == e.page_url
    &&& row.browser@ == text_or_empty(e.browser)
    &&& row.os@ == text_or_empty(e.os)
    &&& row.device_type@ == text_or_empty(e.device_type)
    &&& row.viewport_width == u16_or_zero(e.viewport_width)
    &&& row.viewport_height == u16_or_zero(e.viewport_height)
    &&& row.ip@ == text_or_empty(e.ip)
    &&& row.country@ == text_or_empty(e.country)
    &&& row.region@ == text_or_empty(e.region)
    &&& row.city@ == text_or_empty(e.city)
    &&& row.previous_page == e.previous_page
    &&& row.current_page == e.current_page
    &&& row.external_referrer == e.external_referrer
    &&& row.hash == e.hash
    &&& row.section == e.section
    &&& row.duration_seconds == e.duration_seconds
    &&& row.funnel_step_name == e.funnel_step_name
    &&& row.funnel_step_number == e.funnel_step_number
    &&& row.funnel_description == e.funnel_description
    &&& row.element_tag == e.element_tag
    &&& row.element_id == e.element_id
    &&& row.element_text == e.element_text
    &&& row.click_count == e.click_count
    &&& row.x_pos == e.x_pos
    &&& row.y_pos == e.y_pos
    &&& row.x_percent_bits == e.x_percent_bits
    &&& row.y_percent_bits == e.y_percent_bits
    &&& row.scroll_depth == e.scroll_depth
}

fn string_or_empty(value: Option<String>) -> (r: String)
    ensures
        r@ == text_or_empty(value),
{
    match value {
        Some(s) => s,
        None => String::new(),
    }
}

fn value_or_zero(value: Option<u16>) -> (r: u16)
    ensures
        r == u16_or_zero(value),
{
    match value {
        Some(v) => v,
        None => 0,
    }
}

/// The instant an event's timestamp names, where it is valid RFC 3339.
pub fn event_timestamp(e: &IncomingEvent) -> (r: Option<i128>)
    ensures
        match r {
            Some(n) => event_instant(*e) == Some(n as int),
            None => event_instant(*e) is None,
        },
{
    match &e.timestamp {
        Some(t) => parse_rfc3339_nanos(t.as_str()),
        None => None,
    }
}

impl ClickEventRow {
    /// The row stored for `e`, stamped with the instant its timestamp names or,
    /// where it names none, the current time.
    pub fn from(e: IncomingEvent) -> (row: ClickEventRow)
        ensures
            row_carries_event(row, e),
            match event_instant(e) {
                Some(n) => row.timestamp_nanos == n,
                None => true,
            },
    {
        let timestamp_nanos = match event_timestamp(&e) {
            Some(n) => n,
            None => now_utc_nanos(),
        };
        ClickEventRow::at_instant(e, timestamp_nanos)
    }

    /// The row stored for `e`, stamped with `timestamp_nanos`.
    pub fn at_instant(e: IncomingEvent, timestamp_nanos: i128) -> (row: ClickEventRow)
        ensures
            row_carries_event(row, e),
            row.timestamp_nanos == timestamp_nanos,
    {
        ClickEventRow {
            user_id: e.user_id,
            session_id: e.session_id,
            seq: e.seq,
            event_type: e.event_type,
            timestamp_nanos,
            page_url: e.page_url,
            browser: string_or_empty(e.browser),
            os: string_or_empty(e.os),
            device_type: string_or_empty(e.device_type),
            viewport_width: value_or_zero(e.viewport_width),
            viewport_height: value_or_zero(e.viewport_height),
            ip: string_or_empty(e.ip),
            country: string_or_empty(e.country),
            region: string_or_empty(e.region),
            city: string_or_empty(e.city),
            previous_page: e.previous_page,
            current_page: e.current_page,
            external_referrer: e.external_referrer,
            hash: e.hash,
            section: e.section,
            duration_seconds: e.duration_seconds,
            funnel_step_name: e.funnel_step_name,
            funnel_step_number: e.funnel_step_number,
            funnel_description: e.funnel_description,
            element_tag: e.element_tag,
            element_id: e.element_id,
            element_text: e.element_text,
            click_count: e.click_count,
            x_pos: e.x_pos,
            y_pos: e.y_pos,
            x_percent_bits: e.x_percent_bits,
            y_percent_bits: e.y_percent_bits,
            scroll_depth: e.scroll_depth,
        }
    }
}

impl UserMetadataRow {
    /// The metadata reported for a user with no located event.
    pub fn unknown() -> (r: UserMetadataRow)
        ensures
            r.country@ == "Unknown"@,
            r.region@ == "Unknown"@,
            r.city@ == "Unknown"@,
            r.browser@ == "Unknown"@,
            r.os@ == "Unknown"@,
            r.device_type@ == "Unknown"@,
    {
        UserMetadataRow {
            country: "Unknown".to_owned(),
            region: "Unknown".to_owned(),
            city: "Unknown".to_owned(),
            browser: "Unknown".to_owned(),
            os: "Unknown".to_owned(),
            device_type: "Unknown".to_owned(),
        }
    }
}

} // verus!

verus! {

/// A stored row keeps each device and location field of its own event, under
/// the same name: the field's text where the event has it, else empty; the
/// viewport's sizes where given, else 0.
pub proof fn lemma_row_fields_from_same_event_fields(row: ClickEventRow, e: IncomingEvent)
    requires
        row_carries_event(row, e),
    ensures
        e.browser matches Some(v) ==> row.browser@ == v@,
        e.browser is None ==> row.browser@.len() == 0,
        e.os matches Some(v) ==> row.os@ == v@,
        e.os is None ==> row.os@.len() == 0,
        e.device_type matches Some(v) ==> row.device_type@ == v@,
        e.device_type is None ==> row.device_type@.len() == 0,
        e.ip matches Some(v) ==> row.ip@ == v@,
        e.ip is None ==> row.ip@.len() == 0,
        e.country matches Some(v) ==> row.country@ == v@,
        e.country is None ==> row.country@.len() == 0,
        e.region matches Some(v) ==> row.region@ == v@,
        e.region is None ==> row.region@.len() == 0,
        e.city matches Some(v) ==> row.city@ == v@,
        e.city is None ==> row.city@.len() == 0,
        e.viewport_width matches Some(w) ==> row.viewport_width == w,
        e.viewport_width is None ==> row.viewport_width == 0,
        e.viewport_height matches Some(h) ==> row.viewport_height == h,
        e.viewport_height is None ==> row.viewport_height == 0,
        row.user_id == e.user_id && row.session_id == e.session_id && row.seq == e.seq
            && row.event_type == e.event_type && row.page_url == e.page_url,
{
}

} // verus!

verus! {

/// A stored row keeps the event's pages, funnel, element, click and position
/// fields as they are, each under the same name.
pub proof fn lemma_row_keeps_optional_fields(row: ClickEventRow, e: IncomingEvent)
    requires
        row_carries_event(row, e),
    ensures
        row.previous_page == e.previous_page && row.current_page == e.current_page,
        row.external_referrer == e.external_referrer && row.hash == e.hash && row.section == e.section,
        row.duration_seconds == e.duration_seconds,
        row.funnel_step_name == e.funnel_step_name && row.funnel_step_number == e.funnel_step_number
            && row.funnel_description == e.funnel_description,
        row.element_tag == e.element_tag && row.element_id == e.element_id && row.element_text == e.element_text,
        row.click_count == e.click_count,
        row.x_pos == e.x_pos && row.y_pos == e.y_pos,
        row.x_percent_bits == e.x_percent_bits && row.y_percent_bits == e.y_percent_bits,
        row.scroll_depth == e.scroll_depth,
{
}

/// An event's instant is the one its own timestamp text names, and an event
/// without a timestamp has none.
pub proof fn lemma_event_instant_from_timestamp(e: IncomingEvent)
    ensures
        e.timestamp is Some ==> event_instant(e) == rfc3339_unix_nanos(e.timestamp->0@),
        e.timestamp is None ==> event_instant(e) is None,
{
}

} // verus!
