//! Events from tracker.js, the rows stored for them, the answers of the
//! geolocation services, and the API's response envelope.
//!
//! Coordinates are held as their IEEE bit patterns (`f64::to_bits`).

use vstd::prelude::*;

verus! {

/// One event sent by tracker.js.
#[derive(Debug)]
pub struct EventPayload {
    pub user_id: String,
    pub session_id: String,
    pub device: String,
    pub browser: String,
    pub os: String,
    pub country: String,
    pub region: String,
    pub city: String,
    pub latitude_bits: Option<u64>,
    pub longitude_bits: Option<u64>,
    pub click_count: u32,
    pub user_journey: String,
    pub screen_width: u32,
    pub screen_height: u32,
}

/// A batch of tracker.js events.
#[derive(Debug)]
pub struct EventBatch {
    pub events: Vec<EventPayload>,
}

/// The row stored for one tracker.js event.
#[derive(Debug)]
pub struct EventRow {
    /// The row's own identifier: its batch's random identifier, a `-`, and its
    /// position in the batch.
    pub event_id: String,
    pub user_id: String,
    pub session_id: String,
    pub device: String,
    pub browser: String,
    pub os: String,
    pub country: String,
    pub region: String,
    pub city: String,
    pub latitude_bits: u64,
    pub longitude_bits: u64,
    pub click_count: u32,
    pub user_journey: String,
    pub screen_width: u32,
    pub screen_height: u32,
}

pub type UserEvent = EventRow;

/// A resolved location.
#[derive(Debug)]
pub struct GeoInfo {
    pub country: String,
    pub region: String,
    pub city: String,
}

impl Default for GeoInfo {
    /// The location where none could be resolved: `Unknown` throughout.
    fn default() -> (r: GeoInfo)
        ensures
            r.country@ == "Unknown"@,
            r.region@ == "Unknown"@,
            r.city@ == "Unknown"@,
    {
        GeoInfo {
            country: "Unknown".to_owned(),
            region: "Unknown".to_owned(),
            city: "Unknown".to_owned(),
        }
    }
}

/// What ip-api.com answers about an address.
#[derive(Debug)]
pub struct IpApiResponse {
    pub status: String,
    pub country: Option<String>,
    pub region_name: Option<String>,
    pub city: Option<String>,
}

/// What BigDataCloud's reverse geocoding answers about a coordinate.
#[derive(Debug)]
pub struct ReverseGeoResponse {
    pub country_name: Option<String>,
    pub principal_subdivision: Option<String>,
    pub city: Option<String>,
    pub locality: Option<String>,
}

/// The envelope of every API answer.
#[derive(Debug)]
pub struct ApiResponse<T> {
    pub success: bool,
    pub message: String,
    pub data: Option<T>,
}

} // verus!
