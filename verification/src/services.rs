//! Locating tracker.js events: which geolocation source to ask, what its
//! answer means, and the rows stored for a batch.

use crate::text::{
    decimal, decimal_string, has_prefix, lemma_decimal_injective, starts_with, str_eq,
};
use crate::tracker_models::{EventPayload, EventRow, GeoInfo, IpApiResponse, ReverseGeoResponse};
use vstd::prelude::*;

verus! {

/// An address that ip-api.com cannot locate from outside, judged by its text:
/// loopback (127.x, ::1), unspecified (0.0.0.0), private (10.x, 172.16.x to
/// 172.31.x, 192.168.x) or IPv6 link-local (fe80:).
pub open spec fn spec_is_private_ip(ip: Seq<char>) -> bool {
    ||| has_prefix(ip, "127."@)
    ||| ip == "::1"@
    ||| ip == "0.0.0.0"@
    ||| has_prefix(ip, "10."@)
    ||| (exists|k: int| 16 <= k <= 31 && #[trigger] has_prefix(ip, private_172_prefix(k)))
    ||| has_prefix(ip, "192.168."@)
    ||| has_prefix(ip, "fe80:"@)
}

/// The text `172.<k>.`.
pub open spec fn private_172_prefix(k: int) -> Seq<char> {
    "172."@ + decimal(k as nat) + "."@
}

/// Whether `ip` begins `172.<k>.` for some `k` from 16 to 31.
fn in_private_172_range(ip: &str) -> (r: bool)
    ensures
        r == exists|k: int| 16 <= k <= 31 && #[trigger] has_prefix(ip@, private_172_prefix(k)),
{
    let mut k: u64 = 16;
    while k <= 31
        invariant
            16 <= k <= 32,
            forall|j: int| 16 <= j < k ==> !#[trigger] has_prefix(ip@, private_172_prefix(j)),
        decreases 32 - k,
    {
        let prefix = "172.".to_owned().concat(decimal_string(k).as_str()).concat(".");
        if starts_with(ip, prefix.as_str()) {
            assert(prefix@ == private_172_prefix(k as int));
            return true;
        }
        k = k + 1;
    }
    false
}

/// Whether `ip` is a local address by its text (127.x, ::1, 0.0.0.0, 10.x,
/// 172.16.x to 172.31.x, 192.168.x, fe80:).
pub fn is_private_ip(ip: &str) -> (r: bool)
    ensures
        r == spec_is_private_ip(ip@),
{
    starts_with(ip, "127.") || str_eq(ip, "::1") || str_eq(ip, "0.0.0.0") || starts_with(ip, "10.")
        || in_private_172_range(ip) || starts_with(ip, "192.168.") || starts_with(ip, "fe80:")
}

/// The ip-api.com address that locates `ip`; for a local address, the one
/// that locates the server's own public address.
pub fn ip_api_url(ip: &str) -> (r: String)
    ensures
        r@ == if spec_is_private_ip(ip@) {
            "http://ip-api.com/json"@
        } else {
            "http://ip-api.com/json/"@ + ip@
        },
{
    if is_private_ip(ip) {
        "http://ip-api.com/json".to_owned()
    } else {
        "http://ip-api.com/json/".to_owned().concat(ip)
    }
}

/// GPS reverse geocoding is tried first, where the batch carries both coordinates.
pub fn should_reverse_geocode(latitude_bits: Option<u64>, longitude_bits: Option<u64>) -> (r: bool)
    ensures
        r == (latitude_bits is Some && longitude_bits is Some),
{
    latitude_bits.is_some() && longitude_bits.is_some()
}

/// An optional text, or `Unknown` where it is absent.
pub open spec fn or_unknown(value: Option<String>) -> Seq<char> {
    match value {
        Some(s) => s@,
        None => "Unknown"@,
    }
}

/// The city of a reverse-geocoding answer: its city where that is not empty,
/// else its locality, else `Unknown`.
pub open spec fn reverse_geo_city(data: ReverseGeoResponse) -> Seq<char> {
    match data.city {
        Some(c) => if c@.len() > 0 {
            c@
        } else {
            or_unknown(data.locality)
        },
        None => or_unknown(data.locality),
    }
}

fn text_or_unknown(value: Option<String>) -> (r: String)
    ensures
        r@ == or_unknown(value),
{
    match value {
        Some(s) => s,
        None => "Unknown".to_owned(),
    }
}

impl GeoInfo {
    /// The location a reverse-geocoding answer gives.
    pub fn from_reverse_geo(data: ReverseGeoResponse) -> (g: GeoInfo)
        ensures
            g.country@ == or_unknown(data.country_name),
            g.region@ == or_unknown(data.principal_subdivision),
            g.city@ == reverse_geo_city(data),
    {
        let country = text_or_unknown(data.country_name);
        let region = text_or_unknown(data.principal_subdivision);
        let city = match data.city {
            Some(c) => {
                if !c.as_str().is_empty() {
                    c
                } else {
                    text_or_unknown(data.locality)
                }
            },
            None => text_or_unknown(data.locality),
        };
        GeoInfo { country, region, city }
    }

    /// The location an ip-api.com answer gives: its fields, `Unknown` where
    /// absent, where its status is `success`; else `Unknown` throughout.
    pub fn from_ip_api(data: IpApiResponse) -> (g: GeoInfo)
        ensures
            data.status@ == "success"@ ==> g.country@ == or_unknown(data.country) && g.region@
                == or_unknown(data.region_name) && g.city@ == or_unknown(data.city),
            data.status@ != "success"@ ==> g.country@ == "Unknown"@ && g.region@ == "Unknown"@
                && g.city@ == "Unknown"@,
    {
        if str_eq(data.status.as_str(), "success") {
            GeoInfo {
                country: text_or_unknown(data.country),
                region: text_or_unknown(data.region_name),
                city: text_or_unknown(data.city),
            }
        } else {
            GeoInfo::default()
        }
    }
}

/// A coordinate's bits, or those of 0.0 where it is absent.
pub open spec fn bits_or_zero(value: Option<u64>) -> u64 {
    match value {
        Some(b) => b,
        None => 0,
    }
}

/// `row` is the row stored for `e` located at `geo`.
pub open spec fn row_enriched(row: EventRow, e: EventPayload, geo: GeoInfo) -> bool {
    &&& row.user_id == e.user_id
    &&& row.session_id == e.session_id
    &&& row.device == e.device
    &&& row.browser == e.browser
    &&& row.os == e.os
    &&& row.country@ == geo.country@
    &&& row.region@ == geo.region@
    &&& row.city@ == geo.city@
    &&& row.latitude_bits == bits_or_zero(e.latitude_bits)
    &&& row.longitude_bits == bits_or_zero(e.longitude_bits)
    &&& row.click_count == e.click_count
    &&& row.user_journey == e.user_journey
    &&& row.screen_width == e.screen_width
    &&& row.screen_height == e.screen_height
}

/// The identifier of the row at position `k` of the batch `batch_id`.
pub open spec fn event_id_text(batch_id: Seq<char>, k: int) -> Seq<char> {
    batch_id + "-"@ + decimal(k as nat)
}

/// Rows at different positions of one batch have different identifiers.
pub proof fn lemma_event_ids_distinct(batch_id: Seq<char>, j: nat, k: nat)
    requires
        j != k,
    ensures
        event_id_text(batch_id, j as int) != event_id_text(batch_id, k as int),
{
    let p = batch_id + "-"@;
    if event_id_text(batch_id, j as int) == event_id_text(batch_id, k as int) {
        assert((p + decimal(j)).skip(p.len() as int) =~= decimal(j));
        assert((p + decimal(k)).skip(p.len() as int) =~= decimal(k));
        lemma_decimal_injective(j, k);
    }
}

/// `Uuid::new_v4`, in its hyphenated text form: random, so nothing is stated
/// of the text. It panics only where the operating system gives no random
/// bytes.
#[verifier::external_body]
fn new_batch_id() -> String {
    uuid::Uuid::new_v4().to_string()
}

fn enrich_event(e: EventPayload, geo: &GeoInfo, event_id: String) -> (row: EventRow)
    ensures
        row_enriched(row, e, *geo),
        row.event_id == event_id,
{
    EventRow {
        event_id,
        user_id: e.user_id,
        session_id: e.session_id,
        device: e.device,
        os: e.os,
        browser: e.browser,
        country: geo.country.clone(),
        region: geo.region.clone(),
        city: geo.city.clone(),
        latitude_bits: match e.latitude_bits {
            Some(b) => b,
            None => 0,
        },
        longitude_bits: match e.longitude_bits {
            Some(b) => b,
            None => 0,
        },
        click_count: e.click_count,
        user_journey: e.user_journey,
        screen_width: e.screen_width,
        screen_height: e.screen_height,
    }
}

/// The rows stored for a batch identified by `batch_id`: each event with the
/// batch's location, a missing coordinate stored as 0.0, and the identifier of
/// its position in the batch.
pub fn enrich_events_in_batch(events: Vec<EventPayload>, geo: &GeoInfo, batch_id: &str) -> (rows: Vec<
    EventRow,
>)
    ensures
        rows@.len() == events@.len(),
        forall|k: int| 0 <= k < rows@.len() ==> row_enriched(#[trigger] rows@[k], events@[k], *geo),
        forall|k: int|
            0 <= k < rows@.len() ==> (#[trigger] rows@[k]).event_id@ == event_id_text(batch_id@, k),
{
    let ghost initial = events@;
    let mut rows: Vec<EventRow> = Vec::new();
    let count = events.len();
    assert(initial.len() == count);
    let mut position: usize = 0;
    for e in it: events.into_iter()
        invariant
            it.seq() == initial,
            rows@.len() == it.index(),
            position == rows@.len(),
            initial.len() <= usize::MAX,
            forall|k: int| 0 <= k < rows@.len() ==> row_enriched(#[trigger] rows@[k], initial[k], *geo),
            forall|k: int|
                0 <= k < rows@.len() ==> (#[trigger] rows@[k]).event_id@ == event_id_text(batch_id@, k),
    {
        let event_id = batch_id.to_owned().concat("-").concat(decimal_string(position as u64).as_str());
        rows.push(enrich_event(e, geo, event_id));
        position = position + 1;
    }
    rows
}

/// The rows stored for a batch: each event with the batch's location and a
/// missing coordinate stored as 0.0. Every row gets an identifier, and no two
/// rows of the batch share one. The client address is not stored.
pub fn enrich_events(events: Vec<EventPayload>, _ip: &str, geo: &GeoInfo) -> (rows: Vec<EventRow>)
    ensures
        rows@.len() == events@.len(),
        forall|k: int| 0 <= k < rows@.len() ==> row_enriched(#[trigger] rows@[k], events@[k], *geo),
        forall|j: int, k: int|
            0 <= j < rows@.len() && 0 <= k < rows@.len() && j != k ==> (#[trigger] rows@[j]).event_id@
                != (#[trigger] rows@[k]).event_id@,
{
    let batch_id = new_batch_id();
    let rows = enrich_events_in_batch(events, geo, batch_id.as_str());
    assert forall|j: int, k: int|
        0 <= j < rows@.len() && 0 <= k < rows@.len() && j != k implies (#[trigger] rows@[j]).event_id@
        != (#[trigger] rows@[k]).event_id@ by {
        lemma_event_ids_distinct(batch_id@, j as nat, k as nat);
    }
    rows
}

} // verus!

verus! {

/// Reverse geocoding reports the answer's city wherever that is a non-empty
/// text, whatever the locality; only an absent or empty city falls back to the
/// locality, and then to `Unknown`.
pub proof fn lemma_reverse_geo_city_first(data: ReverseGeoResponse)
    ensures
        data.city is Some && data.city->0@.len() > 0 ==> reverse_geo_city(data) == data.city->0@,
        !(data.city is Some && data.city->0@.len() > 0) && data.locality is Some ==> reverse_geo_city(
            data,
        ) == data.locality->0@,
        !(data.city is Some && data.city->0@.len() > 0) && data.locality is None ==> reverse_geo_city(
            data,
        ) == "Unknown"@,
{
}

/// A stored row keeps each coordinate of its own event: the latitude from the
/// event's latitude and the longitude from its longitude, each 0.0 (all bits
/// zero) where the event lacks it; the location is the batch's.
pub proof fn lemma_row_coordinates(row: EventRow, e: EventPayload, geo: GeoInfo)
    requires
        row_enriched(row, e, geo),
    ensures
        e.latitude_bits matches Some(b) ==> row.latitude_bits == b,
        e.latitude_bits is None ==> row.latitude_bits == 0,
        e.longitude_bits matches Some(b) ==> row.longitude_bits == b,
        e.longitude_bits is None ==> row.longitude_bits == 0,
        row.country@ == geo.country@ && row.region@ == geo.region@ && row.city@ == geo.city@,
{
}

} // verus!

verus! {

/// Addresses in 127.0.0.0/8 and in 172.16.0.0/12, written in dotted form,
/// count as local by their text.
pub proof fn lemma_local_ranges_by_text(ip: Seq<char>, k: int)
    ensures
        has_prefix(ip, "127."@) ==> spec_is_private_ip(ip),
        has_prefix(ip, "10."@) ==> spec_is_private_ip(ip),
        has_prefix(ip, "192.168."@) ==> spec_is_private_ip(ip),
        16 <= k <= 31 && has_prefix(ip, "172."@ + decimal(k as nat) + "."@) ==> spec_is_private_ip(ip),
{
    if 16 <= k <= 31 && has_prefix(ip, "172."@ + decimal(k as nat) + "."@) {
        assert(has_prefix(ip, private_172_prefix(k)));
    }
}

/// A stored row keeps its event's identity, device and journey fields, each
/// under the same name.
pub proof fn lemma_row_keeps_event_fields(row: EventRow, e: EventPayload, geo: GeoInfo)
    requires
        row_enriched(row, e, geo),
    ensures
        row.user_id == e.user_id && row.session_id == e.session_id,
        row.device == e.device && row.browser == e.browser && row.os == e.os,
        row.click_count == e.click_count && row.user_journey == e.user_journey,
        row.screen_width == e.screen_width && row.screen_height == e.screen_height,
{
}

} // verus!
