//! The decisions behind the tracker.js endpoints: the client's address, the
//! batch's coordinates, and the answers sent back.

use crate::headers::{header_entries, header_text, header_text_of};
use crate::text::{decimal, decimal_string, split_on, split_str, trim, trim_str};
use crate::tracker_models::{ApiResponse, EventPayload, UserEvent};
use axum::http::HeaderMap;
use vstd::prelude::*;

verus! {

/// The first entry of a comma-separated forwarding list, trimmed; empty where
/// the header is absent or not readable as text.
pub open spec fn forwarded_first(entries: Seq<(Seq<char>, Seq<u8>)>) -> Seq<char> {
    match header_text_of(entries, "x-forwarded-for"@) {
        Some(v) => trim(split_on(v, ',')[0]),
        None => Seq::empty(),
    }
}

/// The `X-Real-IP` header, trimmed; empty where absent or not readable.
pub open spec fn real_ip_header(entries: Seq<(Seq<char>, Seq<u8>)>) -> Seq<char> {
    match header_text_of(entries, "x-real-ip"@) {
        Some(v) => trim(v),
        None => Seq::empty(),
    }
}

/// The client's address: the first `X-Forwarded-For` entry, else `X-Real-IP`,
/// else the connection's address.
pub open spec fn spec_extract_client_ip(entries: Seq<(Seq<char>, Seq<u8>)>, peer: Seq<char>) -> Seq<
    char,
> {
    if forwarded_first(entries).len() > 0 {
        forwarded_first(entries)
    } else if real_ip_header(entries).len() > 0 {
        real_ip_header(entries)
    } else {
        peer
    }
}

/// The real client address of a request behind a reverse proxy or load
/// balancer; `peer_ip` is the text of the connection's peer address.
pub fn extract_client_ip(headers: &HeaderMap, peer_ip: &str) -> (r: String)
    ensures
        r@ == spec_extract_client_ip(header_entries(*headers), peer_ip@),
{
    proof {
        reveal_strlit("x-forwarded-for");
        reveal_strlit("x-real-ip");
    }
    if let Some(forwarded) = header_text(headers, "x-forwarded-for") {
        let parts = split_str(forwarded, ',');
        proof {
            crate::text::lemma_split_on_nonempty(forwarded@, ',');
        }
        let trimmed = trim_str(parts[0]);
        if !trimmed.is_empty() {
            return trimmed.to_owned();
        }
    }
    if let Some(real_ip) = header_text(headers, "x-real-ip") {
        let trimmed = trim_str(real_ip);
        if !trimmed.is_empty() {
            return trimmed.to_owned();
        }
    }
    peer_ip.to_owned()
}

/// The coordinates a batch is located by: those of its first event (all
/// events of a batch share one location).
pub fn batch_coordinates(events: &Vec<EventPayload>) -> (r: (Option<u64>, Option<u64>))
    ensures
        events@.len() == 0 ==> r == (None::<u64>, None::<u64>),
        events@.len() > 0 ==> r == (events@[0].latitude_bits, events@[0].longitude_bits),
{
    if events.len() == 0 {
        (None, None)
    } else {
        (events[0].latitude_bits, events[0].longitude_bits)
    }
}

/// The answer to a batch of events: success, or the failure to store them.
pub fn record_events_response(outcome: Result<(), String>) -> (r: ApiResponse<()>)
    ensures
        r.data is None,
        match outcome {
            Ok(_) => r.success && r.message@ == "Events recorded successfully"@,
            Err(e) => !r.success && r.message@ == "Failed to record events: "@ + e@,
        },
{
    match outcome {
        Ok(_) => ApiResponse {
            success: true,
            message: "Events recorded successfully".to_owned(),
            data: None,
        },
        Err(e) => ApiResponse {
            success: false,
            message: "Failed to record events: ".to_owned().concat(e.as_str()),
            data: None,
        },
    }
}

/// The answer to a request for the stored events.
pub fn fetch_events_response(outcome: Result<Vec<UserEvent>, String>) -> (r: ApiResponse<
    Vec<UserEvent>,
>)
    ensures
        match outcome {
            Ok(events) => r.success && r.message@ == "Fetched "@ + decimal(events@.len()) + " events"@
                && r.data == Some(events),
            Err(e) => !r.success && r.message@ == "Failed to fetch events: "@ + e@ && r.data is None,
        },
{
    match outcome {
        Ok(events) => {
            let count = decimal_string(events.len() as u64);
            let message = "Fetched ".to_owned().concat(count.as_str()).concat(" events");
            ApiResponse { success: true, message, data: Some(events) }
        },
        Err(e) => ApiResponse {
            success: false,
            message: "Failed to fetch events: ".to_owned().concat(e.as_str()),
            data: None,
        },
    }
}

/// The answer to a health check.
pub fn health_check() -> (r: ApiResponse<()>)
    ensures
        r.success,
        r.message@ == "Analytics backend is running"@,
        r.data is None,
{
    ApiResponse { success: true, message: "Analytics backend is running".to_owned(), data: None }
}

} // verus!

verus! {

/// A header names the client only with a non-blank value; so where the
/// connection's address is known, the client's address is never empty.
pub proof fn lemma_client_ip_not_blank(entries: Seq<(Seq<char>, Seq<u8>)>, peer: Seq<char>)
    requires
        peer.len() > 0,
    ensures
        spec_extract_client_ip(entries, peer).len() > 0,
{
}

} // verus!

verus! {

/// The first `X-Forwarded-For` entry, where not blank, names the client over
/// `X-Real-IP` and the connection; `X-Real-IP`, where not blank, over the
/// connection.
pub proof fn lemma_client_ip_priority(entries: Seq<(Seq<char>, Seq<u8>)>, peer: Seq<char>, v: Seq<char>)
    ensures
        header_text_of(entries, "x-forwarded-for"@) == Some(v) && trim(split_on(v, ',')[0]).len() > 0
            ==> spec_extract_client_ip(entries, peer) == trim(split_on(v, ',')[0]),
        forwarded_first(entries).len() == 0 && header_text_of(entries, "x-real-ip"@) == Some(v) && trim(v).len() > 0
            ==> spec_extract_client_ip(entries, peer) == trim(v),
        forwarded_first(entries).len() == 0 && real_ip_header(entries).len() == 0
            ==> spec_extract_client_ip(entries, peer) == peer,
{
}

} // verus!
