//! The decisions behind the analytics API's handlers: the parameters of each
//! query, the funnel step list, and where each tracked event is located.

use crate::errors::AppError;
use crate::geoip::GeoLocation;
use crate::ip_resolver::{is_private_or_loopback, spec_is_private_or_loopback};
use crate::models::IncomingEvent;
use crate::text::{split_on, split_str, str_eq, trim, trim_str};
use vstd::prelude::*;

verus! {

/// Parameters of the heatmap query.
#[derive(Debug)]
pub struct HeatmapQuery {
    pub page_url: String,
    pub event_type: String,
}

#[derive(Debug)]
pub struct NavigationQuery {
    pub user_id: String,
}

#[derive(Debug)]
pub struct UserJourneyQuery {
    pub user_id: String,
}

#[derive(Debug)]
pub struct UserReportQuery {
    pub user_id: String,
}

#[derive(Debug)]
pub struct ClickCountQuery {
    pub user_id: String,
}

/// Parameters of the funnel query: the step names, separated by commas.
#[derive(Debug)]
pub struct FunnelQuery {
    pub steps: String,
}

#[derive(Debug)]
pub struct ScrollDepthQuery {
    pub page_url: String,
}

#[derive(Debug)]
pub struct RegionsQuery {
    pub country: String,
}

#[derive(Debug)]
pub struct CitiesQuery {
    pub region: String,
}

/// The body of the health check's answer.
pub fn health_check() -> (r: &'static str)
    ensures
        r@ == "ok"@,
{
    "ok"
}

/// The event type a heatmap shows where the query names none.
pub fn default_heatmap_event_type() -> (r: String)
    ensures
        r@ == "click"@,
{
    "click".to_owned()
}

impl HeatmapQuery {
    /// The heatmap query for `page_url` and the event type given, `click` where none is.
    pub fn new(page_url: String, event_type: Option<String>) -> (q: HeatmapQuery)
        ensures
            q.page_url == page_url,
            q.event_type@ == match event_type {
                Some(t) => t@,
                None => "click"@,
            },
    {
        let event_type = match event_type {
            Some(t) => t,
            None => default_heatmap_event_type(),
        };
        HeatmapQuery { page_url, event_type }
    }
}

/// The step names of the comma-separated `parts`: each trimmed, blank ones dropped.
pub open spec fn nonblank_steps(parts: Seq<Seq<char>>) -> Seq<Seq<char>>
    decreases parts.len(),
{
    if parts.len() == 0 {
        Seq::empty()
    } else {
        let t = trim(parts[0]);
        let rest = nonblank_steps(parts.drop_first());
        if t.len() > 0 {
            seq![t] + rest
        } else {
            rest
        }
    }
}

/// The funnel steps that the `steps` parameter lists.
pub open spec fn funnel_step_list(steps: Seq<char>) -> Seq<Seq<char>> {
    nonblank_steps(split_on(steps, ','))
}

/// The steps that the funnel query lists, in order; a bad request where it
/// lists none.
pub fn parse_funnel_steps(steps: &str) -> (r: Result<Vec<String>, AppError>)
    ensures
        match r {
            Ok(v) => funnel_step_list(steps@).len() > 0 && v@.len() == funnel_step_list(steps@).len()
                && forall|k: int| 0 <= k < v@.len() ==> (#[trigger] v@[k])@ == funnel_step_list(
                steps@,
            )[k],
            Err(e) => funnel_step_list(steps@).len() == 0 && e is BadRequest && e->BadRequest_0@
                == "steps query param is required"@,
        },
{
    let parts = split_str(steps, ',');
    let ghost all = split_on(steps@, ',');
    let mut result: Vec<String> = Vec::new();
    let mut i: usize = 0;
    assert(all.skip(0) =~= all);
    while i < parts.len()
        invariant
            0 <= i <= parts.len(),
            parts@.len() == all.len(),
            forall|k: int| 0 <= k < all.len() ==> (#[trigger] parts@[k])@ == all[k],
            result@.map_values(|s: String| s@) + nonblank_steps(all.skip(i as int))
                == nonblank_steps(all),
        decreases parts.len() - i,
    {
        let ghost rest = all.skip(i as int);
        assert(rest.drop_first() =~= all.skip(i + 1));
        assert(rest[0] == all[i as int]);
        let ghost before = result@.map_values(|s: String| s@);
        let t = trim_str(parts[i]);
        if !t.is_empty() {
            result.push(t.to_owned());
            assert(result@.map_values(|s: String| s@) =~= before.push(t@));
            assert(before.push(t@) + nonblank_steps(all.skip(i + 1)) =~= before + (seq![t@]
                + nonblank_steps(all.skip(i + 1))));
        }
        i = i + 1;
    }
    assert(all.skip(i as int) =~= Seq::<Seq<char>>::empty());
    assert(result@.map_values(|s: String| s@) + Seq::<Seq<char>>::empty() =~= result@.map_values(
        |s: String| s@,
    ));
    if result.len() == 0 {
        return Err(AppError::BadRequest("steps query param is required".to_owned()));
    }
    assert forall|k: int| 0 <= k < result@.len() implies (#[trigger] result@[k])@
        == funnel_step_list(steps@)[k] by {
        assert(result@.map_values(|s: String| s@)[k] == result@[k]@);
    }
    Ok(result)
}

/// A location field the client sent that is kept over the server's lookup:
/// not empty, not `unknown`, not `Private`.
pub open spec fn is_usable_client_value(v: Seq<char>) -> bool {
    v.len() > 0 && v != "unknown"@ && v != "Private"@
}

/// The client's value where it is usable, else the server's.
pub open spec fn chosen_value(client: Option<String>, server: Seq<char>) -> Seq<char> {
    match client {
        Some(c) => if is_usable_client_value(c@) {
            c@
        } else {
            server
        },
        None => server,
    }
}

/// The address the client reported where it is not empty, not `unknown` and
/// not private or loopback; else the address the server resolved.
pub open spec fn chosen_ip(client: Option<String>, server: Seq<char>) -> Seq<char> {
    match client {
        Some(c) => if c@.len() > 0 && c@ != "unknown"@ && !spec_is_private_or_loopback(c@) {
            c@
        } else {
            server
        },
        None => server,
    }
}

/// `new` is `old` with its address and location settled: each the client's
/// own where usable, else the server's; every other field unchanged.
pub open spec fn event_located(
    new: IncomingEvent,
    old: IncomingEvent,
    client_ip: Seq<char>,
    geo: GeoLocation,
) -> bool {
    &&& new.ip is Some && new.ip->0@ == chosen_ip(old.ip, client_ip)
    &&& new.country is Some && new.country->0@ == chosen_value(old.country, geo.country@)
    &&& new.region is Some && new.region->0@ == chosen_value(old.region, geo.region@)
    &&& new.city is Some && new.city->0@ == chosen_value(old.city, geo.city@)
    &&& new == (IncomingEvent { ip: new.ip, country: new.country, region: new.region, city: new.city, ..old })
}

fn choose_value(client: &Option<String>, server: &String) -> (r: String)
    ensures
        r@ == chosen_value(*client, server@),
{
    match client {
        Some(c) => {
            if !c.as_str().is_empty() && !str_eq(c.as_str(), "unknown") && !str_eq(
                c.as_str(),
                "Private",
            ) {
                c.clone()
            } else {
                server.clone()
            }
        },
        None => server.clone(),
    }
}

fn choose_ip(client: &Option<String>, server: &str) -> (r: String)
    ensures
        r@ == chosen_ip(*client, server@),
{
    match client {
        Some(c) => {
            if !c.as_str().is_empty() && !str_eq(c.as_str(), "unknown") && !is_private_or_loopback(
                c.as_str(),
            ) {
                c.clone()
            } else {
                server.to_owned()
            }
        },
        None => server.to_owned(),
    }
}

/// Settles one event's address and location. Browser-sent location (from GPS)
/// is preferred over the server's lookup, and a public address the client
/// reported over the one the server resolved.
pub fn locate_event(event: &mut IncomingEvent, client_ip: &str, geo: &GeoLocation)
    ensures
        event_located(*final(event), *old(event), client_ip@, *geo),
{
    let final_ip = choose_ip(&event.ip, client_ip);
    let final_country = choose_value(&event.country, &geo.country);
    let final_region = choose_value(&event.region, &geo.region);
    let final_city = choose_value(&event.city, &geo.city);
    event.ip = Some(final_ip);
    event.country = Some(final_country);
    event.region = Some(final_region);
    event.city = Some(final_city);
}

/// Settles the address and location of every event of a batch.
pub fn locate_events(events: &mut Vec<IncomingEvent>, client_ip: &str, geo: &GeoLocation)
    ensures
        final(events)@.len() == old(events)@.len(),
        forall|k: int|
            0 <= k < old(events)@.len() ==> event_located(
                #[trigger] final(events)@[k],
                old(events)@[k],
                client_ip@,
                *geo,
            ),
{
    let ghost initial = events@;
    let mut i: usize = 0;
    while i < events.len()
        invariant
            0 <= i <= events@.len(),
            events@.len() == initial.len(),
            forall|k: int|
                0 <= k < i ==> event_located(#[trigger] events@[k], initial[k], client_ip@, *geo),
            forall|k: int| i <= k < events@.len() ==> #[trigger] events@[k] == initial[k],
        decreases events@.len() - i,
    {
        locate_event(&mut events[i], client_ip, geo);
        i = i + 1;
    }
}

} // verus!

verus! {

/// Settling an event's location twice with the same server address and
/// location changes nothing the first time did not: the same address and
/// location, every other field the same.
pub proof fn lemma_locate_idempotent(
    e0: IncomingEvent,
    e1: IncomingEvent,
    e2: IncomingEvent,
    client_ip: Seq<char>,
    geo: GeoLocation,
)
    requires
        event_located(e1, e0, client_ip, geo),
        event_located(e2, e1, client_ip, geo),
    ensures
        e2.ip->0@ == e1.ip->0@,
        e2.country->0@ == e1.country->0@,
        e2.region->0@ == e1.region->0@,
        e2.city->0@ == e1.city->0@,
        e2 == (IncomingEvent { ip: e2.ip, country: e2.country, region: e2.region, city: e2.city, ..e1 }),
{
}

/// A usable location the client sent is what is stored; an unusable one (empty,
/// `unknown` or `Private`) is replaced by the server's lookup.
pub proof fn lemma_client_location_preferred(client: Option<String>, server: Seq<char>)
    ensures
        (client is Some && is_usable_client_value(client->0@)) ==> chosen_value(client, server)
            == client->0@,
        !(client is Some && is_usable_client_value(client->0@)) ==> chosen_value(client, server)
            == server,
{
}

/// Every step of a parsed funnel is non-empty and has no surrounding white space.
pub proof fn lemma_funnel_steps_trimmed(steps: Seq<char>)
    ensures
        forall|k: int|
            0 <= k < funnel_step_list(steps).len() ==> (#[trigger] funnel_step_list(steps)[k]).len() > 0
                && trim(funnel_step_list(steps)[k]) == funnel_step_list(steps)[k],
{
    lemma_nonblank_steps_trimmed(split_on(steps, ','));
}

proof fn lemma_nonblank_steps_trimmed(parts: Seq<Seq<char>>)
    ensures
        forall|k: int|
            0 <= k < nonblank_steps(parts).len() ==> (#[trigger] nonblank_steps(parts)[k]).len() > 0
                && trim(nonblank_steps(parts)[k]) == nonblank_steps(parts)[k],
    decreases parts.len(),
{
    if parts.len() > 0 {
        lemma_nonblank_steps_trimmed(parts.drop_first());
        crate::text::lemma_trim_idempotent(parts[0]);
        let t = trim(parts[0]);
        let rest = nonblank_steps(parts.drop_first());
        if t.len() > 0 {
            assert forall|k: int|
                0 <= k < nonblank_steps(parts).len() implies (#[trigger] nonblank_steps(parts)[k]).len() > 0
                && trim(nonblank_steps(parts)[k]) == nonblank_steps(parts)[k] by {
                if k > 0 {
                    assert(nonblank_steps(parts)[k] == rest[k - 1]);
                }
            }
        }
    }
}

} // verus!

verus! {

/// Each stored location field comes from the same field of the event where
/// the client sent a usable value (not empty, `unknown` or `Private`), else
/// from the same field of the server's lookup; the address is the client's
/// own where it sent a non-empty, known, public one, else the resolved one.
pub proof fn lemma_located_fields(
    new: IncomingEvent,
    old: IncomingEvent,
    client_ip: Seq<char>,
    geo: GeoLocation,
)
    requires
        event_located(new, old, client_ip, geo),
    ensures
        old.country is Some && old.country->0@.len() > 0 && old.country->0@ != "unknown"@ && old.country->0@ != "Private"@ ==> new.country->0@ == old.country->0@,
        !(old.country is Some && old.country->0@.len() > 0 && old.country->0@ != "unknown"@ && old.country->0@ != "Private"@) ==> new.country->0@ == geo.country@,
        old.region is Some && old.region->0@.len() > 0 && old.region->0@ != "unknown"@ && old.region->0@ != "Private"@ ==> new.region->0@ == old.region->0@,
        !(old.region is Some && old.region->0@.len() > 0 && old.region->0@ != "unknown"@ && old.region->0@ != "Private"@) ==> new.region->0@ == geo.region@,
        old.city is Some && old.city->0@.len() > 0 && old.city->0@ != "unknown"@ && old.city->0@ != "Private"@ ==> new.city->0@ == old.city->0@,
        !(old.city is Some && old.city->0@.len() > 0 && old.city->0@ != "unknown"@ && old.city->0@ != "Private"@) ==> new.city->0@ == geo.city@,
        old.ip is Some && old.ip->0@.len() > 0 && old.ip->0@ != "unknown"@ && !spec_is_private_or_loopback(old.ip->0@) ==> new.ip->0@ == old.ip->0@,
        !(old.ip is Some && old.ip->0@.len() > 0 && old.ip->0@ != "unknown"@ && !spec_is_private_or_loopback(old.ip->0@)) ==> new.ip->0@ == client_ip,
        new.user_id == old.user_id && new.session_id == old.session_id && new.event_type == old.event_type
            && new.page_url == old.page_url && new.timestamp == old.timestamp,
{
}

/// Where every comma-separated part has text, the funnel's steps are the
/// parts, trimmed, in the order given.
pub proof fn lemma_funnel_steps_in_order(steps: Seq<char>)
    requires
        forall|k: int| 0 <= k < split_on(steps, ',').len() ==> trim(#[trigger] split_on(steps, ',')[k]).len() > 0,
    ensures
        funnel_step_list(steps).len() == split_on(steps, ',').len(),
        forall|k: int|
            0 <= k < split_on(steps, ',').len() ==> #[trigger] funnel_step_list(steps)[k] == trim(
                split_on(steps, ',')[k],
            ),
{
    lemma_nonblank_all(split_on(steps, ','));
}

proof fn lemma_nonblank_all(parts: Seq<Seq<char>>)
    requires
        forall|k: int| 0 <= k < parts.len() ==> trim(#[trigger] parts[k]).len() > 0,
    ensures
        nonblank_steps(parts).len() == parts.len(),
        forall|k: int| 0 <= k < parts.len() ==> #[trigger] nonblank_steps(parts)[k] == trim(parts[k]),
    decreases parts.len(),
{
    if parts.len() > 0 {
        let rest = parts.drop_first();
        assert forall|k: int| 0 <= k < rest.len() implies trim(#[trigger] rest[k]).len() > 0 by {
            assert(rest[k] == parts[k + 1]);
        }
        lemma_nonblank_all(rest);
        assert(trim(parts[0]).len() > 0);
        assert forall|k: int| 0 <= k < parts.len() implies #[trigger] nonblank_steps(parts)[k] == trim(parts[k]) by {
            if k > 0 {
                assert(rest[k - 1] == parts[k]);
            }
        }
    }
}

} // verus!
