//! The analytics service: the rows stored for tracked events, funnel results
//! and the per-user report, assembled from what the repository returns.

use crate::models::{
    event_instant, row_carries_event, ClickEventRow, ExitWayDetail, FunnelStepResult,
    IncomingEvent, NavigationFlowStep, UserClickDetail, UserMetadataRow, UserProfileReport,
};
use crate::repository::EventRepository;
use vstd::prelude::*;

verus! {

#[derive(Clone)]
pub struct EventService {
    repo: EventRepository,
}

impl EventService {
    pub closed spec fn spec_repo(&self) -> EventRepository {
        self.repo
    }

    pub fn new(repo: EventRepository) -> (r: EventService)
        ensures
            r.spec_repo() == repo,
    {
        Self { repo }
    }

    /// The repository the service reads and writes through.
    pub fn repository(&self) -> (r: &EventRepository)
        ensures
            *r == self.spec_repo(),
    {
        &self.repo
    }
}

/// The rows stored for tracked events, one per event in order, each stamped
/// with the event's own instant where it carries a valid one.
pub fn prepare_rows(events: Vec<IncomingEvent>) -> (rows: Vec<ClickEventRow>)
    ensures
        rows@.len() == events@.len(),
        forall|k: int| 0 <= k < rows@.len() ==> row_carries_event(#[trigger] rows@[k], events@[k]),
        forall|k: int|
            0 <= k < rows@.len() && event_instant(events@[k]) is Some ==> (#[trigger] rows@[k]).timestamp_nanos
                == event_instant(events@[k])->0,
{
    let ghost initial = events@;
    let mut rows: Vec<ClickEventRow> = Vec::new();
    for e in it: events.into_iter()
        invariant
            it.seq() == initial,
            rows@.len() == it.index(),
            forall|k: int| 0 <= k < rows@.len() ==> row_carries_event(#[trigger] rows@[k], initial[k]),
            forall|k: int|
                0 <= k < rows@.len() && event_instant(initial[k]) is Some ==> (#[trigger] rows@[k]).timestamp_nanos
                    == event_instant(initial[k])->0,
    {
        rows.push(ClickEventRow::from(e));
    }
    rows
}

/// What tracking a batch of events comes to.
pub enum TrackPlan {
    /// An empty batch: nothing is stored.
    Nothing,
    /// The rows to store, one per event.
    Insert(Vec<ClickEventRow>),
}

/// Tracking an empty batch stores nothing; any other batch stores the rows
/// `prepare_rows` gives, whose number is the count reported back.
pub fn plan_track(events: Vec<IncomingEvent>) -> (r: TrackPlan)
    ensures
        match r {
            TrackPlan::Nothing => events@.len() == 0,
            TrackPlan::Insert(rows) => events@.len() > 0 && rows@.len() == events@.len() && (forall|k: int|
                0 <= k < rows@.len() ==> row_carries_event(#[trigger] rows@[k], events@[k])) && (forall|k: int|
                0 <= k < rows@.len() && event_instant(events@[k]) is Some ==> (#[trigger] rows@[k]).timestamp_nanos
                    == event_instant(events@[k])->0),
        },
{
    if events.len() == 0 {
        TrackPlan::Nothing
    } else {
        TrackPlan::Insert(prepare_rows(events))
    }
}

/// The funnel's results: each step with the number of sessions that reached it.
pub fn funnel_results(counts: Vec<(String, u64)>) -> (r: Vec<FunnelStepResult>)
    ensures
        r@.len() == counts@.len(),
        forall|k: int|
            0 <= k < r@.len() ==> (#[trigger] r@[k]).step_name == counts@[k].0 && r@[k].sessions_reached
                == counts@[k].1,
{
    let ghost initial = counts@;
    let mut results: Vec<FunnelStepResult> = Vec::new();
    for c in it: counts.into_iter()
        invariant
            it.seq() == initial,
            results@.len() == it.index(),
            forall|k: int|
                0 <= k < results@.len() ==> (#[trigger] results@[k]).step_name == initial[k].0
                    && results@[k].sessions_reached == initial[k].1,
    {
        let (step_name, sessions_reached) = c;
        results.push(FunnelStepResult { step_name, sessions_reached });
    }
    results
}

/// The report on `user_id`: their location and device from `metadata`
/// (`Unknown` throughout where they have no located event), their navigation,
/// clicks and way out.
pub fn build_user_report(
    user_id: String,
    metadata: Option<UserMetadataRow>,
    navigation_flow: Vec<NavigationFlowStep>,
    clicks: Vec<UserClickDetail>,
    exit_way: Option<ExitWayDetail>,
) -> (r: UserProfileReport)
    ensures
        r.user_id == user_id,
        r.navigation_flow == navigation_flow,
        r.clicks == clicks,
        r.exit_way == exit_way,
        match metadata {
            Some(m) => r.country == m.country && r.region == m.region && r.city == m.city
                && r.browser == m.browser && r.os == m.os && r.device_type == m.device_type,
            None => r.country@ == "Unknown"@ && r.region@ == "Unknown"@ && r.city@ == "Unknown"@
                && r.browser@ == "Unknown"@ && r.os@ == "Unknown"@ && r.device_type@ == "Unknown"@,
        },
{
    let meta = match metadata {
        Some(m) => m,
        None => UserMetadataRow::unknown(),
    };
    UserProfileReport {
        user_id,
        country: meta.country,
        region: meta.region,
        city: meta.city,
        browser: meta.browser,
        os: meta.os,
        device_type: meta.device_type,
        navigation_flow,
        clicks,
        exit_way,
    }
}

} // verus!
