//! The event store: a ClickHouse client, and the bookkeeping of the funnel
//! count, which asks the store one question per step.

use clickhouse::Client;
use vstd::prelude::*;

verus! {

#[verifier::external_type_specification]
#[verifier::external_body]
pub struct ExClient(Client);

/// `<Client as Clone>::clone`: a handle to the same server with the same
/// settings. Nothing about the copy is stated.
pub assume_specification[ <Client as Clone>::clone ](client: &Client) -> Client;

/// Shared application state: the client of the event store.
#[derive(Clone)]
pub struct AppState {
    pub clickhouse: Client,
}

/// Access to the stored click events.
#[derive(Clone)]
pub struct EventRepository {
    client: Client,
}

impl EventRepository {
    pub closed spec fn spec_client(&self) -> Client {
        self.client
    }

    pub fn new(client: Client) -> (r: EventRepository)
        ensures
            r.spec_client() == client,
    {
        Self { client }
    }

    /// The client the repository queries through.
    pub fn client(&self) -> (r: &Client)
        ensures
            *r == self.spec_client(),
    {
        &self.client
    }
}

/// The progress of a funnel count: the steps to count, in order, and the
/// number of sessions counted so far for each of the first ones.
pub struct FunnelProgress {
    steps: Vec<String>,
    counts: Vec<(String, u64)>,
}

impl FunnelProgress {
    /// The steps of the funnel.
    pub closed spec fn steps(&self) -> Seq<Seq<char>> {
        self.steps@.map_values(|s: String| s@)
    }

    /// The counts recorded so far, each with its step.
    pub closed spec fn counts(&self) -> Seq<(Seq<char>, u64)> {
        self.counts@.map_values(|c: (String, u64)| (c.0@, c.1))
    }

    #[verifier::type_invariant]
    closed spec fn counts_follow_steps(&self) -> bool {
        &&& self.counts@.len() <= self.steps@.len()
        &&& forall|k: int|
            0 <= k < self.counts@.len() ==> (#[trigger] self.counts@[k]).0@ == self.steps@[k]@
    }

    /// A count of `steps` with nothing counted yet.
    pub fn new(steps: Vec<String>) -> (r: FunnelProgress)
        ensures
            r.steps() == steps@.map_values(|s: String| s@),
            r.counts() == Seq::<(Seq<char>, u64)>::empty(),
    {
        let r = FunnelProgress { steps, counts: Vec::new() };
        assert(r.counts() =~= Seq::<(Seq<char>, u64)>::empty());
        r
    }

    /// The step to count next, or `None` where every step is counted.
    pub fn next_step(&self) -> (r: Option<&String>)
        ensures
            self.counts().len() <= self.steps().len(),
            match r {
                Some(s) => self.counts().len() < self.steps().len() && s@ == self.steps()[self.counts().len() as int],
                None => self.counts().len() == self.steps().len(),
            },
    {
        proof {
            use_type_invariant(self);
        }
        if self.counts.len() < self.steps.len() {
            Some(&self.steps[self.counts.len()])
        } else {
            None
        }
    }

    /// Records `sessions` as the count of the next step.
    pub fn record(&mut self, sessions: u64)
        requires
            old(self).counts().len() < old(self).steps().len(),
        ensures
            final(self).steps() == old(self).steps(),
            final(self).counts() == old(self).counts().push(
                (old(self).steps()[old(self).counts().len() as int], sessions),
            ),
    {
        proof {
            use_type_invariant(&*self);
        }
        let i = self.counts.len();
        let name = self.steps[i].clone();
        let ghost before = self.counts();
        let mut counts: Vec<(String, u64)> = Vec::new();
        std::mem::swap(&mut counts, &mut self.counts);
        counts.push((name, sessions));
        self.counts = counts;
        assert(self.counts() =~= before.push((self.steps()[i as int], sessions)));
    }

    /// The counts of all steps, each with its step, in order.
    pub fn into_counts(self) -> (r: Vec<(String, u64)>)
        requires
            self.counts().len() == self.steps().len(),
        ensures
            r@.map_values(|c: (String, u64)| (c.0@, c.1)) == self.counts(),
    {
        self.counts
    }
}

} // verus!
