//! The counters of one listener: connections accepted and open, bytes sent
//! each way.
//!
//! A counter changes through `&mut self` only, so every change is one step
//! that nothing can interleave with. What the steps do is stated over
//! `Counters`, the four numbers as mathematical integers, and what holds of
//! every sequence of steps is proved there.

use vstd::prelude::*;

verus! {

/// The four numbers of a listener.
pub struct Counters {
    pub total: nat,
    pub active: nat,
    pub downloaded_bytes: nat,
    pub uploaded_bytes: nat,
}

/// One change of the counters.
pub enum StatsEvent {
    /// A connection was accepted.
    Opened,
    /// A connection ended.
    Closed,
    /// Bytes went from the client to the backend.
    Uploaded(nat),
    /// Bytes went from the backend to the client.
    Downloaded(nat),
}

/// The counters after one change.
pub open spec fn spec_apply(c: Counters, e: StatsEvent) -> Counters {
    match e {
        StatsEvent::Opened => Counters { total: c.total + 1, active: c.active + 1, ..c },
        StatsEvent::Closed => Counters { active: (c.active - 1) as nat, ..c },
        StatsEvent::Uploaded(n) => Counters { uploaded_bytes: c.uploaded_bytes + n, ..c },
        StatsEvent::Downloaded(n) => Counters { downloaded_bytes: c.downloaded_bytes + n, ..c },
    }
}

/// The counters after the first `n` of a list of changes.
pub open spec fn spec_run(c: Counters, events: Seq<StatsEvent>, n: nat) -> Counters
    decreases n,
{
    if n == 0 {
        c
    } else {
        spec_apply(spec_run(c, events, (n - 1) as nat), events[n - 1])
    }
}

/// A list of changes in which a connection ends only while one is open.
pub open spec fn spec_valid_trace(c: Counters, events: Seq<StatsEvent>) -> bool {
    forall|k: int|
        0 <= k < events.len() && (#[trigger] events[k]) is Closed ==> spec_run(
            c,
            events,
            k as nat,
        ).active > 0
}

/// The counters that every listener starts from.
pub open spec fn spec_zero() -> Counters {
    Counters { total: 0, active: 0, downloaded_bytes: 0, uploaded_bytes: 0 }
}

/// At every point of a valid trace no more connections are open than were
/// accepted.
pub proof fn lemma_active_within_total(c: Counters, events: Seq<StatsEvent>, n: nat)
    requires
        c.active <= c.total,
        spec_valid_trace(c, events),
        n <= events.len(),
    ensures
        spec_run(c, events, n).active <= spec_run(c, events, n).total,
    decreases n,
{
    if n > 0 {
        lemma_active_within_total(c, events, (n - 1) as nat);
        assert(events[n - 1] is Closed ==> spec_run(c, events, (n - 1) as nat).active > 0);
    }
}

/// No counter but `active` ever goes down.
pub proof fn lemma_counters_monotone(c: Counters, events: Seq<StatsEvent>, i: nat, j: nat)
    requires
        i <= j <= events.len(),
    ensures
        spec_run(c, events, i).total <= spec_run(c, events, j).total,
        spec_run(c, events, i).uploaded_bytes <= spec_run(c, events, j).uploaded_bytes,
        spec_run(c, events, i).downloaded_bytes <= spec_run(c, events, j).downloaded_bytes,
    decreases j,
{
    if i < j {
        lemma_counters_monotone(c, events, i, (j - 1) as nat);
    }
}

/// The number of connections accepted is at least the number that was open
/// at any earlier point of the trace: the total covers the peak.
pub proof fn lemma_total_covers_peak(c: Counters, events: Seq<StatsEvent>, i: nat, j: nat)
    requires
        c.active <= c.total,
        spec_valid_trace(c, events),
        i <= j <= events.len(),
    ensures
        spec_run(c, events, j).active >= 0,
        spec_run(c, events, j).total >= spec_run(c, events, i).active,
{
    lemma_active_within_total(c, events, i);
    lemma_counters_monotone(c, events, i, j);
}

/// A connection that is opened and then ended leaves as many open as
/// before, and one more accepted; the bytes are as they were.
pub proof fn lemma_open_then_close(c: Counters)
    ensures
        spec_apply(c, StatsEvent::Opened).active == c.active + 1,
        spec_apply(c, StatsEvent::Opened).total == c.total + 1,
        spec_apply(spec_apply(c, StatsEvent::Opened), StatsEvent::Closed) == (Counters {
            total: c.total + 1,
            ..c
        }),
{
}

/// The counters of one listener, with its name and its idle limit.
#[derive(Debug)]
pub struct ListenerStats {
    name: String,
    idle_timeout_ms: u64,
    total: usize,
    active: usize,
    downloaded_bytes: usize,
    uploaded_bytes: usize,
}

/// The counters of a listener at one moment, by name.
#[derive(Clone, Debug)]
pub struct StatsSerde {
    pub name: String,
    pub total: usize,
    pub active: usize,
    pub downloaded_bytes: usize,
    pub uploaded_bytes: usize,
}

impl StatsSerde {
    /// The counters as numbers.
    pub open spec fn counters(&self) -> Counters {
        Counters {
            total: self.total as nat,
            active: self.active as nat,
            downloaded_bytes: self.downloaded_bytes as nat,
            uploaded_bytes: self.uploaded_bytes as nat,
        }
    }

    /// Reads the counters of a listener.
    pub fn from(input: &ListenerStats) -> (snapshot: Self)
        ensures
            snapshot.name@ == input.name_text(),
            snapshot.counters() == input.counters(),
    {
        StatsSerde {
            name: input.name.clone(),
            total: input.total_count(),
            active: input.active_count(),
            downloaded_bytes: input.downloaded_bytes_count(),
            uploaded_bytes: input.uploaded_bytes_count(),
        }
    }
}

impl ListenerStats {
    #[verifier::type_invariant]
    spec fn active_within_total(&self) -> bool {
        self.active <= self.total
    }

    /// The name of the listener.
    pub closed spec fn name_text(&self) -> Seq<char> {
        self.name@
    }

    /// The idle limit that connections of the listener get, in milliseconds.
    pub closed spec fn idle_limit(&self) -> u64 {
        self.idle_timeout_ms
    }

    /// The counters as numbers.
    pub closed spec fn counters(&self) -> Counters {
        Counters {
            total: self.total as nat,
            active: self.active as nat,
            downloaded_bytes: self.downloaded_bytes as nat,
            uploaded_bytes: self.uploaded_bytes as nat,
        }
    }

    /// A count from which a listener starts.
    fn newau() -> (zero: usize)
        ensures
            zero == 0,
    {
        0
    }

    /// The counters of a listener that has accepted nothing yet.
    pub fn new(name: &str, idletimeout: u64) -> (stats: Self)
        ensures
            stats.name_text() == name@,
            stats.idle_limit() == idletimeout,
            stats.counters() == spec_zero(),
    {
        ListenerStats {
            name: name.to_string(),
            idle_timeout_ms: idletimeout,
            total: Self::newau(),
            active: Self::newau(),
            downloaded_bytes: Self::newau(),
            uploaded_bytes: Self::newau(),
        }
    }

    /// The name of the listener.
    pub fn name(&self) -> (name: &String)
        ensures
            name@ == self.name_text(),
    {
        &self.name
    }

    /// The idle limit that connections of the listener get, in milliseconds.
    pub fn idle_timeout_ms(&self) -> (ms: u64)
        ensures
            ms == self.idle_limit(),
    {
        self.idle_timeout_ms
    }

    /// Counts a connection that was accepted, and returns the number that
    /// are open with it.
    pub fn increase_conn_count(&mut self) -> (active: usize)
        requires
            old(self).counters().total < usize::MAX,
        ensures
            final(self).counters() == spec_apply(old(self).counters(), StatsEvent::Opened),
            active == final(self).counters().active,
            final(self).name_text() == old(self).name_text(),
            final(self).idle_limit() == old(self).idle_limit(),
    {
        proof {
            use_type_invariant(&*self);
        }
        self.total = self.total + 1;
        self.active = self.active + 1;
        self.active
    }

    /// Counts a connection that ended, and returns the number that are
    /// still open.
    pub fn decrease_conn_count(&mut self) -> (active: usize)
        requires
            old(self).counters().active > 0,
        ensures
            final(self).counters() == spec_apply(old(self).counters(), StatsEvent::Closed),
            active == final(self).counters().active,
            final(self).name_text() == old(self).name_text(),
            final(self).idle_limit() == old(self).idle_limit(),
    {
        proof {
            use_type_invariant(&*self);
        }
        self.active = self.active - 1;
        self.active
    }

    /// The number of connections accepted so far. It is never below the
    /// number that are open.
    pub fn total_count(&self) -> (total: usize)
        ensures
            total == self.counters().total,
            total >= self.counters().active,
    {
        proof {
            use_type_invariant(self);
        }
        self.total
    }

    /// The number of connections that are open.
    pub fn active_count(&self) -> (active: usize)
        ensures
            active == self.counters().active,
            active <= self.counters().total,
    {
        proof {
            use_type_invariant(self);
        }
        self.active
    }

    /// Counts bytes sent to the backend, and returns the new sum.
    pub fn increase_uploaded_bytes(&mut self, count: usize) -> (sum: usize)
        requires
            old(self).counters().uploaded_bytes + count <= usize::MAX,
        ensures
            final(self).counters() == spec_apply(
                old(self).counters(),
                StatsEvent::Uploaded(count as nat),
            ),
            sum == final(self).counters().uploaded_bytes,
            sum >= old(self).counters().uploaded_bytes,
            final(self).name_text() == old(self).name_text(),
            final(self).idle_limit() == old(self).idle_limit(),
    {
        proof {
            use_type_invariant(&*self);
        }
        self.uploaded_bytes = self.uploaded_bytes + count;
        self.uploaded_bytes
    }

    /// Counts bytes sent to the client, and returns the new sum.
    pub fn increase_downloaded_bytes(&mut self, count: usize) -> (sum: usize)
        requires
            old(self).counters().downloaded_bytes + count <= usize::MAX,
        ensures
            final(self).counters() == spec_apply(
                old(self).counters(),
                StatsEvent::Downloaded(count as nat),
            ),
            sum == final(self).counters().downloaded_bytes,
            sum >= old(self).counters().downloaded_bytes,
            final(self).name_text() == old(self).name_text(),
            final(self).idle_limit() == old(self).idle_limit(),
    {
        proof {
            use_type_invariant(&*self);
        }
        self.downloaded_bytes = self.downloaded_bytes + count;
        self.downloaded_bytes
    }

    /// The number of bytes sent to the backend.
    pub fn uploaded_bytes_count(&self) -> (sum: usize)
        ensures
            sum == self.counters().uploaded_bytes,
    {
        self.uploaded_bytes
    }

    /// The number of bytes sent to the client.
    pub fn downloaded_bytes_count(&self) -> (sum: usize)
        ensures
            sum == self.counters().downloaded_bytes,
    {
        self.downloaded_bytes
    }
}

} // verus!
