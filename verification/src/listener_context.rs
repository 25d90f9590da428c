//! A listener that can be asked to end: its counters, whether it was asked,
//! and what whoever ends it does next.

use crate::listener_stats::{spec_apply, spec_zero, Counters, ListenerStats, StatsEvent};
use vstd::prelude::*;

verus! {

/// The pause, in milliseconds, while connections are still open.
pub const DRAIN_POLL_MS: u64 = 500;

/// The pause, in milliseconds, while an aborted task has not ended.
pub const ABORT_POLL_MS: u64 = 100;

/// A listener with its counters and the request to end.
#[derive(Debug)]
pub struct ListenerContext {
    stats: ListenerStats,
    cancel_requested: bool,
}

/// The counters of a listener at one moment, by name.
#[derive(Debug, Clone, PartialEq, Hash)]
pub struct Stats {
    name: String,
    total: usize,
    active: usize,
    downloaded_bytes: usize,
    uploaded_bytes: usize,
}

/// What to do next while a listener is being ended.
#[derive(Debug, Clone, Copy, PartialEq, Eq, Structural)]
pub enum CancelStep {
    /// Connections are open: look again after the pause.
    AwaitConnections { delay_ms: u64 },
    /// No connection is open and the task has ended by itself: done.
    Finished,
    /// No connection is open and the task still runs: abort it.
    Abort,
    /// The task was aborted and has not ended: look again after the pause.
    AwaitEnd { delay_ms: u64 },
    /// The task was aborted and has ended: done.
    Ended,
}

/// The step while a listener is ended, from the number of open connections,
/// whether its task has ended, and whether the task was aborted already.
pub open spec fn spec_cancel_step(active: nat, finished: bool, aborted: bool) -> CancelStep {
    if active > 0 {
        CancelStep::AwaitConnections { delay_ms: DRAIN_POLL_MS }
    } else if !aborted {
        if finished {
            CancelStep::Finished
        } else {
            CancelStep::Abort
        }
    } else if finished {
        CancelStep::Ended
    } else {
        CancelStep::AwaitEnd { delay_ms: ABORT_POLL_MS }
    }
}

impl Stats {
    /// The name of the listener.
    pub closed spec fn name_text(&self) -> Seq<char> {
        self.name@
    }

    /// The counters as numbers.
    pub closed spec fn counters(&self) -> Counters {
        Counters {
            total: self.total as nat,
            active: self.active as nat,
            downloaded_bytes: self.downloaded_bytes as nat,
            uploaded_bytes: self.uploaded_bytes as nat,
        }
    }

    /// Reads the counters of a listener.
    pub fn from(context: &ListenerContext) -> (snapshot: Self)
        ensures
            snapshot.name_text() == context.name_text(),
            snapshot.counters() == context.counters(),
    {
        Stats {
            name: context.stats.name().clone(),
            total: context.total_count(),
            active: context.active_count(),
            downloaded_bytes: context.downloaded_bytes_count(),
            uploaded_bytes: context.uploaded_bytes_count(),
        }
    }

    /// The name of the listener.
    pub fn name(&self) -> (name: &String)
        ensures
            name@ == self.name_text(),
    {
        &self.name
    }

    /// The four numbers: accepted, open, bytes to the client, bytes to the
    /// backend.
    pub fn numbers(&self) -> (n: (usize, usize, usize, usize))
        ensures
            n.0 == self.counters().total,
            n.1 == self.counters().active,
            n.2 == self.counters().downloaded_bytes,
            n.3 == self.counters().uploaded_bytes,
    {
        (self.total, self.active, self.downloaded_bytes, self.uploaded_bytes)
    }
}

impl ListenerContext {
    /// The name of the listener.
    pub closed spec fn name_text(&self) -> Seq<char> {
        self.stats.name_text()
    }

    /// The idle limit of the listener's connections, in milliseconds.
    pub closed spec fn idle_limit(&self) -> u64 {
        self.stats.idle_limit()
    }

    /// The counters as numbers.
    pub closed spec fn counters(&self) -> Counters {
        self.stats.counters()
    }

    /// Whether the listener was asked to end.
    pub closed spec fn asked(&self) -> bool {
        self.cancel_requested
    }

    /// A count from which a listener starts.
    fn newau() -> (zero: usize)
        ensures
            zero == 0,
    {
        0
    }

    /// A listener that has accepted nothing and was not asked to end.
    pub fn new(name: &str, idletimeout: u64) -> (context: Self)
        ensures
            context.name_text() == name@,
            context.idle_limit() == idletimeout,
            context.counters() == spec_zero(),
            !context.asked(),
    {
        let _ = Self::newau();
        ListenerContext { stats: ListenerStats::new(name, idletimeout), cancel_requested: false }
    }

    /// Tells whether the listener was asked to end.
    pub fn cancel_requested(&self) -> (asked: bool)
        ensures
            asked == self.asked(),
    {
        self.cancel_requested
    }

    /// Asks the listener to end, and tells what to do next: see
    /// `spec_cancel_step`. `finished` says whether the task of the listener
    /// has ended, `aborted` whether it was aborted already.
    pub fn cancel(&mut self, finished: bool, aborted: bool) -> (step: CancelStep)
        ensures
            final(self).asked(),
            final(self).counters() == old(self).counters(),
            final(self).name_text() == old(self).name_text(),
            final(self).idle_limit() == old(self).idle_limit(),
            step == spec_cancel_step(old(self).counters().active, finished, aborted),
    {
        self.cancel_requested = true;
        if self.stats.active_count() > 0 {
            CancelStep::AwaitConnections { delay_ms: DRAIN_POLL_MS }
        } else if !aborted {
            if finished {
                CancelStep::Finished
            } else {
                CancelStep::Abort
            }
        } else if finished {
            CancelStep::Ended
        } else {
            CancelStep::AwaitEnd { delay_ms: ABORT_POLL_MS }
        }
    }

    /// Counts a connection that was accepted, and returns the number that
    /// are open with it.
    pub fn increase_conn_count(&mut self) -> (active: usize)
        requires
            old(self).counters().total < usize::MAX,
        ensures
            final(self).counters() == spec_apply(old(self).counters(), StatsEvent::Opened),
            active == final(self).counters().active,
            final(self).name_text() == old(self).name_text(),
            final(self).idle_limit() == old(self).idle_limit(),
            final(self).asked() == old(self).asked(),
    {
        self.stats.increase_conn_count()
    }

    /// Counts a connection that ended, and returns the number that are
    /// still open.
    pub fn decrease_conn_count(&mut self) -> (active: usize)
        requires
            old(self).counters().active > 0,
        ensures
            final(self).counters() == spec_apply(old(self).counters(), StatsEvent::Closed),
            active == final(self).counters().active,
            final(self).name_text() == old(self).name_text(),
            final(self).idle_limit() == old(self).idle_limit(),
            final(self).asked() == old(self).asked(),
    {
        self.stats.decrease_conn_count()
    }

    /// The number of connections accepted so far.
    pub fn total_count(&self) -> (total: usize)
        ensures
            total == self.counters().total,
            total >= self.counters().active,
    {
        self.stats.total_count()
    }

    /// The number of connections that are open.
    pub fn active_count(&self) -> (active: usize)
        ensures
            active == self.counters().active,
    {
        self.stats.active_count()
    }

    /// Counts bytes sent to the backend, and returns the new sum.
    pub fn increase_uploaded_bytes(&mut self, count: usize) -> (sum: usize)
        requires
            old(self).counters().uploaded_bytes + count <= usize::MAX,
        ensures
            final(self).counters() == spec_apply(
                old(self).counters(),
                StatsEvent::Uploaded(count as nat),
            ),
            sum == final(self).counters().uploaded_bytes,
            final(self).name_text() == old(self).name_text(),
            final(self).idle_limit() == old(self).idle_limit(),
            final(self).asked() == old(self).asked(),
    {
        self.stats.increase_uploaded_bytes(count)
    }

    /// Counts bytes sent to the client, and returns the new sum.
    pub fn increase_downloaded_bytes(&mut self, count: usize) -> (sum: usize)
        requires
            old(self).counters().downloaded_bytes + count <= usize::MAX,
        ensures
            final(self).counters() == spec_apply(
                old(self).counters(),
                StatsEvent::Downloaded(count as nat),
            ),
            sum == final(self).counters().downloaded_bytes,
            final(self).name_text() == old(self).name_text(),
            final(self).idle_limit() == old(self).idle_limit(),
            final(self).asked() == old(self).asked(),
    {
        self.stats.increase_downloaded_bytes(count)
    }

    /// The number of bytes sent to the backend.
    pub fn uploaded_bytes_count(&self) -> (sum: usize)
        ensures
            sum == self.counters().uploaded_bytes,
    {
        self.stats.uploaded_bytes_count()
    }

    /// The number of bytes sent to the client.
    pub fn downloaded_bytes_count(&self) -> (sum: usize)
        ensures
            sum == self.counters().downloaded_bytes,
    {
        self.stats.downloaded_bytes_count()
    }
}

} // verus!
