//! Counters of a whole process and of single connections: how many
//! connections there were and are, and how many bytes went each way.

use crate::idletracker::{clock_now, nanos_since, MAX_DURATION_NANOS};
use crate::text::{decimal, spec_decimal};
use std::time::Instant;
use vstd::prelude::*;

verus! {

/// The numbers of a process.
pub struct Totals {
    pub last_id: nat,
    pub conn_count: nat,
    pub active_conn_count: nat,
    pub total_uploaded_bytes: nat,
    pub total_downloaded_bytes: nat,
}

/// The numbers of a process after a connection was opened.
pub open spec fn spec_opened(t: Totals) -> Totals {
    Totals {
        last_id: t.last_id + 1,
        conn_count: t.conn_count + 1,
        active_conn_count: t.active_conn_count + 1,
        ..t
    }
}

/// The text that names a connection: `conn` and its id.
pub open spec fn spec_id_str(id: nat) -> Seq<char> {
    "conn "@ + spec_decimal(id)
}

/// The counters of a process.
#[derive(Debug)]
pub struct GlobalStats {
    id_gen: usize,
    conn_count: usize,
    active_conn_count: usize,
    total_uploaded_bytes: usize,
    total_downloaded_bytes: usize,
}

/// The counters of one connection.
#[derive(Debug)]
pub struct ConnStats {
    id: usize,
    start: Instant,
    uploaded_bytes: usize,
    downloaded_bytes: usize,
}

/// A count that starts at `start`.
fn new_au(start: usize) -> (count: usize)
    ensures
        count == start,
{
    start
}

impl GlobalStats {
    #[verifier::type_invariant]
    spec fn active_within_count(&self) -> bool {
        self.active_conn_count <= self.conn_count
    }

    /// The counters as numbers.
    pub closed spec fn view(&self) -> Totals {
        Totals {
            last_id: self.id_gen as nat,
            conn_count: self.conn_count as nat,
            active_conn_count: self.active_conn_count as nat,
            total_uploaded_bytes: self.total_uploaded_bytes as nat,
            total_downloaded_bytes: self.total_downloaded_bytes as nat,
        }
    }

    /// The counters of a process that has seen no connection.
    pub fn new() -> (stats: GlobalStats)
        ensures
            stats@ == (Totals {
                last_id: 0,
                conn_count: 0,
                active_conn_count: 0,
                total_uploaded_bytes: 0,
                total_downloaded_bytes: 0,
            }),
    {
        GlobalStats {
            id_gen: new_au(0),
            conn_count: new_au(0),
            active_conn_count: new_au(0),
            total_downloaded_bytes: new_au(0),
            total_uploaded_bytes: new_au(0),
        }
    }

    /// Mints the id of the next connection.
    fn gen_conn_id(&mut self) -> (id: usize)
        requires
            old(self)@.last_id < usize::MAX,
        ensures
            id == old(self)@.last_id + 1,
            final(self)@ == (Totals { last_id: id as nat, ..old(self)@ }),
    {
        proof {
            use_type_invariant(&*self);
        }
        self.id_gen = self.id_gen + 1;
        self.id_gen
    }

    /// Counts a connection that was opened.
    fn increase_conn_count(&mut self) -> (count: usize)
        requires
            old(self)@.conn_count < usize::MAX,
        ensures
            count == old(self)@.conn_count + 1,
            final(self)@ == (Totals { conn_count: count as nat, ..old(self)@ }),
    {
        proof {
            use_type_invariant(&*self);
        }
        self.conn_count = self.conn_count + 1;
        self.conn_count
    }

    /// The number of connections there were.
    pub fn conn_count(&self) -> (count: usize)
        ensures
            count == self@.conn_count,
            count >= self@.active_conn_count,
    {
        proof {
            use_type_invariant(self);
        }
        self.conn_count
    }

    /// Counts a connection as open. Every open connection was counted as
    /// opened before.
    fn increase_active_conn_count(&mut self) -> (count: usize)
        requires
            old(self)@.active_conn_count < old(self)@.conn_count,
        ensures
            count == old(self)@.active_conn_count + 1,
            final(self)@ == (Totals { active_conn_count: count as nat, ..old(self)@ }),
    {
        proof {
            use_type_invariant(&*self);
        }
        self.active_conn_count = self.active_conn_count + 1;
        self.active_conn_count
    }

    /// Counts an open connection as closed.
    fn decrease_active_conn_count(&mut self) -> (count: usize)
        requires
            old(self)@.active_conn_count > 0,
        ensures
            count == old(self)@.active_conn_count - 1,
            final(self)@ == (Totals { active_conn_count: count as nat, ..old(self)@ }),
    {
        proof {
            use_type_invariant(&*self);
        }
        self.active_conn_count = self.active_conn_count - 1;
        self.active_conn_count
    }

    /// The number of connections that are open.
    pub fn active_conn_count(&self) -> (count: usize)
        ensures
            count == self@.active_conn_count,
    {
        self.active_conn_count
    }

    /// Counts bytes sent to clients.
    fn add_downloaded_bytes(&mut self, new: usize) -> (sum: usize)
        requires
            old(self)@.total_downloaded_bytes + new <= usize::MAX,
        ensures
            sum == old(self)@.total_downloaded_bytes + new,
            final(self)@ == (Totals { total_downloaded_bytes: sum as nat, ..old(self)@ }),
    {
        proof {
            use_type_invariant(&*self);
        }
        self.total_downloaded_bytes = self.total_downloaded_bytes + new;
        self.total_downloaded_bytes
    }

    /// The number of bytes sent to clients.
    pub fn total_downloaded_bytes(&self) -> (sum: usize)
        ensures
            sum == self@.total_downloaded_bytes,
    {
        self.total_downloaded_bytes
    }

    /// Counts bytes sent to backends.
    fn add_uploaded_bytes(&mut self, new: usize) -> (sum: usize)
        requires
            old(self)@.total_uploaded_bytes + new <= usize::MAX,
        ensures
            sum == old(self)@.total_uploaded_bytes + new,
            final(self)@ == (Totals { total_uploaded_bytes: sum as nat, ..old(self)@ }),
    {
        proof {
            use_type_invariant(&*self);
        }
        self.total_uploaded_bytes = self.total_uploaded_bytes + new;
        self.total_uploaded_bytes
    }

    /// The number of bytes sent to backends.
    pub fn total_uploaded_bytes(&self) -> (sum: usize)
        ensures
            sum == self@.total_uploaded_bytes,
    {
        self.total_uploaded_bytes
    }
}

impl ConnStats {
    /// The id of the connection.
    pub closed spec fn spec_id(&self) -> nat {
        self.id as nat
    }

    /// The bytes that the connection sent to its backend.
    pub closed spec fn spec_uploaded(&self) -> nat {
        self.uploaded_bytes as nat
    }

    /// The bytes that the connection sent to its client.
    pub closed spec fn spec_downloaded(&self) -> nat {
        self.downloaded_bytes as nat
    }

    /// The moment at which the connection was opened.
    pub closed spec fn spec_start(&self) -> Instant {
        self.start
    }

    /// Opens a connection at the moment `now`: counts it in the process as
    /// opened and as open, and gives it the next id and counters at zero.
    pub fn new_at(gstat: &mut GlobalStats, now: Instant) -> (stats: ConnStats)
        requires
            old(gstat)@.conn_count < usize::MAX,
            old(gstat)@.last_id < usize::MAX,
        ensures
            final(gstat)@ == spec_opened(old(gstat)@),
            stats.spec_id() == old(gstat)@.last_id + 1,
            stats.spec_uploaded() == 0,
            stats.spec_downloaded() == 0,
            stats.spec_start() == now,
    {
        proof {
            use_type_invariant(&*gstat);
        }
        gstat.increase_conn_count();
        gstat.increase_active_conn_count();
        ConnStats {
            id: gstat.gen_conn_id(),
            start: now,
            uploaded_bytes: new_au(0),
            downloaded_bytes: new_au(0),
        }
    }

    /// Opens a connection at this moment, which is read from the clock; the
    /// rest is what `new_at` does.
    pub fn new(gstat: &mut GlobalStats) -> (stats: ConnStats)
        requires
            old(gstat)@.conn_count < usize::MAX,
            old(gstat)@.last_id < usize::MAX,
        ensures
            final(gstat)@ == spec_opened(old(gstat)@),
            stats.spec_id() == old(gstat)@.last_id + 1,
            stats.spec_uploaded() == 0,
            stats.spec_downloaded() == 0,
    {
        let now = clock_now();
        Self::new_at(gstat, now)
    }

    /// Closes the connection: it no longer counts as open in the process.
    pub fn close(self, gstat: &mut GlobalStats)
        requires
            old(gstat)@.active_conn_count > 0,
        ensures
            final(gstat)@ == (Totals {
                active_conn_count: (old(gstat)@.active_conn_count - 1) as nat,
                ..old(gstat)@
            }),
    {
        gstat.decrease_active_conn_count();
    }

    /// The time since the connection was opened, in nanoseconds, as the
    /// clock gives it. It is within what a `Duration` can hold.
    pub fn elapsed(&self) -> (nanos: u128)
        ensures
            nanos <= MAX_DURATION_NANOS,
    {
        nanos_since(&self.start)
    }

    /// The text that names the connection.
    pub fn id_str(&self) -> (text: String)
        ensures
            text@ == spec_id_str(self.spec_id()),
    {
        let id = self.id;
        let number = decimal(id);
        "conn ".to_string().concat(number.as_str())
    }

    /// The id of the connection.
    pub fn id(&self) -> (id: usize)
        ensures
            id == self.spec_id(),
    {
        self.id
    }

    /// Counts bytes sent to the client, here and in the process, and
    /// returns the sum of the connection.
    pub fn add_downloaded_bytes(&mut self, gstat: &mut GlobalStats, new: usize) -> (sum: usize)
        requires
            old(self).spec_downloaded() + new <= usize::MAX,
            old(gstat)@.total_downloaded_bytes + new <= usize::MAX,
        ensures
            sum == old(self).spec_downloaded() + new,
            final(self).spec_downloaded() == sum,
            final(self).spec_uploaded() == old(self).spec_uploaded(),
            final(self).spec_id() == old(self).spec_id(),
            final(gstat)@ == (Totals {
                total_downloaded_bytes: (old(gstat)@.total_downloaded_bytes + new) as nat,
                ..old(gstat)@
            }),
    {
        self.downloaded_bytes = self.downloaded_bytes + new;
        gstat.add_downloaded_bytes(new);
        self.downloaded_bytes
    }

    /// Counts bytes sent to the backend, here and in the process, and
    /// returns the sum of the connection.
    pub fn add_uploaded_bytes(&mut self, gstat: &mut GlobalStats, new: usize) -> (sum: usize)
        requires
            old(self).spec_uploaded() + new <= usize::MAX,
            old(gstat)@.total_uploaded_bytes + new <= usize::MAX,
        ensures
            sum == old(self).spec_uploaded() + new,
            final(self).spec_uploaded() == sum,
            final(self).spec_downloaded() == old(self).spec_downloaded(),
            final(self).spec_id() == old(self).spec_id(),
            final(gstat)@ == (Totals {
                total_uploaded_bytes: (old(gstat)@.total_uploaded_bytes + new) as nat,
                ..old(gstat)@
            }),
    {
        self.uploaded_bytes = self.uploaded_bytes + new;
        gstat.add_uploaded_bytes(new);
        self.uploaded_bytes
    }

    /// The bytes that the connection sent to its client.
    pub fn downloaded_bytes(&self) -> (sum: usize)
        ensures
            sum == self.spec_downloaded(),
    {
        self.downloaded_bytes
    }

    /// The bytes that the connection sent to its backend.
    pub fn uploaded_bytes(&self) -> (sum: usize)
        ensures
            sum == self.spec_uploaded(),
    {
        self.uploaded_bytes
    }
}

} // verus!
