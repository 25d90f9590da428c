//! The decisions of one listener: what to do after a bind, an accept, the
//! bytes of a header, a connect, a copy, a tick of the watchdog.
//!
//! Sockets, timers and tasks belong to the caller. It reports what happened;
//! the functions here change the books and say what to do next.

use crate::activetracker::{ActiveConnections, PeerAddr};
use crate::config::{Config, Forwarding, Listener};
use crate::healthcheck::{is_up, spec_select, HealthState};
use crate::idletracker::{
    clock_now, spec_expired, spec_limit, IdleTracker, MAX_DURATION_NANOS,
};
use crate::listener_stats::{spec_apply, spec_zero, ListenerStats, StatsEvent};
use crate::resolve::{spec_resolve, ResolveConfig};
use crate::text::{decimal, spec_decimal, str_eq};
use crate::tlsheader::{parse, pre_check, spec_parse, spec_pre_check, utf8_lossy, SniFailure};
use std::time::Instant;
use vstd::prelude::*;

verus! {

/// How often a bind that failed is tried again.
pub const MAX_BIND_RETRY: u32 = 3;

/// The pause before a bind is tried again, in milliseconds.
pub const BIND_RETRY_DELAY_MS: u64 = 100;

/// How long the start of a listener is waited for, in milliseconds.
pub const START_WAIT_MS: u64 = 1000;

/// The size of the buffer that a ClientHello is read into.
pub const HEADER_BUFFER_SIZE: usize = 1024;

/// How long a ClientHello is waited for, in milliseconds.
pub const HEADER_TIMEOUT_MS: u64 = 3000;

/// How long a connect to a backend may take, in milliseconds.
pub const CONNECT_TIMEOUT_MS: u64 = 5000;

/// The size of the buffer that bytes are copied through.
pub const PIPE_BUFFER_SIZE: usize = 4096;

/// The time between two looks of the watchdog, in milliseconds.
pub const WATCHDOG_TICK_MS: u64 = 500;

/// What to do after an attempt to bind.
#[derive(Debug, Clone, Copy, PartialEq, Eq, Structural)]
pub enum BindStep {
    /// The address is bound: report the start and accept connections.
    Serve,
    /// Wait `delay_ms`, then bind again; this is retry number `attempt`.
    Retry { attempt: u32, delay_ms: u64 },
    /// Report the failure and end.
    GiveUp,
}

/// What the task that binds reports to the one that waits for the start.
#[derive(Debug, Clone)]
pub enum StartSignal {
    /// The address is bound.
    Started,
    /// The address could not be bound, with the reason.
    Failed(String),
}

/// What happened while a ClientHello was read.
#[derive(Debug, Clone, Copy, PartialEq, Eq, Structural)]
pub enum HeaderEvent {
    /// Bytes arrived; they are at the end of what was received.
    Data,
    /// The client closed the connection.
    Eof,
    /// The time for the header ran out.
    Timeout,
}

/// What to do with the bytes of a header.
#[derive(Debug, Clone, Copy, PartialEq, Eq, Structural)]
pub enum HeaderStep {
    /// The record is complete: parse it.
    Complete,
    /// Read more.
    Continue,
    /// Close the connection.
    Reject,
}

/// Why a connection is closed before any byte is forwarded.
#[derive(Debug, Clone, Copy, PartialEq, Eq, Structural)]
pub enum Rejection {
    /// The bytes are not a ClientHello with a server name.
    Protocol(SniFailure),
    /// The policy of the listener does not admit the server name.
    Policy,
}

/// How an attempt to connect to a backend ended.
#[derive(Debug, Clone, Copy, PartialEq, Eq, Structural)]
pub enum ConnectOutcome {
    Connected,
    Failed,
    TimedOut,
}

/// What one round of a copy in one direction came to.
#[derive(Debug, Clone, Copy, PartialEq, Eq, Structural)]
pub enum PipeEvent {
    /// The read failed.
    ReadFailed,
    /// The read found the end of the stream.
    Eof,
    /// Bytes were read, but writing them failed.
    WriteFailed,
    /// As many bytes were read and written in full.
    Written(usize),
}

/// What the watchdog does at a tick.
#[derive(Debug, Clone, Copy, PartialEq, Eq, Structural)]
pub struct WatchdogAction {
    /// Abort the copy from the client to the backend.
    pub abort_upload: bool,
    /// Abort the copy from the backend to the client.
    pub abort_download: bool,
    /// The connection is over: the watchdog ends.
    pub exit: bool,
    /// The connection is ended for having been idle too long.
    pub idle_timeout: bool,
}

/// What became of an accepted socket.
#[derive(Debug, Clone, Copy, PartialEq, Eq, Structural)]
pub struct Accepted {
    /// The id minted for the socket.
    pub id: u64,
    /// Whether the socket was taken up as a connection. One without a peer
    /// address is dropped and counted nowhere.
    pub admitted: bool,
}

/// One listener to run: its name, its settings, and the idle limit that the
/// options give to its connections.
#[derive(Debug)]
pub struct Runner {
    pub name: String,
    pub listener: Listener,
    pub idle_timeout_ms: u64,
}

/// The step after an attempt to bind, `retries` retries having been made.
pub open spec fn spec_after_bind(bound: bool, retries: u32) -> BindStep {
    if bound {
        BindStep::Serve
    } else if retries < MAX_BIND_RETRY {
        BindStep::Retry { attempt: (retries + 1) as u32, delay_ms: BIND_RETRY_DELAY_MS }
    } else {
        BindStep::GiveUp
    }
}

/// The step after an event while a header is read, `received` being all the
/// bytes so far.
pub open spec fn spec_header_step(received: Seq<u8>, event: HeaderEvent) -> HeaderStep {
    match event {
        HeaderEvent::Data => if spec_pre_check(received) {
            HeaderStep::Complete
        } else if received.len() >= HEADER_BUFFER_SIZE {
            HeaderStep::Reject
        } else {
            HeaderStep::Continue
        },
        HeaderEvent::Eof => HeaderStep::Reject,
        HeaderEvent::Timeout => HeaderStep::Reject,
    }
}

/// The backend of a server name: the name with the overrides applied, a
/// colon, and the port.
pub open spec fn spec_sni_backend(table: Map<Seq<char>, Seq<char>>, host: Seq<char>, port: u16) -> Seq<
    char,
> {
    spec_resolve(table, host) + ":"@ + spec_decimal(port as nat)
}

/// Some address of one list is an address of the other.
pub open spec fn spec_is_self_loop(candidates: Seq<String>, self_ips: Seq<String>) -> bool {
    exists|i: int, j: int|
        0 <= i < candidates.len() && 0 <= j < self_ips.len() && (#[trigger] candidates[i])@ == (
        #[trigger] self_ips[j])@
}

/// What the watchdog does when it finds the two copies finished or not, and
/// the connection idle for too long or not. A copy that has finished takes
/// the other with it; else idleness ends both; else nothing happens.
pub open spec fn spec_watchdog(upload_finished: bool, download_finished: bool, expired: bool)
    -> WatchdogAction {
    if upload_finished || download_finished {
        WatchdogAction {
            abort_upload: !upload_finished,
            abort_download: !download_finished,
            exit: true,
            idle_timeout: false,
        }
    } else if expired {
        WatchdogAction { abort_upload: true, abort_download: true, exit: true, idle_timeout: true }
    } else {
        WatchdogAction {
            abort_upload: false,
            abort_download: false,
            exit: false,
            idle_timeout: false,
        }
    }
}

/// The change of the counters by `n` bytes written in one direction.
pub open spec fn spec_written(is_upload: bool, n: usize) -> StatsEvent {
    if is_upload {
        StatsEvent::Uploaded(n as nat)
    } else {
        StatsEvent::Downloaded(n as nat)
    }
}

/// The ids that `n` connections get from a counter that stands at `start`.
pub open spec fn spec_ids(start: nat, n: nat) -> Seq<nat> {
    Seq::new(n, |i: int| (start + 1 + i) as nat)
}

/// Every id is greater than all ids minted before it, and than the counter
/// they started from; and the ids of one more connection are the ids so far
/// and the id that the counter gives next.
pub proof fn lemma_ids_increase(start: nat, n: nat)
    ensures
        forall|i: int, j: int|
            0 <= i < j < n ==> (#[trigger] spec_ids(start, n)[i]) < (#[trigger] spec_ids(
                start,
                n,
            )[j]),
        forall|i: int| 0 <= i < n ==> start < #[trigger] spec_ids(start, n)[i],
        spec_ids(start, n + 1) == spec_ids(start, n) + spec_ids(start + n, 1),
{
    assert(spec_ids(start, n + 1) =~= spec_ids(start, n) + spec_ids(start + n, 1));
}

/// With the setting zero the watchdog never ends a connection for idleness:
/// while both copies run it does nothing, whatever the idle time in 64 bits
/// of milliseconds.
pub proof fn lemma_zero_limit_never_aborts(idle_nanos: u128)
    requires
        idle_nanos <= u64::MAX * 1_000_000,
    ensures
        spec_watchdog(false, false, spec_expired(idle_nanos, spec_limit(0))) == (WatchdogAction {
            abort_upload: false,
            abort_download: false,
            exit: false,
            idle_timeout: false,
        }),
{
}

/// Mints the next connection id.
pub fn id(counter: &mut u64) -> (next: u64)
    requires
        *old(counter) < u64::MAX,
    ensures
        next == *old(counter) + 1,
        next > *old(counter),
        *final(counter) == next,
        seq![next as nat] == spec_ids(*old(counter) as nat, 1),
{
    *counter = *counter + 1;
    assert(seq![*counter as nat] =~= spec_ids(*old(counter) as nat, 1));
    *counter
}

/// Tells what to do after an attempt to bind.
pub fn after_bind(bound: bool, retries: u32) -> (step: BindStep)
    ensures
        step == spec_after_bind(bound, retries),
{
    if bound {
        BindStep::Serve
    } else if retries < MAX_BIND_RETRY {
        BindStep::Retry { attempt: retries + 1, delay_ms: BIND_RETRY_DELAY_MS }
    } else {
        BindStep::GiveUp
    }
}

impl Runner {
    /// A runner for the listener `name`; its connections get the idle limit
    /// of the configuration's options.
    pub fn new(name: String, listener: Listener, config: &Config) -> (runner: Runner)
        ensures
            runner.name == name,
            runner.listener == listener,
            runner.idle_timeout_ms == config.options.max_idle_time_ms,
    {
        Runner { name, listener, idle_timeout_ms: config.options.max_idle_time_ms }
    }

    /// The candidates of a plain listener; none for another.
    pub fn targets(&self) -> (targets: Vec<String>)
        ensures
            targets@.len() == crate::healthcheck::targets_of(self.listener).len(),
            forall|i: int|
                0 <= i < targets@.len() ==> (#[trigger] targets@[i])@
                    == crate::healthcheck::targets_of(self.listener)[i]@,
    {
        let mut out: Vec<String> = Vec::new();
        match &self.listener.forwarding {
            Forwarding::Plain { targets } => {
                let mut i: usize = 0;
                while i < targets.len()
                    invariant
                        i <= targets@.len(),
                        out@.len() == i,
                        forall|k: int| 0 <= k < i ==> (#[trigger] out@[k])@ == targets@[k]@,
                    decreases targets@.len() - i,
                {
                    out.push(targets[i].clone());
                    i += 1;
                }
            },
            Forwarding::Sni { .. } => {},
        }
        out
    }

    /// Concludes the start of the listener from what the binding task
    /// reported within the time allowed, `None` standing for no report.
    ///
    /// A reported failure is the error. In every other case the listener
    /// counts as running and gets its counters, all zero.
    pub fn start(&self, signal: Option<StartSignal>) -> (r: Result<ListenerStats, String>)
        ensures
            match signal {
                Some(StartSignal::Failed(cause)) => r == Err::<ListenerStats, String>(cause),
                _ => r matches Ok(stats) && stats.name_text() == self.name@ && stats.idle_limit()
                    == self.idle_timeout_ms && stats.counters() == spec_zero(),
            },
    {
        match signal {
            Some(StartSignal::Failed(cause)) => Err(cause),
            _ => Ok(ListenerStats::new(self.name.as_str(), self.idle_timeout_ms)),
        }
    }

    /// Books an accepted socket: mints its id and, where the peer is known,
    /// counts the connection and notes its peer.
    pub fn on_accept(
        stats: &mut ListenerStats,
        active: &mut ActiveConnections,
        counter: &mut u64,
        peer: Option<PeerAddr>,
    ) -> (accepted: Accepted)
        requires
            *old(counter) < u64::MAX,
            old(stats).counters().total < usize::MAX,
        ensures
            accepted.id == *old(counter) + 1,
            *final(counter) == accepted.id,
            accepted.admitted == peer is Some,
            final(stats).name_text() == old(stats).name_text(),
            final(stats).idle_limit() == old(stats).idle_limit(),
            match peer {
                Some(addr) => final(stats).counters() == spec_apply(
                    old(stats).counters(),
                    StatsEvent::Opened,
                ) && final(active)@ == old(active)@.insert(accepted.id, addr),
                None => final(stats).counters() == old(stats).counters() && final(active)@ == old(active)@,
            },
    {
        let conn_id = id(counter);
        match peer {
            None => Accepted { id: conn_id, admitted: false },
            Some(addr) => {
                stats.increase_conn_count();
                active.put(conn_id, addr);
                Accepted { id: conn_id, admitted: true }
            },
        }
    }

    /// Books the end of a connection that was admitted.
    pub fn on_close(stats: &mut ListenerStats, active: &mut ActiveConnections, id: u64)
        requires
            old(stats).counters().active > 0,
        ensures
            final(stats).counters() == spec_apply(old(stats).counters(), StatsEvent::Closed),
            final(active)@ == old(active)@.remove(id),
            final(stats).name_text() == old(stats).name_text(),
            final(stats).idle_limit() == old(stats).idle_limit(),
    {
        stats.decrease_conn_count();
        active.remove(id);
    }

    /// Tells what to do after an event while a header is read. `received`
    /// holds every byte read so far. A buffer that frames a complete record
    /// is parsed at once, and nothing more is read.
    pub fn header_step(received: &[u8], event: HeaderEvent) -> (step: HeaderStep)
        ensures
            step == spec_header_step(received@, event),
            event == HeaderEvent::Data && spec_pre_check(received@) ==> step
                == HeaderStep::Complete,
    {
        match event {
            HeaderEvent::Data => {
                if pre_check(received) {
                    HeaderStep::Complete
                } else if received.len() >= HEADER_BUFFER_SIZE {
                    HeaderStep::Reject
                } else {
                    HeaderStep::Continue
                }
            },
            HeaderEvent::Eof => HeaderStep::Reject,
            HeaderEvent::Timeout => HeaderStep::Reject,
        }
    }

    /// Chooses the backend of a connection of a plain listener by the
    /// number `r`, and applies the overrides to it. Returns whether the
    /// choice is known to be up, and the address to dial.
    pub fn plain_target_at(
        health: &HealthState,
        table: &ResolveConfig,
        targets: &Vec<String>,
        r: usize,
    ) -> (choice: (bool, String))
        requires
            targets@.len() > 0,
        ensures
            choice.0 == spec_select(health.status(), targets@, r as nat).0,
            choice.1@ == spec_resolve(
                table@,
                targets@[spec_select(health.status(), targets@, r as nat).1]@,
            ),
            choice.0 ==> is_up(
                health.status(),
                targets@[spec_select(health.status(), targets@, r as nat).1]@,
            ),
    {
        let (ok, place) = health.select_at(targets, r);
        (ok, table.resolve(targets[place].as_str()))
    }

    /// Chooses the backend of a connection of a plain listener by chance,
    /// and applies the overrides to it. Whatever is drawn, the address is
    /// that of a candidate, and a choice marked `true` is of a candidate
    /// that is up.
    pub fn plain_target(
        health: &HealthState,
        table: &ResolveConfig,
        name: &str,
        targets: &Vec<String>,
    ) -> (choice: (bool, String))
        requires
            targets@.len() > 0,
        ensures
            exists|i: int|
                0 <= i < targets@.len() && choice.1@ == spec_resolve(
                    table@,
                    (#[trigger] targets@[i])@,
                ) && (choice.0 ==> is_up(health.status(), targets@[i]@)),
            !choice.0 ==> forall|i: int|
                0 <= i < targets@.len() ==> !is_up(health.status(), (#[trigger] targets@[i])@),
    {
        let (ok, chosen) = health.select(name, targets);
        (ok, table.resolve(chosen))
    }

    /// Finds the backend that a ClientHello asks for: parses it, asks the
    /// policy of the listener, applies the overrides to the server name and
    /// appends the target port.
    pub fn sni_target(listener: &Listener, table: &ResolveConfig, hello: &[u8]) -> (r: Result<
        String,
        Rejection,
    >)
        requires
            listener.forwarding is Sni,
        ensures
            match r {
                Ok(target) => spec_parse(hello@) is Ok && listener.spec_is_allowed(
                    utf8_lossy(spec_parse(hello@)->Ok_0),
                ) && target@ == spec_sni_backend(
                    table@,
                    utf8_lossy(spec_parse(hello@)->Ok_0),
                    listener.forwarding->target_port,
                ),
                Err(Rejection::Protocol(reason)) => spec_parse(hello@) == Err::<
                    Seq<u8>,
                    SniFailure,
                >(reason),
                Err(Rejection::Policy) => spec_parse(hello@) is Ok && !listener.spec_is_allowed(
                    utf8_lossy(spec_parse(hello@)->Ok_0),
                ),
            },
    {
        let hello = match parse(hello) {
            Err(e) => {
                return Err(Rejection::Protocol(e.reason));
            },
            Ok(hello) => hello,
        };
        if !listener.is_allowed(hello.sni_host.as_str()) {
            return Err(Rejection::Policy);
        }
        let port = match &listener.forwarding {
            Forwarding::Sni { target_port, .. } => *target_port,
            Forwarding::Plain { .. } => 0,
        };
        let resolved = table.resolve(hello.sni_host.as_str());
        let number = decimal(port as usize);
        Ok(resolved.concat(":").concat(number.as_str()))
    }

    /// Tells whether a backend would be the gateway itself: whether one of
    /// the addresses that it resolves to is one of the gateway's own.
    pub fn is_self_loop(candidates: &Vec<String>, self_ips: &Vec<String>) -> (looped: bool)
        ensures
            looped == spec_is_self_loop(candidates@, self_ips@),
    {
        let mut i: usize = 0;
        while i < candidates.len()
            invariant
                i <= candidates@.len(),
                forall|a: int, b: int|
                    0 <= a < i && 0 <= b < self_ips@.len() ==> (#[trigger] candidates@[a])@ != (
                    #[trigger] self_ips@[b])@,
            decreases candidates@.len() - i,
        {
            let mut j: usize = 0;
            while j < self_ips.len()
                invariant
                    i < candidates@.len(),
                    j <= self_ips@.len(),
                    forall|b: int|
                        0 <= b < j ==> candidates@[i as int]@ != (#[trigger] self_ips@[b])@,
                decreases self_ips@.len() - j,
            {
                if str_eq(candidates[i].as_str(), self_ips[j].as_str()) {
                    return true;
                }
                j += 1;
            }
            i += 1;
        }
        false
    }

    /// Tells whether to forward after an attempt to connect: only where the
    /// connection was made.
    pub fn after_connect(outcome: ConnectOutcome) -> (forward: bool)
        ensures
            forward == (outcome == ConnectOutcome::Connected),
    {
        match outcome {
            ConnectOutcome::Connected => true,
            _ => false,
        }
    }

    /// Books bytes that were written in full at the moment `now`: in the
    /// counter of the connection, in the counters of the listener, and as
    /// activity at that moment.
    pub fn account_at(
        stats: &mut ListenerStats,
        counter: &mut u64,
        tracker: &mut IdleTracker,
        is_upload: bool,
        n: usize,
        now: Instant,
    )
        requires
            *old(counter) + n <= u64::MAX,
            is_upload ==> old(stats).counters().uploaded_bytes + n <= usize::MAX,
            !is_upload ==> old(stats).counters().downloaded_bytes + n <= usize::MAX,
        ensures
            *final(counter) == *old(counter) + n,
            final(stats).counters() == spec_apply(old(stats).counters(), spec_written(is_upload, n)),
            final(stats).name_text() == old(stats).name_text(),
            final(stats).idle_limit() == old(stats).idle_limit(),
            final(tracker).limit() == old(tracker).limit(),
            final(tracker).last_active() == now,
    {
        *counter = *counter + n as u64;
        if is_upload {
            stats.increase_uploaded_bytes(n);
        } else {
            stats.increase_downloaded_bytes(n);
        }
        tracker.mark_at(now);
    }

    /// Books bytes that were written in full: in the counter of the
    /// connection, in the counters of the listener, and as activity at this
    /// moment. The moment is read from the clock; the rest is what
    /// `account_at` does.
    pub fn account(
        stats: &mut ListenerStats,
        counter: &mut u64,
        tracker: &mut IdleTracker,
        is_upload: bool,
        n: usize,
    )
        requires
            *old(counter) + n <= u64::MAX,
            is_upload ==> old(stats).counters().uploaded_bytes + n <= usize::MAX,
            !is_upload ==> old(stats).counters().downloaded_bytes + n <= usize::MAX,
        ensures
            *final(counter) == *old(counter) + n,
            final(stats).counters() == spec_apply(old(stats).counters(), spec_written(is_upload, n)),
            final(stats).name_text() == old(stats).name_text(),
            final(stats).idle_limit() == old(stats).idle_limit(),
            final(tracker).limit() == old(tracker).limit(),
    {
        let now = clock_now();
        Self::account_at(stats, counter, tracker, is_upload, n, now);
    }

    /// Takes what one round of a copy came to at the moment `now`, and
    /// tells whether the copy goes on. Bytes count only when they were
    /// written in full, and then the moment is noted as activity; a failure or
    /// the end of the stream ends the copy and changes nothing.
    pub fn pipe_at(
        stats: &mut ListenerStats,
        counter: &mut u64,
        tracker: &mut IdleTracker,
        is_upload: bool,
        event: PipeEvent,
        now: Instant,
    ) -> (go_on: bool)
        requires
            event matches PipeEvent::Written(n) ==> {
                &&& *old(counter) + n <= u64::MAX
                &&& is_upload ==> old(stats).counters().uploaded_bytes + n <= usize::MAX
                &&& !is_upload ==> old(stats).counters().downloaded_bytes + n <= usize::MAX
            },
        ensures
            go_on == event is Written,
            final(stats).name_text() == old(stats).name_text(),
            final(stats).idle_limit() == old(stats).idle_limit(),
            final(tracker).limit() == old(tracker).limit(),
            match event {
                PipeEvent::Written(n) => {
                    &&& *final(counter) == *old(counter) + n
                    &&& final(stats).counters() == spec_apply(
                        old(stats).counters(),
                        spec_written(is_upload, n),
                    )
                    &&& final(tracker).last_active() == now
                },
                _ => {
                    &&& *final(counter) == *old(counter)
                    &&& final(stats).counters() == old(stats).counters()
                    &&& final(tracker).last_active() == old(tracker).last_active()
                },
            },
    {
        match event {
            PipeEvent::Written(n) => {
                Self::account_at(stats, counter, tracker, is_upload, n, now);
                true
            },
            _ => false,
        }
    }

    /// Takes what one round of a copy came to, and tells whether the copy
    /// goes on. Bytes count only when they were written in full, and then
    /// this moment, read from the clock, is noted as activity by `pipe_at`; a
    /// failure or the end of the stream ends the copy and changes nothing.
    pub fn pipe(
        stats: &mut ListenerStats,
        counter: &mut u64,
        tracker: &mut IdleTracker,
        is_upload: bool,
        event: PipeEvent,
    ) -> (go_on: bool)
        requires
            event matches PipeEvent::Written(n) ==> {
                &&& *old(counter) + n <= u64::MAX
                &&& is_upload ==> old(stats).counters().uploaded_bytes + n <= usize::MAX
                &&& !is_upload ==> old(stats).counters().downloaded_bytes + n <= usize::MAX
            },
        ensures
            go_on == event is Written,
            final(stats).name_text() == old(stats).name_text(),
            final(stats).idle_limit() == old(stats).idle_limit(),
            final(tracker).limit() == old(tracker).limit(),
            match event {
                PipeEvent::Written(n) => {
                    &&& *final(counter) == *old(counter) + n
                    &&& final(stats).counters() == spec_apply(
                        old(stats).counters(),
                        spec_written(is_upload, n),
                    )
                },
                _ => {
                    &&& *final(counter) == *old(counter)
                    &&& final(stats).counters() == old(stats).counters()
                    &&& final(tracker).last_active() == old(tracker).last_active()
                },
            },
    {
        match event {
            PipeEvent::Written(_) => {
                let now = clock_now();
                Self::pipe_at(stats, counter, tracker, is_upload, event, now)
            },
            _ => false,
        }
    }

    /// Tells what the watchdog does when it finds the two copies finished or
    /// not, and the connection idle for too long or not.
    pub fn watchdog(upload_finished: bool, download_finished: bool, expired: bool) -> (action:
        WatchdogAction)
        ensures
            action == spec_watchdog(upload_finished, download_finished, expired),
    {
        if upload_finished || download_finished {
            WatchdogAction {
                abort_upload: !upload_finished,
                abort_download: !download_finished,
                exit: true,
                idle_timeout: false,
            }
        } else if expired {
            WatchdogAction {
                abort_upload: true,
                abort_download: true,
                exit: true,
                idle_timeout: true,
            }
        } else {
            WatchdogAction {
                abort_upload: false,
                abort_download: false,
                exit: false,
                idle_timeout: false,
            }
        }
    }

    /// One tick of the watchdog: looks at the two copies and, only while
    /// both run, at the clock of the idle tracker. Whatever the clock says,
    /// a copy that has finished takes the other with it and is not reported
    /// as idleness; and with a tracker whose limit is off idleness ends
    /// nothing.
    pub fn run_idle_tracker(upload_finished: bool, download_finished: bool, tracker: &IdleTracker)
        -> (action: WatchdogAction)
        ensures
            upload_finished || download_finished ==> action == spec_watchdog(
                upload_finished,
                download_finished,
                false,
            ),
            !upload_finished && !download_finished ==> exists|idle_nanos: u128|
                idle_nanos <= MAX_DURATION_NANOS && action == spec_watchdog(
                    false,
                    false,
                    spec_expired(idle_nanos, tracker.limit()),
                ),
            tracker.limit() == u64::MAX ==> action == spec_watchdog(
                upload_finished,
                download_finished,
                false,
            ),
    {
        if upload_finished || download_finished {
            Self::watchdog(upload_finished, download_finished, false)
        } else {
            let expired = tracker.is_expired();
            Self::watchdog(false, false, expired)
        }
    }
}

} // verus!
