//! The lifecycle of the gateway: stopped, starting, started, stopping; and
//! the books that belong to a run: the counters of the listeners, how their
//! starts ended, the open connections, the overrides, the health of the
//! backends, and the group of tasks.
//!
//! A `Manager` is the one context of a gateway. Whoever owns the sockets
//! and tasks keeps it behind a lock, reports events to it, and carries out
//! what it answers.

use crate::activetracker::{ActiveConnections, PeerAddr};
use crate::config::Config;
use crate::controller::{
    spec_cancel, spec_is_live, spec_size, spec_spawn, spec_spawned_handle, Controller, GroupState,
    TaskHandle,
};
use crate::healthcheck::{spec_all_targets, HealthState, HostStatus};
use crate::idletracker::{clock_now, IdleTracker};
use crate::listener_stats::{spec_apply, Counters, ListenerStats, StatsEvent, StatsSerde};
use crate::resolve::ResolveConfig;
use crate::resolver::spec_overrides;
use crate::runner::{spec_written, Accepted, PipeEvent, Runner};
use crate::strmap::StringMap;
use crate::text::str_eq;
use std::time::Instant;
use vstd::prelude::*;

verus! {

/// The state of the lifecycle.
#[allow(non_camel_case_types)]
#[derive(Debug, PartialEq, Eq, Structural, Clone, Copy)]
pub enum Status {
    STARTING,
    STARTED,
    STOPPING,
    STOPPED,
}

/// Why the gateway did not start.
#[derive(Debug, PartialEq, Eq, Structural, Clone, Copy)]
pub enum LifecycleError {
    /// A run is under way: the gateway is not stopped.
    StillRunning,
}

impl LifecycleError {
    /// What the error says.
    pub fn message(&self) -> (text: String)
        ensures
            text@ == "failed to start, still running"@,
    {
        "failed to start, still running".to_string()
    }
}

/// How the start of a listener ended, with the reason of a failure as text.
pub open spec fn outcome_view(outcome: Result<bool, String>) -> Result<bool, Seq<char>> {
    match outcome {
        Ok(b) => Ok(b),
        Err(cause) => Err(cause@),
    }
}

/// The books of a gateway as mathematical values.
pub struct ManagerState {
    pub status: Status,
    pub listeners: Seq<ListenerStats>,
    pub listener_status: Map<Seq<char>, Result<bool, Seq<char>>>,
    pub active: Map<u64, PeerAddr>,
    pub group: GroupState,
    pub overrides: Map<Seq<char>, Seq<char>>,
    pub hosts: Set<Seq<char>>,
    pub health: Map<Seq<char>, HostStatus>,
    pub last_id: nat,
}

/// A gateway that is stopped has no listener, no start on record and no
/// open connection.
pub open spec fn spec_wf(s: ManagerState) -> bool {
    s.status == Status::STOPPED ==> s.listeners.len() == 0 && s.listener_status == Map::<
        Seq<char>,
        Result<bool, Seq<char>>,
    >::empty() && s.active == Map::<u64, PeerAddr>::empty()
}

/// The books after a stop: nothing changes where the gateway is stopped;
/// else the registries and the open connections are cleared, the group of
/// tasks is cancelled, and the gateway is stopped.
pub open spec fn spec_stop(s: ManagerState) -> ManagerState {
    if s.status == Status::STOPPED {
        s
    } else {
        ManagerState {
            status: Status::STOPPED,
            listeners: Seq::empty(),
            listener_status: Map::empty(),
            active: Map::empty(),
            group: spec_cancel(s.group),
            ..s
        }
    }
}

/// The books after the first phase of a start from a configuration.
pub open spec fn spec_start(s: ManagerState, config: Config) -> ManagerState {
    ManagerState {
        status: Status::STARTING,
        listeners: Seq::empty(),
        listener_status: Map::empty(),
        active: Map::empty(),
        overrides: spec_overrides(config.dns.keys(), config.dns.values(), config.dns.keys().len()),
        hosts: spec_all_targets(config.listeners.values(), config.listeners.values().len()),
        health: Map::empty(),
        ..s
    }
}

/// The place of the first listener of a name among the counters, or the
/// length where there is none.
pub open spec fn spec_find(listeners: Seq<ListenerStats>, name: Seq<char>, from: nat) -> nat
    decreases listeners.len() - from,
{
    if from >= listeners.len() {
        listeners.len()
    } else if listeners[from as int].name_text() == name {
        from
    } else {
        spec_find(listeners, name, from + 1)
    }
}

/// Stopping twice is stopping once.
pub proof fn lemma_stop_idempotent(s: ManagerState)
    ensures
        spec_stop(spec_stop(s)) == spec_stop(s),
{
}

/// After a stop the gateway is stopped and no connection is on the books.
pub proof fn lemma_stop_clears(s: ManagerState)
    requires
        spec_wf(s),
    ensures
        spec_stop(s).status == Status::STOPPED,
        spec_stop(s).active == Map::<u64, PeerAddr>::empty(),
        spec_stop(s).listeners.len() == 0,
        spec_wf(spec_stop(s)),
{
}

/// The context of one gateway.
#[derive(Debug)]
pub struct Manager {
    status: Status,
    listeners: Vec<ListenerStats>,
    listeners_status: StringMap<Result<bool, String>>,
    controller: Controller,
    active: ActiveConnections,
    resolver: ResolveConfig,
    health: HealthState,
    ids: u64,
}

impl Manager {
    #[verifier::type_invariant]
    spec fn stopped_is_empty(&self) -> bool {
        self.status == Status::STOPPED ==> self.listeners@.len() == 0
            && self.listeners_status@.dom() =~= Set::<Seq<char>>::empty() && self.active@
            =~= Map::<u64, PeerAddr>::empty()
    }

    /// The books as mathematical values.
    pub closed spec fn view(&self) -> ManagerState {
        ManagerState {
            status: self.status,
            listeners: self.listeners@,
            listener_status: Map::new(
                |k: Seq<char>| self.listeners_status@.contains_key(k),
                |k: Seq<char>| outcome_view(self.listeners_status@[k]),
            ),
            active: self.active@,
            group: self.controller@,
            overrides: self.resolver@,
            hosts: self.health.hosts(),
            health: self.health.status(),
            last_id: self.ids as nat,
        }
    }

    /// The names with a start on record, in the order in which they came.
    pub closed spec fn listener_names(&self) -> Seq<Seq<char>> {
        self.listeners_status.keys()
    }

    /// The books are in order: a gateway that is stopped has no listener, no
    /// start on record and no open connection. This holds of every
    /// `Manager`.
    pub open spec fn wf(&self) -> bool {
        spec_wf(self@)
    }

    /// A gateway that is stopped and has run nothing yet.
    pub fn new() -> (m: Self)
        ensures
            m.wf(),
            m@.status == Status::STOPPED,
            m@.listeners.len() == 0,
            m@.active == Map::<u64, PeerAddr>::empty(),
            m@.group == (GroupState { floor: 0, next: 0 }),
            m@.overrides == Map::<Seq<char>, Seq<char>>::empty(),
            m@.hosts == Set::<Seq<char>>::empty(),
            m@.health == Map::<Seq<char>, HostStatus>::empty(),
            m@.last_id == 0,
    {
        let m = Manager {
            status: Status::STOPPED,
            listeners: Vec::new(),
            listeners_status: StringMap::new(),
            controller: Controller::new(),
            active: ActiveConnections::new(),
            resolver: ResolveConfig::new(),
            health: HealthState::new(),
            ids: 0,
        };
        assert(m@.listener_status =~= Map::<Seq<char>, Result<bool, Seq<char>>>::empty());
        m
    }

    /// The state of the lifecycle.
    pub fn get_run_status(&self) -> (status: Status)
        ensures
            status == self@.status,
            self.wf(),
    {
        proof {
            use_type_invariant(self);
            assert(self@.listener_status.dom() =~= self.listeners_status@.dom());
            if self.status == Status::STOPPED {
                assert(self@.listener_status =~= Map::<
                    Seq<char>,
                    Result<bool, Seq<char>>,
                >::empty());
            }
        }
        self.status
    }

    /// The number of tasks ever spawned, which is the number that the next
    /// task gets.
    pub fn next_task(&self) -> (n: u64)
        ensures
            n == self@.group.next,
    {
        self.controller.next_serial()
    }

    /// The number of tasks in the group of tasks as it is now.
    pub fn spawned(&self) -> (n: u64)
        ensures
            n == spec_size(self@.group),
    {
        self.controller.spawned()
    }

    /// The id of the connection that was opened last.
    pub fn last_id(&self) -> (id: u64)
        ensures
            id == self@.last_id,
    {
        self.ids
    }

    /// The overrides of the run.
    pub fn resolver(&self) -> (table: &ResolveConfig)
        ensures
            table@ == self@.overrides,
    {
        &self.resolver
    }

    /// The health of the backends of the run.
    pub fn health(&self) -> (health: &HealthState)
        ensures
            health.hosts() == self@.hosts,
            health.status() == self@.health,
    {
        &self.health
    }

    /// Takes the results of one round of probes into the health of the
    /// backends.
    pub fn record_health(&mut self, results: &Vec<(String, bool)>, now: i64)
        ensures
            final(self)@ == (ManagerState {
                health: crate::healthcheck::spec_record(
                    old(self)@.health,
                    results@,
                    results@.len(),
                    now,
                ),
                ..old(self)@
            }),
    {
        proof {
            use_type_invariant(&*self);
        }
        let mut health = HealthState::new();
        core::mem::swap(&mut self.health, &mut health);
        health.record(results, now);
        core::mem::swap(&mut self.health, &mut health);
    }

    /// The open connections.
    pub fn active(&self) -> (active: &ActiveConnections)
        ensures
            active@ == self@.active,
    {
        &self.active
    }

    /// Begins a run. Only a gateway that is stopped starts; another answers
    /// `StillRunning` and changes nothing. On success the registries and the
    /// open connections are cleared, the overrides and the hosts to probe
    /// are those of the configuration, and the gateway is starting.
    pub fn start(&mut self, config: &Config) -> (r: Result<(), LifecycleError>)
        ensures
            old(self)@.status != Status::STOPPED ==> r == Err::<(), LifecycleError>(
                LifecycleError::StillRunning,
            ) && *final(self) == *old(self),
            old(self)@.status == Status::STOPPED ==> r is Ok && final(self)@ == spec_start(
                old(self)@,
                *config,
            ),
            final(self).wf(),
    {
        proof {
            use_type_invariant(&*self);
        }
        if self.status != Status::STOPPED {
            return Err(LifecycleError::StillRunning);
        }
        let mut table = ResolveConfig::new();
        crate::resolver::init(&mut table, config);
        let mut health = HealthState::new();
        crate::healthcheck::init(&mut health, config);
        self.status = Status::STARTING;
        self.listeners = Vec::new();
        self.listeners_status = StringMap::new();
        self.active = ActiveConnections::new();
        self.resolver = table;
        self.health = health;
        proof {
            assert(self@.listener_status =~= Map::<Seq<char>, Result<bool, Seq<char>>>::empty());
            assert(self@.listeners =~= Seq::<ListenerStats>::empty());
        }
        Ok(())
    }

    /// Puts the start of one listener on record: its counters where it
    /// runs, and how the start ended under its name. A gateway that is
    /// stopped takes nothing on record. Tells whether the start was taken on
    /// record.
    pub fn listener_started(&mut self, name: &str, outcome: Result<ListenerStats, String>) -> (taken:
        bool)
        ensures
            taken == (old(self)@.status != Status::STOPPED),
            !taken ==> *final(self) == *old(self),
            taken ==> final(self)@ == (ManagerState {
                listeners: match outcome {
                    Ok(stats) => old(self)@.listeners.push(stats),
                    Err(_) => old(self)@.listeners,
                },
                listener_status: old(self)@.listener_status.insert(
                    name@,
                    match outcome {
                        Ok(_) => Ok(true),
                        Err(cause) => Err(cause@),
                    },
                ),
                ..old(self)@
            }),
            final(self).wf(),
    {
        proof {
            use_type_invariant(&*self);
            assert(self@.listener_status.dom() =~= self.listeners_status@.dom());
        }
        if self.status == Status::STOPPED {
            assert(self@.listener_status =~= Map::<Seq<char>, Result<bool, Seq<char>>>::empty());
            return false;
        }
        let mut listeners: Vec<ListenerStats> = Vec::new();
        core::mem::swap(&mut self.listeners, &mut listeners);
        let mut status: StringMap<Result<bool, String>> = StringMap::new();
        core::mem::swap(&mut self.listeners_status, &mut status);
        match outcome {
            Ok(stats) => {
                listeners.push(stats);
                status.insert(name.to_string(), Ok(true));
            },
            Err(cause) => {
                status.insert(name.to_string(), Err(cause));
            },
        }
        core::mem::swap(&mut self.listeners, &mut listeners);
        core::mem::swap(&mut self.listeners_status, &mut status);
        proof {
            assert(self@.listener_status =~= old(self)@.listener_status.insert(
                name@,
                match outcome {
                    Ok(_) => Ok(true),
                    Err(cause) => Err(cause@),
                },
            ));
        }
        true
    }

    /// Ends the start: a gateway that is starting is started. Returns how
    /// the start of each listener ended.
    pub fn started(&mut self) -> (outcomes: Vec<(String, Result<bool, String>)>)
        ensures
            final(self)@ == (ManagerState {
                status: if old(self)@.status == Status::STARTING {
                    Status::STARTED
                } else {
                    old(self)@.status
                },
                ..old(self)@
            }),
            final(self).wf(),
            outcomes@.len() == final(self).listener_names().len(),
            forall|i: int|
                0 <= i < outcomes@.len() ==> (#[trigger] outcomes@[i]).0@ == final(self).listener_names()[i] && final(self)@.listener_status.contains_key(outcomes@[i].0@)
                    && outcome_view(outcomes@[i].1) == final(self)@.listener_status[outcomes@[i].0@],
    {
        proof {
            use_type_invariant(&*self);
            assert(self@.listener_status.dom() =~= self.listeners_status@.dom());
            if self.status == Status::STOPPED {
                assert(self@.listener_status =~= Map::<
                    Seq<char>,
                    Result<bool, Seq<char>>,
                >::empty());
            }
        }
        if self.status == Status::STARTING {
            self.status = Status::STARTED;
        }
        self.get_listener_status()
    }

    /// How the start of each listener ended, by name, in the order in which
    /// the names came.
    pub fn get_listener_status(&self) -> (outcomes: Vec<(String, Result<bool, String>)>)
        ensures
            outcomes@.len() == self.listener_names().len(),
            outcomes@.len() == self@.listener_status.dom().len(),
            forall|i: int|
                0 <= i < outcomes@.len() ==> (#[trigger] outcomes@[i]).0@
                    == self.listener_names()[i] && self@.listener_status.contains_key(
                    outcomes@[i].0@,
                ) && outcome_view(outcomes@[i].1) == self@.listener_status[outcomes@[i].0@],
    {
        let n = self.listeners_status.len();
        proof {
            assert(self@.listener_status.dom() =~= self.listeners_status@.dom());
        }
        let mut outcomes: Vec<(String, Result<bool, String>)> = Vec::new();
        let mut i: usize = 0;
        while i < n
            invariant
                i <= n,
                n == self.listeners_status.keys().len(),
                outcomes@.len() == i,
                forall|k: int|
                    0 <= k < i ==> (#[trigger] outcomes@[k]).0@ == self.listeners_status.keys()[k]
                        && self.listeners_status@.contains_key(outcomes@[k].0@) && outcome_view(
                        outcomes@[k].1,
                    ) == outcome_view(self.listeners_status@[outcomes@[k].0@]),
            decreases n - i,
        {
            let name = self.listeners_status.key_at(i);
            let copy = match self.listeners_status.value_at(i) {
                Ok(result) => {
                    if *result {
                        Ok(true)
                    } else {
                        Ok(false)
                    }
                },
                Err(some_cause) => Err(some_cause.clone()),
            };
            outcomes.push((name.clone(), copy));
            i += 1;
        }
        outcomes
    }

    /// The place of the first listener of a name among the counters.
    fn find(&self, name: &str) -> (place: usize)
        ensures
            place == spec_find(self@.listeners, name@, 0),
            place <= self@.listeners.len(),
            place < self@.listeners.len() ==> self@.listeners[place as int].name_text() == name@,
    {
        let mut i: usize = 0;
        while i < self.listeners.len()
            invariant
                i <= self.listeners@.len(),
                spec_find(self.listeners@, name@, 0) == spec_find(self.listeners@, name@, i as nat),
            decreases self.listeners@.len() - i,
        {
            if str_eq(self.listeners[i].name().as_str(), name) {
                return i;
            }
            i += 1;
        }
        i
    }

    /// The counters of the first listener of a name.
    pub fn get_stats(&self, name: &str) -> (stats: Option<&ListenerStats>)
        ensures
            match stats {
                Some(s) => spec_find(self@.listeners, name@, 0) < self@.listeners.len() && *s
                    == self@.listeners[spec_find(self@.listeners, name@, 0) as int],
                None => spec_find(self@.listeners, name@, 0) == self@.listeners.len(),
            },
    {
        let place = self.find(name);
        if place < self.listeners.len() {
            Some(&self.listeners[place])
        } else {
            None
        }
    }

    /// Tells whether no listener of a name has counters on the books.
    pub fn is_running(&self, name: &str) -> (none: bool)
        ensures
            none == (spec_find(self@.listeners, name@, 0) == self@.listeners.len()),
    {
        self.get_stats(name).is_none()
    }

    /// The counters of every listener at this moment, in the order in which
    /// the listeners started.
    pub fn get_listener_stats(&self) -> (all: Vec<StatsSerde>)
        ensures
            all@.len() == self@.listeners.len(),
            forall|i: int|
                0 <= i < all@.len() ==> (#[trigger] all@[i]).name@
                    == self@.listeners[i].name_text() && all@[i].counters()
                    == self@.listeners[i].counters(),
    {
        let mut all: Vec<StatsSerde> = Vec::new();
        let mut i: usize = 0;
        while i < self.listeners.len()
            invariant
                i <= self.listeners@.len(),
                all@.len() == i,
                forall|k: int|
                    0 <= k < i ==> (#[trigger] all@[k]).name@ == self.listeners@[k].name_text()
                        && all@[k].counters() == self.listeners@[k].counters(),
            decreases self.listeners@.len() - i,
        {
            all.push(StatsSerde::from(&self.listeners[i]));
            i += 1;
        }
        all
    }

    /// Takes a new task into the group of tasks and returns its handle.
    pub fn spawn(&mut self) -> (handle: TaskHandle)
        requires
            old(self)@.group.next < u64::MAX,
        ensures
            final(self)@ == (ManagerState { group: spec_spawn(old(self)@.group), ..old(self)@ }),
            handle@ == spec_spawned_handle(old(self)@.group),
            spec_is_live(final(self)@.group, handle@),
    {
        proof {
            use_type_invariant(&*self);
        }
        let mut controller = self.controller;
        let handle = controller.spawn();
        self.controller = controller;
        handle
    }

    /// Cancels the group of tasks. Returns the mark: every task with a
    /// smaller number is to be aborted.
    pub fn cancel(&mut self) -> (mark: u64)
        ensures
            final(self)@ == (ManagerState { group: spec_cancel(old(self)@.group), ..old(self)@ }),
            mark == old(self)@.group.next,
    {
        proof {
            use_type_invariant(&*self);
        }
        let mut controller = self.controller;
        let mark = controller.cancel();
        self.controller = controller;
        mark
    }

    /// Ends the run. A gateway that is stopped stays as it is, and nothing
    /// is to be aborted. Else the registries and the open connections are
    /// cleared, then the group of tasks is cancelled, and the gateway is
    /// stopped; the result is the mark below which every task is to be
    /// aborted.
    ///
    /// Afterwards the gateway is stopped and no connection is open.
    pub fn stop(&mut self) -> (aborted: Option<u64>)
        ensures
            final(self)@ == spec_stop(old(self)@),
            old(self)@.status == Status::STOPPED ==> aborted is None && *final(self) == *old(self),
            old(self)@.status != Status::STOPPED ==> aborted == Some(old(self)@.group.next as u64),
            final(self).wf(),
            final(self)@.status == Status::STOPPED,
            final(self)@.active == Map::<u64, PeerAddr>::empty(),
            final(self)@.listeners.len() == 0,
    {
        proof {
            use_type_invariant(&*self);
            assert(self@.listener_status.dom() =~= self.listeners_status@.dom());
        }
        if self.status == Status::STOPPED {
            assert(self@.listener_status =~= Map::<Seq<char>, Result<bool, Seq<char>>>::empty());
            return None;
        }
        self.status = Status::STOPPING;
        self.listeners = Vec::new();
        self.listeners_status = StringMap::new();
        self.active = ActiveConnections::new();
        let mut controller = self.controller;
        let aborted = controller.cancel();
        self.controller = controller;
        self.status = Status::STOPPED;
        proof {
            assert(self@.listener_status =~= Map::<Seq<char>, Result<bool, Seq<char>>>::empty());
            assert(self@.listeners =~= Seq::<ListenerStats>::empty());
        }
        Some(aborted)
    }

    /// Books a socket that the listener `name` accepted in the task
    /// `handle`. Nothing is booked, and no id is minted, for a task that
    /// was cancelled or a listener without counters.
    pub fn connection_opened(&mut self, handle: TaskHandle, name: &str, peer: Option<PeerAddr>)
        -> (accepted: Option<Accepted>)
        requires
            old(self)@.last_id < u64::MAX,
            spec_find(old(self)@.listeners, name@, 0) < old(self)@.listeners.len() ==> old(self)@.listeners[spec_find(old(self)@.listeners, name@, 0) as int].counters().total
                < usize::MAX,
        ensures
            final(self).wf(),
            ({
                let place = spec_find(old(self)@.listeners, name@, 0);
                if spec_is_live(old(self)@.group, handle@) && place < old(self)@.listeners.len() {
                    &&& accepted == Some(
                        Accepted { id: (old(self)@.last_id + 1) as u64, admitted: peer is Some },
                    )
                    &&& final(self)@.last_id == old(self)@.last_id + 1
                    &&& final(self)@.listeners.len() == old(self)@.listeners.len()
                    &&& forall|i: int|
                        0 <= i < old(self)@.listeners.len() && i != place ==> final(self)@.listeners[i] == old(self)@.listeners[i]
                    &&& final(self)@.listeners[place as int].name_text() == name@
                    &&& final(self)@.listeners[place as int].idle_limit() == old(self)@.listeners[place as int].idle_limit()
                    &&& final(self)@.listeners[place as int].counters() == (match peer {
                        Some(_) => spec_apply(
                            old(self)@.listeners[place as int].counters(),
                            StatsEvent::Opened,
                        ),
                        None => old(self)@.listeners[place as int].counters(),
                    })
                    &&& final(self)@.active == (match peer {
                        Some(addr) => old(self)@.active.insert(
                            (old(self)@.last_id + 1) as u64,
                            addr,
                        ),
                        None => old(self)@.active,
                    })
                    &&& final(self)@.status == old(self)@.status
                    &&& final(self)@.group == old(self)@.group
                } else {
                    accepted is None && *final(self) == *old(self)
                }
            }),
    {
        proof {
            use_type_invariant(&*self);
            assert(self@.listener_status.dom() =~= self.listeners_status@.dom());
            if self.status == Status::STOPPED {
                assert(self@.listener_status =~= Map::<
                    Seq<char>,
                    Result<bool, Seq<char>>,
                >::empty());
            }
        }
        if !self.controller.is_live(handle) {
            return None;
        }
        let place = self.find(name);
        if place >= self.listeners.len() {
            return None;
        }
        let mut listeners: Vec<ListenerStats> = Vec::new();
        core::mem::swap(&mut self.listeners, &mut listeners);
        let mut active = ActiveConnections::new();
        core::mem::swap(&mut self.active, &mut active);
        let mut ids = self.ids;
        let mut stats = listeners.remove(place);
        let accepted = Runner::on_accept(&mut stats, &mut active, &mut ids, peer);
        listeners.insert(place, stats);
        self.ids = ids;
        core::mem::swap(&mut self.listeners, &mut listeners);
        core::mem::swap(&mut self.active, &mut active);
        Some(accepted)
    }

    /// Books the end of the connection `id` of the listener `name`, as
    /// reported by the task `handle`. Nothing is booked for a task that was
    /// cancelled, a listener without counters, or a listener without open
    /// connections. Tells whether the end was booked.
    pub fn connection_closed(&mut self, handle: TaskHandle, name: &str, id: u64) -> (booked: bool)
        ensures
            final(self).wf(),
            ({
                let place = spec_find(old(self)@.listeners, name@, 0);
                if spec_is_live(old(self)@.group, handle@) && place < old(self)@.listeners.len()
                    && old(self)@.listeners[place as int].counters().active > 0 {
                    &&& booked
                    &&& final(self)@.listeners.len() == old(self)@.listeners.len()
                    &&& forall|i: int|
                        0 <= i < old(self)@.listeners.len() && i != place ==> final(self)@.listeners[i] == old(self)@.listeners[i]
                    &&& final(self)@.listeners[place as int].name_text() == name@
                    &&& final(self)@.listeners[place as int].idle_limit() == old(self)@.listeners[place as int].idle_limit()
                    &&& final(self)@.listeners[place as int].counters() == spec_apply(
                        old(self)@.listeners[place as int].counters(),
                        StatsEvent::Closed,
                    )
                    &&& final(self)@.active == old(self)@.active.remove(id)
                    &&& final(self)@.status == old(self)@.status
                    &&& final(self)@.group == old(self)@.group
                    &&& final(self)@.last_id == old(self)@.last_id
                } else {
                    !booked && *final(self) == *old(self)
                }
            }),
    {
        proof {
            use_type_invariant(&*self);
            assert(self@.listener_status.dom() =~= self.listeners_status@.dom());
            if self.status == Status::STOPPED {
                assert(self@.listener_status =~= Map::<
                    Seq<char>,
                    Result<bool, Seq<char>>,
                >::empty());
            }
        }
        if !self.controller.is_live(handle) {
            return false;
        }
        let place = self.find(name);
        if place >= self.listeners.len() {
            return false;
        }
        if self.listeners[place].active_count() == 0 {
            return false;
        }
        let mut listeners: Vec<ListenerStats> = Vec::new();
        core::mem::swap(&mut self.listeners, &mut listeners);
        let mut active = ActiveConnections::new();
        core::mem::swap(&mut self.active, &mut active);
        let mut stats = listeners.remove(place);
        Runner::on_close(&mut stats, &mut active, id);
        listeners.insert(place, stats);
        core::mem::swap(&mut self.listeners, &mut listeners);
        core::mem::swap(&mut self.active, &mut active);
        true
    }

    /// Takes what one round of a copy of the listener `name` came to at the
    /// moment `now`, as reported by the task `handle`, and tells whether the
    /// copy goes on. Bytes written in full are booked in the counter of the
    /// connection and in the counters of the listener, and the moment is
    /// noted as activity. The copy of a task that was cancelled, or of a
    /// listener without counters, ends and books nothing.
    pub fn pipe_at(
        &mut self,
        handle: TaskHandle,
        name: &str,
        counter: &mut u64,
        tracker: &mut IdleTracker,
        is_upload: bool,
        event: PipeEvent,
        now: Instant,
    ) -> (go_on: bool)
        requires
            event matches PipeEvent::Written(n) ==> {
                &&& *old(counter) + n <= u64::MAX
                &&& spec_find(old(self)@.listeners, name@, 0) < old(self)@.listeners.len() ==> {
                    let stats = old(self)@.listeners[spec_find(
                        old(self)@.listeners,
                        name@,
                        0,
                    ) as int].counters();
                    &&& is_upload ==> stats.uploaded_bytes + n <= usize::MAX
                    &&& !is_upload ==> stats.downloaded_bytes + n <= usize::MAX
                }
            },
        ensures
            final(self).wf(),
            final(tracker).limit() == old(tracker).limit(),
            ({
                let place = spec_find(old(self)@.listeners, name@, 0);
                if spec_is_live(old(self)@.group, handle@) && place < old(self)@.listeners.len()
                    && event is Written {
                    &&& go_on
                    &&& *final(counter) == *old(counter) + event->Written_0
                    &&& final(tracker).last_active() == now
                    &&& final(self)@.listeners.len() == old(self)@.listeners.len()
                    &&& forall|i: int|
                        0 <= i < old(self)@.listeners.len() && i != place ==> final(self)@.listeners[i] == old(self)@.listeners[i]
                    &&& final(self)@.listeners[place as int].name_text() == name@
                    &&& final(self)@.listeners[place as int].idle_limit() == old(self)@.listeners[place as int].idle_limit()
                    &&& final(self)@.listeners[place as int].counters() == spec_apply(
                        old(self)@.listeners[place as int].counters(),
                        spec_written(is_upload, event->Written_0),
                    )
                    &&& final(self)@.active == old(self)@.active
                    &&& final(self)@.status == old(self)@.status
                    &&& final(self)@.group == old(self)@.group
                    &&& final(self)@.last_id == old(self)@.last_id
                } else {
                    &&& !go_on
                    &&& *final(self) == *old(self)
                    &&& *final(counter) == *old(counter)
                    &&& final(tracker).last_active() == old(tracker).last_active()
                }
            }),
    {
        proof {
            use_type_invariant(&*self);
            assert(self@.listener_status.dom() =~= self.listeners_status@.dom());
            if self.status == Status::STOPPED {
                assert(self@.listener_status =~= Map::<
                    Seq<char>,
                    Result<bool, Seq<char>>,
                >::empty());
            }
        }
        if !self.controller.is_live(handle) {
            return false;
        }
        let place = self.find(name);
        if place >= self.listeners.len() {
            return false;
        }
        match event {
            PipeEvent::Written(_) => {
                let mut listeners: Vec<ListenerStats> = Vec::new();
                core::mem::swap(&mut self.listeners, &mut listeners);
                let mut stats = listeners.remove(place);
                let go_on = Runner::pipe_at(&mut stats, counter, tracker, is_upload, event, now);
                listeners.insert(place, stats);
                core::mem::swap(&mut self.listeners, &mut listeners);
                go_on
            },
            _ => false,
        }
    }

    /// Takes what one round of a copy of the listener `name` came to, as
    /// reported by the task `handle`, and tells whether the copy goes on.
    /// The moment is read from the clock, and only for bytes written in
    /// full; the rest is what `pipe_at` does.
    pub fn pipe(
        &mut self,
        handle: TaskHandle,
        name: &str,
        counter: &mut u64,
        tracker: &mut IdleTracker,
        is_upload: bool,
        event: PipeEvent,
    ) -> (go_on: bool)
        requires
            event matches PipeEvent::Written(n) ==> {
                &&& *old(counter) + n <= u64::MAX
                &&& spec_find(old(self)@.listeners, name@, 0) < old(self)@.listeners.len() ==> {
                    let stats = old(self)@.listeners[spec_find(
                        old(self)@.listeners,
                        name@,
                        0,
                    ) as int].counters();
                    &&& is_upload ==> stats.uploaded_bytes + n <= usize::MAX
                    &&& !is_upload ==> stats.downloaded_bytes + n <= usize::MAX
                }
            },
        ensures
            final(self).wf(),
            final(tracker).limit() == old(tracker).limit(),
            ({
                let place = spec_find(old(self)@.listeners, name@, 0);
                if spec_is_live(old(self)@.group, handle@) && place < old(self)@.listeners.len()
                    && event is Written {
                    &&& go_on
                    &&& *final(counter) == *old(counter) + event->Written_0
                    &&& final(self)@.listeners.len() == old(self)@.listeners.len()
                    &&& forall|i: int|
                        0 <= i < old(self)@.listeners.len() && i != place ==> final(self)@.listeners[i] == old(self)@.listeners[i]
                    &&& final(self)@.listeners[place as int].name_text() == name@
                    &&& final(self)@.listeners[place as int].idle_limit() == old(self)@.listeners[place as int].idle_limit()
                    &&& final(self)@.listeners[place as int].counters() == spec_apply(
                        old(self)@.listeners[place as int].counters(),
                        spec_written(is_upload, event->Written_0),
                    )
                    &&& final(self)@.active == old(self)@.active
                    &&& final(self)@.status == old(self)@.status
                    &&& final(self)@.group == old(self)@.group
                    &&& final(self)@.last_id == old(self)@.last_id
                } else {
                    &&& !go_on
                    &&& *final(self) == *old(self)
                    &&& *final(counter) == *old(counter)
                    &&& final(tracker).last_active() == old(tracker).last_active()
                }
            }),
    {
        proof {
            use_type_invariant(&*self);
            assert(self@.listener_status.dom() =~= self.listeners_status@.dom());
            if self.status == Status::STOPPED {
                assert(self@.listener_status =~= Map::<
                    Seq<char>,
                    Result<bool, Seq<char>>,
                >::empty());
            }
        }
        match event {
            PipeEvent::Written(_) => {
                if !self.controller.is_live(handle) {
                    return false;
                }
                if self.find(name) >= self.listeners.len() {
                    return false;
                }
                let now = clock_now();
                self.pipe_at(handle, name, counter, tracker, is_upload, event, now)
            },
            _ => false,
        }
    }
}

} // verus!
