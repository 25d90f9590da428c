//! What the gateway knows of its backends: the hosts that are probed, what
//! the last probes found, and the choice of a backend among candidates.
//!
//! Probing itself is done by whoever owns the sockets. This module says which
//! hosts to probe, takes the results, and decides.

use crate::config::{Config, Forwarding, Listener};
use crate::resolve::{spec_resolve, ResolveConfig};
use crate::strmap::StringMap;
use vstd::prelude::*;

verus! {

/// How long a probe may take, in milliseconds.
pub const PROBE_TIMEOUT_MS: u64 = 5000;

/// The pause between two rounds of probes, in milliseconds.
pub const CHECK_PAUSE_MS: u64 = 5000;

/// What is known of one host: whether the last change found it reachable,
/// and when that was, in milliseconds since the Unix epoch.
#[derive(Debug, Clone, Copy, PartialEq, Eq, Structural)]
pub struct HostStatus {
    pub up: bool,
    pub last_changed: i64,
}

/// How an attempt to reach a host ended.
#[derive(Debug, Clone, Copy, PartialEq, Eq, Structural)]
pub enum ProbeOutcome {
    /// The connection was made.
    Connected,
    /// The connection was refused or failed.
    Failed,
    /// No answer came within the time allowed.
    TimedOut,
    /// The attempt was given up before it ended.
    Cancelled,
}

/// The hosts that are probed, and the status of those that a probe has
/// reported on.
#[derive(Debug)]
pub struct HealthState {
    hosts: StringMap<()>,
    status: StringMap<HostStatus>,
}

/// The targets of a listener: those of a plain listener, none of another.
pub open spec fn targets_of(listener: Listener) -> Seq<String> {
    match listener.forwarding {
        Forwarding::Plain { targets } => targets@,
        Forwarding::Sni { .. } => Seq::empty(),
    }
}

/// The texts of a list of strings.
pub open spec fn texts(list: Seq<String>) -> Set<Seq<char>> {
    Set::new(|h: Seq<char>| exists|j: int| 0 <= j < list.len() && (#[trigger] list[j])@ == h)
}

/// Every target of the first `n` listeners.
pub open spec fn spec_all_targets(listeners: Seq<Listener>, n: nat) -> Set<Seq<char>>
    decreases n,
{
    if n == 0 {
        Set::empty()
    } else {
        spec_all_targets(listeners, (n - 1) as nat).union(texts(targets_of(listeners[n - 1])))
    }
}

/// A host is known to be up.
pub open spec fn is_up(status: Map<Seq<char>, HostStatus>, host: Seq<char>) -> bool {
    status.contains_key(host) && status[host].up
}

/// The status after one probe result: an entry is written where the host
/// had none, or had the other state; else nothing changes.
pub open spec fn spec_record_one(
    status: Map<Seq<char>, HostStatus>,
    host: Seq<char>,
    up: bool,
    now: i64,
) -> Map<Seq<char>, HostStatus> {
    if status.contains_key(host) && status[host].up == up {
        status
    } else {
        status.insert(host, HostStatus { up, last_changed: now })
    }
}

/// The status after the first `n` of a list of probe results, taken in
/// order.
pub open spec fn spec_record(
    status: Map<Seq<char>, HostStatus>,
    results: Seq<(String, bool)>,
    n: nat,
    now: i64,
) -> Map<Seq<char>, HostStatus>
    decreases n,
{
    if n == 0 {
        status
    } else {
        spec_record_one(
            spec_record(status, results, (n - 1) as nat, now),
            results[n - 1].0@,
            results[n - 1].1,
            now,
        )
    }
}

/// The places among the first `n` candidates whose host is known to be up,
/// in order.
pub open spec fn up_places(status: Map<Seq<char>, HostStatus>, what: Seq<String>, n: nat) -> Seq<
    int,
>
    decreases n,
{
    if n == 0 {
        Seq::empty()
    } else if is_up(status, what[n - 1]@) {
        up_places(status, what, (n - 1) as nat).push(n - 1)
    } else {
        up_places(status, what, (n - 1) as nat)
    }
}

/// The choice that a number `r` makes among candidates: the `r`-th, counted
/// round, of those known to be up; or, where none is, the `r`-th of all,
/// marked as not known to be up.
pub open spec fn spec_select(status: Map<Seq<char>, HostStatus>, what: Seq<String>, r: nat) -> (
    bool,
    int,
) {
    let live = up_places(status, what, what.len());
    if live.len() == 0 {
        (false, (r % what.len()) as int)
    } else {
        (true, live[(r % live.len()) as int])
    }
}

/// What is reported of a host at time `now`: its status, or "up since now"
/// where no probe has reported on it.
pub open spec fn spec_status_or(status: Map<Seq<char>, HostStatus>, host: Seq<char>, now: i64) -> (
    bool,
    i64,
) {
    if status.contains_key(host) {
        (status[host].up, status[host].last_changed)
    } else {
        (true, now)
    }
}

/// Every place in `up_places` is a place of a candidate that is up, and
/// every such place is in it.
pub proof fn lemma_up_places(status: Map<Seq<char>, HostStatus>, what: Seq<String>, n: nat)
    requires
        n <= what.len(),
    ensures
        up_places(status, what, n).len() <= n,
        forall|k: int|
            0 <= k < up_places(status, what, n).len() ==> 0 <= #[trigger] up_places(
                status,
                what,
                n,
            )[k] < n && is_up(status, what[up_places(status, what, n)[k]]@),
        forall|i: int|
            0 <= i < n && is_up(status, (#[trigger] what[i])@) ==> up_places(
                status,
                what,
                n,
            ).contains(i),
    decreases n,
{
    if n > 0 {
        let prev = up_places(status, what, (n - 1) as nat);
        lemma_up_places(status, what, (n - 1) as nat);
        let cur = up_places(status, what, n);
        assert forall|i: int| 0 <= i < n && is_up(status, (#[trigger] what[i])@) implies cur.contains(
            i,
        ) by {
            if i < n - 1 {
                let k = prev.index_of(i);
                assert(cur[k] == i);
            } else {
                assert(cur[cur.len() - 1] == i);
            }
        }
    }
}

/// A choice marked as up is a candidate that is up; a choice not so marked
/// is made only where no candidate is up, and is still a candidate.
pub proof fn lemma_select_sound(status: Map<Seq<char>, HostStatus>, what: Seq<String>, r: nat)
    requires
        what.len() > 0,
    ensures
        0 <= spec_select(status, what, r).1 < what.len(),
        spec_select(status, what, r).0 ==> is_up(status, what[spec_select(status, what, r).1]@),
        !spec_select(status, what, r).0 ==> forall|i: int|
            0 <= i < what.len() ==> !is_up(status, (#[trigger] what[i])@),
{
    lemma_up_places(status, what, what.len());
    let live = up_places(status, what, what.len());
    if live.len() == 0 {
        assert forall|i: int| 0 <= i < what.len() implies !is_up(status, (#[trigger] what[i])@) by {
            if is_up(status, what[i]@) {
                assert(live.contains(i));
            }
        }
    } else {
        let k = (r % live.len()) as int;
        assert(0 <= live[k] < what.len());
    }
}

/// `rand::random::<usize>()`: a number drawn by chance. Nothing is known of
/// it.
#[verifier::external_body]
pub(crate) fn random_usize() -> usize {
    rand::random::<usize>()
}

/// `chrono::Local::now()`, read as milliseconds since the Unix epoch with
/// `DateTime::timestamp_millis`. The value depends on the clock; nothing is
/// known of it.
#[verifier::external_body]
fn now_millis() -> i64 {
    chrono::Local::now().timestamp_millis()
}

impl HealthState {
    /// The hosts that are probed.
    pub closed spec fn hosts(&self) -> Set<Seq<char>> {
        self.hosts@.dom()
    }

    /// The hosts that are probed, in the order in which they were registered.
    pub closed spec fn host_list(&self) -> Seq<Seq<char>> {
        self.hosts.keys()
    }

    /// The status of the hosts that a probe has reported on.
    pub closed spec fn status(&self) -> Map<Seq<char>, HostStatus> {
        self.status@
    }

    /// The hosts with a status, in the order in which they got their first.
    pub closed spec fn status_list(&self) -> Seq<Seq<char>> {
        self.status.keys()
    }

    /// A state without hosts and without status: nothing to probe, and
    /// nothing reported of any host.
    pub fn new() -> (state: Self)
        ensures
            state.hosts() == Set::<Seq<char>>::empty(),
            state.host_list() == Seq::<Seq<char>>::empty(),
            state.status() == Map::<Seq<char>, HostStatus>::empty(),
            state.status_list() == Seq::<Seq<char>>::empty(),
    {
        let state = HealthState { hosts: StringMap::new(), status: StringMap::new() };
        assert(state.hosts() =~= Set::<Seq<char>>::empty());
        state
    }

    /// Adds each host of a list to the hosts that are probed.
    pub fn register(&mut self, targets: &Vec<String>)
        ensures
            final(self).hosts() == old(self).hosts().union(texts(targets@)),
            final(self).status() == old(self).status(),
    {
        let mut j: usize = 0;
        while j < targets.len()
            invariant
                j <= targets@.len(),
                self.status() == old(self).status(),
                self.hosts() == old(self).hosts().union(texts(targets@.take(j as int))),
            decreases targets@.len() - j,
        {
            self.hosts.insert(targets[j].clone(), ());
            proof {
                let before = texts(targets@.take(j as int));
                let after = texts(targets@.take(j + 1));
                assert forall|h: Seq<char>| after.contains(h) <==> (before.contains(h) || h
                    == targets@[j as int]@) by {
                    if before.contains(h) {
                        let k = choose|k: int|
                            0 <= k < targets@.take(j as int).len() && (#[trigger] targets@.take(
                                j as int,
                            )[k])@ == h;
                        assert(targets@.take(j + 1)[k]@ == h);
                    }
                    if h == targets@[j as int]@ {
                        assert(targets@.take(j + 1)[j as int]@ == h);
                    }
                    if after.contains(h) {
                        let k = choose|k: int|
                            0 <= k < targets@.take(j + 1).len() && (#[trigger] targets@.take(
                                j + 1,
                            )[k])@ == h;
                        if k < j {
                            assert(targets@.take(j as int)[k]@ == h);
                        }
                    }
                }
                assert(self.hosts() =~= old(self).hosts().union(after));
            }
            j += 1;
        }
        assert(targets@.take(j as int) =~= targets@);
    }

    /// Puts a set of hosts in place of those that are probed, and forgets
    /// every status.
    pub fn init_inner(&mut self, hosts: &Vec<String>)
        ensures
            final(self).hosts() == texts(hosts@),
            final(self).status() == Map::<Seq<char>, HostStatus>::empty(),
    {
        self.status.clear();
        self.hosts.clear();
        self.register(hosts);
        assert(self.hosts() =~= texts(hosts@));
    }

    /// The hosts to probe in the next round, in the order of registration.
    pub fn probe_list(&self) -> (list: Vec<String>)
        ensures
            list@.len() == self.host_list().len(),
            forall|i: int| 0 <= i < list@.len() ==> (#[trigger] list@[i])@ == self.host_list()[i],
            forall|i: int| 0 <= i < list@.len() ==> self.hosts().contains((#[trigger] list@[i])@),
    {
        let n = self.hosts.len();
        let mut list: Vec<String> = Vec::new();
        let mut i: usize = 0;
        while i < n
            invariant
                i <= n,
                n == self.hosts.keys().len(),
                list@.len() == i,
                forall|k: int| 0 <= k < i ==> (#[trigger] list@[k])@ == self.hosts.keys()[k],
                forall|k: int| 0 <= k < i ==> self.hosts@.dom().contains((#[trigger] list@[k])@),
            decreases n - i,
        {
            let key = self.hosts.key_at(i);
            list.push(key.clone());
            i += 1;
        }
        list
    }

    /// Takes the results of one round of probes, in order. A host gets the
    /// state it was found in and the time `now` where it had no status or
    /// the other state; a host found as before keeps its entry.
    pub fn record(&mut self, results: &Vec<(String, bool)>, now: i64)
        ensures
            final(self).status() == spec_record(
                old(self).status(),
                results@,
                results@.len(),
                now,
            ),
            final(self).hosts() == old(self).hosts(),
            final(self).host_list() == old(self).host_list(),
    {
        let mut i: usize = 0;
        while i < results.len()
            invariant
                i <= results@.len(),
                self.hosts == old(self).hosts,
                self.status() == spec_record(old(self).status(), results@, i as nat, now),
            decreases results@.len() - i,
        {
            let host = &results[i].0;
            let up = results[i].1;
            let changed = match self.status.get(host.as_str()) {
                None => true,
                Some(current) => current.up != up,
            };
            if changed {
                self.status.insert(host.clone(), HostStatus { up, last_changed: now });
            }
            i += 1;
        }
    }

    /// Every host with a status, with that status.
    pub fn get_all_status(&self) -> (all: Vec<(String, HostStatus)>)
        ensures
            all@.len() == self.status_list().len(),
            all@.len() == self.status().dom().len(),
            forall|i: int|
                0 <= i < all@.len() ==> (#[trigger] all@[i]).0@ == self.status_list()[i]
                    && self.status().contains_key(all@[i].0@) && self.status()[all@[i].0@]
                    == all@[i].1,
    {
        let n = self.status.len();
        let mut all: Vec<(String, HostStatus)> = Vec::new();
        let mut i: usize = 0;
        while i < n
            invariant
                i <= n,
                n == self.status.keys().len(),
                all@.len() == i,
                forall|k: int|
                    0 <= k < i ==> (#[trigger] all@[k]).0@ == self.status.keys()[k]
                        && self.status@.contains_key(all@[k].0@) && self.status@[all@[k].0@]
                        == all@[k].1,
            decreases n - i,
        {
            let key = self.status.key_at(i);
            let value = self.status.value_at(i);
            all.push((key.clone(), *value));
            i += 1;
        }
        all
    }

    /// What is reported of a host at time `now`.
    pub fn status_or(&self, host: &str, now: i64) -> (r: (bool, i64))
        ensures
            r == spec_status_or(self.status(), host@, now),
    {
        match self.status.get(host) {
            None => (true, now),
            Some(entry) => (entry.up, entry.last_changed),
        }
    }

    /// What is reported of a host now: its status, or "up since this moment"
    /// where no probe has reported on it. The moment is read from the clock,
    /// so of a host without status only `up` is known.
    pub fn get_status_for(&self, host: &str) -> (r: Option<(bool, i64)>)
        ensures
            r matches Some(s) && (exists|now: i64| s == spec_status_or(self.status(), host@, now)),
            self.status().contains_key(host@) ==> r == Some(
                (self.status()[host@].up, self.status()[host@].last_changed),
            ),
            !self.status().contains_key(host@) ==> (r matches Some(s) && s.0),
    {
        let now = now_millis();
        Some(self.status_or(host, now))
    }

    /// Chooses among candidates by the number `r`: see `spec_select`. The
    /// result is whether the choice is known to be up, and its place in
    /// `what`.
    pub fn select_at(&self, what: &Vec<String>, r: usize) -> (choice: (bool, usize))
        requires
            what@.len() > 0,
        ensures
            (choice.0, choice.1 as int) == spec_select(self.status(), what@, r as nat),
            choice.1 < what@.len(),
            choice.0 ==> is_up(self.status(), what@[choice.1 as int]@),
            !choice.0 ==> forall|i: int|
                0 <= i < what@.len() ==> !is_up(self.status(), (#[trigger] what@[i])@),
    {
        proof {
            lemma_select_sound(self.status(), what@, r as nat);
        }
        let mut candidate: Vec<usize> = Vec::new();
        let mut i: usize = 0;
        while i < what.len()
            invariant
                i <= what@.len(),
                candidate@.len() == up_places(self.status(), what@, i as nat).len(),
                forall|k: int|
                    0 <= k < candidate@.len() ==> (#[trigger] candidate@[k]) as int == up_places(
                        self.status(),
                        what@,
                        i as nat,
                    )[k],
            decreases what@.len() - i,
        {
            let up = match self.status.get(what[i].as_str()) {
                Some(entry) => entry.up,
                None => false,
            };
            if up {
                candidate.push(i);
            }
            i += 1;
        }
        if candidate.len() == 0 {
            (false, r % what.len())
        } else {
            (true, candidate[r % candidate.len()])
        }
    }

    /// Chooses a backend for a connection of the listener `name` among the
    /// candidates `what`: by chance one of those known to be up, or, where
    /// none is, by chance one of all, marked with `false`.
    ///
    /// Which one is chosen depends on chance. Whatever is drawn, a choice
    /// marked `true` is a candidate that is up at the time of the call, and a
    /// choice marked `false` is a candidate and means that none is up.
    pub fn select<'a>(&self, name: &str, what: &'a Vec<String>) -> (choice: (bool, &'a str))
        requires
            what@.len() > 0,
        ensures
            exists|i: int|
                0 <= i < what@.len() && (#[trigger] what@[i])@ == choice.1@ && (choice.0 ==> is_up(
                    self.status(),
                    what@[i]@,
                )),
            exists|r: nat|
                choice.0 == spec_select(self.status(), what@, r).0 && choice.1@ == what@[spec_select(
                    self.status(),
                    what@,
                    r,
                ).1]@,
            !choice.0 ==> forall|i: int|
                0 <= i < what@.len() ==> !is_up(self.status(), (#[trigger] what@[i])@),
    {
        let r = random_usize();
        let (ok, place) = self.select_at(what, r);
        let chosen = what[place].as_str();
        assert(what@[place as int]@ == chosen@);
        assert(ok == spec_select(self.status(), what@, r as nat).0);
        (ok, chosen)
    }
}

/// Registers every target of every plain listener of a configuration as a
/// host to probe, in place of the hosts before, and forgets every status.
pub fn init(state: &mut HealthState, config: &Config)
    ensures
        final(state).hosts() == spec_all_targets(
            config.listeners.values(),
            config.listeners.values().len(),
        ),
        final(state).status() == Map::<Seq<char>, HostStatus>::empty(),
{
    let none: Vec<String> = Vec::new();
    state.init_inner(&none);
    assert(state.hosts() =~= Set::<Seq<char>>::empty());
    let n = config.listeners.len();
    let mut i: usize = 0;
    while i < n
        invariant
            i <= n,
            config.listeners.wf(),
            n == config.listeners.values().len(),
            state.status() == Map::<Seq<char>, HostStatus>::empty(),
            state.hosts() == spec_all_targets(config.listeners.values(), i as nat),
        decreases n - i,
    {
        let listener = config.listeners.value_at(i);
        match &listener.forwarding {
            Forwarding::Plain { targets } => {
                state.register(targets);
            },
            Forwarding::Sni { .. } => {
                assert(texts(targets_of(*listener)) =~= Set::<Seq<char>>::empty());
                assert(state.hosts() =~= state.hosts().union(Set::<Seq<char>>::empty()));
            },
        }
        i += 1;
    }
}

/// The address to dial for a probe of `host`: the host with the overrides
/// applied.
pub fn probe_target(table: &ResolveConfig, host: &str) -> (target: String)
    ensures
        target@ == spec_resolve(table@, host@),
{
    table.resolve(host)
}

/// What a probe says of a host: up where the connection was made, down in
/// every other case.
pub fn check(outcome: ProbeOutcome) -> (up: bool)
    ensures
        up == (outcome == ProbeOutcome::Connected),
{
    match outcome {
        ProbeOutcome::Connected => true,
        _ => false,
    }
}

} // verus!
