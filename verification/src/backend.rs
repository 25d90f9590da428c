//! Groups of backends, each host of a group among those last found up or
//! among those last found down, with the moment of the change.

use crate::healthcheck::random_usize;
use crate::idletracker::clock_now;
use crate::resolve::{spec_resolve, ResolveConfig};
use crate::strmap::StringMap;
use crate::text::str_eq;
use std::time::Instant;
use vstd::prelude::*;

verus! {

/// The shortest time, in milliseconds, that a probe is given.
pub const MIN_CHECK_TIMEOUT_MS: u64 = 100;

/// What probes hosts: the time a probe may take, and the overrides that
/// give the address to dial.
#[derive(Debug)]
pub struct HostChecker {
    timeout_ms: u64,
    resolver: ResolveConfig,
}

/// The hosts of one group.
#[derive(Debug)]
pub struct HostGroup {
    name: String,
    up: Vec<(String, Instant)>,
    down: Vec<(String, Instant)>,
}

/// The groups by name, and what probes their hosts.
#[derive(Debug)]
pub struct HostGroupTracker {
    host_groups: StringMap<HostGroup>,
    host_checker: HostChecker,
}

/// A list of hosts with their moments, the hosts as text.
pub open spec fn entries_view(list: Seq<(String, Instant)>) -> Seq<(Seq<char>, Instant)> {
    Seq::new(list.len(), |i: int| (list[i].0@, list[i].1))
}

/// The hosts of a list as text.
pub open spec fn host_texts(list: Seq<(String, Instant)>) -> Seq<Seq<char>> {
    Seq::new(list.len(), |i: int| list[i].0@)
}

/// A report says of a host that it is up. A host that the report does not
/// speak of counts as down.
pub open spec fn reported_up(report: Map<Seq<char>, bool>, host: Seq<char>) -> bool {
    report.contains_key(host) && report[host]
}

/// The entries among the first `n` of a list whose host the report finds
/// in the state `up`, as they are and in order.
pub open spec fn spec_keep(
    list: Seq<(Seq<char>, Instant)>,
    report: Map<Seq<char>, bool>,
    up: bool,
    n: nat,
) -> Seq<(Seq<char>, Instant)>
    decreases n,
{
    if n == 0 {
        Seq::empty()
    } else if reported_up(report, list[n - 1].0) == up {
        spec_keep(list, report, up, (n - 1) as nat).push(list[n - 1])
    } else {
        spec_keep(list, report, up, (n - 1) as nat)
    }
}

/// The same entries with the moment `now` in place of their own.
pub open spec fn spec_moved(
    list: Seq<(Seq<char>, Instant)>,
    report: Map<Seq<char>, bool>,
    up: bool,
    now: Instant,
    n: nat,
) -> Seq<(Seq<char>, Instant)>
    decreases n,
{
    if n == 0 {
        Seq::empty()
    } else if reported_up(report, list[n - 1].0) == up {
        spec_moved(list, report, up, now, (n - 1) as nat).push((list[n - 1].0, now))
    } else {
        spec_moved(list, report, up, now, (n - 1) as nat)
    }
}

/// A group is what another becomes by a report at the moment `now`: a host
/// that is up and not reported up goes to those down, a host that is down and
/// reported up goes to those up, each behind the hosts that stay and with the
/// moment `now`; the hosts that stay keep their moment and their order.
pub open spec fn spec_updated(
    before: HostGroup,
    after: HostGroup,
    report: Map<Seq<char>, bool>,
    now: Instant,
) -> bool {
    &&& after.name_text() == before.name_text()
    &&& after.up_hosts() == spec_keep(before.up_hosts(), report, true, before.up_hosts().len())
        + spec_moved(before.down_hosts(), report, true, now, before.down_hosts().len())
    &&& after.down_hosts() == spec_keep(
        before.down_hosts(),
        report,
        false,
        before.down_hosts().len(),
    ) + spec_moved(before.up_hosts(), report, false, now, before.up_hosts().len())
}

/// A group is what another becomes by a report at some moment.
pub open spec fn spec_updated_once(
    before: HostGroup,
    after: HostGroup,
    report: Map<Seq<char>, bool>,
) -> bool {
    exists|now: Instant| spec_updated(before, after, report, now)
}

/// The hosts of the first `n` groups of a list, group by group.
pub open spec fn spec_hosts_of(groups: Seq<HostGroup>, n: nat) -> Seq<Seq<char>>
    decreases n,
{
    if n == 0 {
        Seq::empty()
    } else {
        spec_hosts_of(groups, (n - 1) as nat) + groups[n - 1].all_hosts()
    }
}

/// The first place of a host in a list, or the length where it is not in
/// it.
pub open spec fn spec_index_of(list: Seq<Seq<char>>, host: Seq<char>, from: nat) -> nat
    decreases list.len() - from,
{
    if from >= list.len() {
        list.len()
    } else if list[from as int] == host {
        from
    } else {
        spec_index_of(list, host, from + 1)
    }
}

/// The choice that a number `r` makes in a group: the `r`-th host, counted
/// round, of those that are up, or of those that are down where none is up,
/// or none where the group is empty.
pub open spec fn spec_group_select(up: Seq<Seq<char>>, down: Seq<Seq<char>>, r: nat) -> Option<
    Seq<char>,
> {
    if up.len() > 0 {
        Some(up[(r % up.len()) as int])
    } else if down.len() > 0 {
        Some(down[(r % down.len()) as int])
    } else {
        None
    }
}

impl HostChecker {
    /// The time a probe may take, in milliseconds.
    pub closed spec fn spec_timeout_ms(&self) -> u64 {
        self.timeout_ms
    }

    /// The overrides.
    pub closed spec fn overrides(&self) -> Map<Seq<char>, Seq<char>> {
        self.resolver@
    }

    /// The time a probe may take, in milliseconds.
    pub fn timeout_ms(&self) -> (ms: u64)
        ensures
            ms == self.spec_timeout_ms(),
    {
        self.timeout_ms
    }

    /// The address to dial for a probe of a host: the host with the
    /// overrides applied.
    pub fn target(&self, host_str: &str) -> (target: String)
        ensures
            target@ == spec_resolve(self.overrides(), host_str@),
    {
        self.resolver.resolve(host_str)
    }

    /// The hosts to probe for a list of hosts: each once, in the order in
    /// which it first stands in the list, with the address to dial.
    pub fn plan(&self, hosts_v: &Vec<String>) -> (plan: StringMap<String>)
        ensures
            plan.wf(),
            forall|h: Seq<char>|
                plan@.contains_key(h) <==> exists|i: int|
                    0 <= i < hosts_v@.len() && (#[trigger] hosts_v@[i])@ == h,
            forall|h: Seq<char>| #[trigger]
                plan@.contains_key(h) ==> plan@[h]@ == spec_resolve(self.overrides(), h),
    {
        let mut plan: StringMap<String> = StringMap::new();
        let mut i: usize = 0;
        while i < hosts_v.len()
            invariant
                i <= hosts_v@.len(),
                plan.wf(),
                forall|h: Seq<char>|
                    plan@.contains_key(h) <==> exists|k: int|
                        0 <= k < i && (#[trigger] hosts_v@[k])@ == h,
                forall|h: Seq<char>| #[trigger]
                    plan@.contains_key(h) ==> plan@[h]@ == spec_resolve(self.overrides(), h),
            decreases hosts_v@.len() - i,
        {
            let host = &hosts_v[i];
            let target = self.target(host.as_str());
            let ghost before = plan@;
            plan.insert(host.clone(), target);
            proof {
                assert forall|h: Seq<char>| plan@.contains_key(h) <==> exists|k: int|
                    0 <= k < i + 1 && (#[trigger] hosts_v@[k])@ == h by {
                    if plan@.contains_key(h) {
                        if before.contains_key(h) {
                            let k = choose|k: int| 0 <= k < i && (#[trigger] hosts_v@[k])@ == h;
                            assert(0 <= k < i + 1 && hosts_v@[k]@ == h);
                        } else {
                            assert(hosts_v@[i as int]@ == h);
                        }
                    }
                    if exists|k: int| 0 <= k < i + 1 && (#[trigger] hosts_v@[k])@ == h {
                        let k = choose|k: int| 0 <= k < i + 1 && (#[trigger] hosts_v@[k])@ == h;
                        if k < i {
                            assert(before.contains_key(h));
                        }
                    }
                }
            }
            i += 1;
        }
        plan
    }
}

impl HostGroup {
    /// The name of the group.
    pub closed spec fn name_text(&self) -> Seq<char> {
        self.name@
    }

    /// The hosts last found up, with the moment since when.
    pub closed spec fn up_hosts(&self) -> Seq<(Seq<char>, Instant)> {
        entries_view(self.up@)
    }

    /// The hosts last found down, with the moment since when.
    pub closed spec fn down_hosts(&self) -> Seq<(Seq<char>, Instant)> {
        entries_view(self.down@)
    }

    /// The hosts of the group as text: those up, then those down.
    pub open spec fn all_hosts(&self) -> Seq<Seq<char>> {
        Seq::new(self.up_hosts().len(), |i: int| self.up_hosts()[i].0) + Seq::new(
            self.down_hosts().len(),
            |i: int| self.down_hosts()[i].0,
        )
    }

    /// A group without hosts.
    pub fn new(name: &str) -> (group: HostGroup)
        ensures
            group.name_text() == name@,
            group.up_hosts() == Seq::<(Seq<char>, Instant)>::empty(),
            group.down_hosts() == Seq::<(Seq<char>, Instant)>::empty(),
    {
        let group = HostGroup { name: name.to_string(), up: Vec::new(), down: Vec::new() };
        assert(group.up_hosts() =~= Seq::<(Seq<char>, Instant)>::empty());
        assert(group.down_hosts() =~= Seq::<(Seq<char>, Instant)>::empty());
        group
    }

    /// The name of the group.
    pub fn name(&self) -> (name: &String)
        ensures
            name@ == self.name_text(),
    {
        &self.name
    }

    /// Adds a host to the group. It counts as up, since the moment `now`.
    pub fn add_at(&mut self, host: &str, now: Instant)
        ensures
            final(self).name_text() == old(self).name_text(),
            final(self).down_hosts() == old(self).down_hosts(),
            final(self).up_hosts() == old(self).up_hosts().push((host@, now)),
    {
        self.up.push((host.to_string(), now));
        assert(self.up_hosts() =~= old(self).up_hosts().push((host@, now)));
    }

    /// Adds a host to the group. It counts as up, since this moment, which
    /// is read from the clock; the rest is what `add_at` does.
    pub fn add(&mut self, host: &str)
        ensures
            final(self).name_text() == old(self).name_text(),
            final(self).down_hosts() == old(self).down_hosts(),
            final(self).up_hosts().len() == old(self).up_hosts().len() + 1,
            final(self).up_hosts().drop_last() == old(self).up_hosts(),
            final(self).up_hosts().last().0 == host@,
    {
        let now = clock_now();
        self.add_at(host, now);
        assert(self.up_hosts().drop_last() =~= old(self).up_hosts());
    }

    /// Every host of the group: those up, then those down.
    pub fn get_all(&self) -> (all: Vec<String>)
        ensures
            all@.len() == self.all_hosts().len(),
            forall|i: int| 0 <= i < all@.len() ==> (#[trigger] all@[i])@ == self.all_hosts()[i],
    {
        let mut result: Vec<String> = Vec::new();
        let mut i: usize = 0;
        while i < self.up.len()
            invariant
                i <= self.up@.len(),
                result@.len() == i,
                forall|k: int| 0 <= k < i ==> (#[trigger] result@[k])@ == self.up@[k].0@,
            decreases self.up@.len() - i,
        {
            result.push(self.up[i].0.clone());
            i += 1;
        }
        let mut j: usize = 0;
        while j < self.down.len()
            invariant
                j <= self.down@.len(),
                result@.len() == self.up@.len() + j,
                forall|k: int|
                    0 <= k < self.up@.len() ==> (#[trigger] result@[k])@ == self.up@[k].0@,
                forall|k: int|
                    0 <= k < j ==> (#[trigger] result@[self.up@.len() + k])@ == self.down@[k].0@,
            decreases self.down@.len() - j,
        {
            result.push(self.down[j].0.clone());
            j += 1;
        }
        proof {
            assert forall|i: int| 0 <= i < result@.len() implies (#[trigger] result@[i])@
                == self.all_hosts()[i] by {
                if i >= self.up@.len() {
                    let k = i - self.up@.len();
                    assert(result@[self.up@.len() + k]@ == self.down@[k].0@);
                }
            }
        }
        result
    }

    /// Tells whether a report finds a host up.
    pub fn is_up(map: &StringMap<bool>, lookup: &str) -> (up: bool)
        ensures
            up == reported_up(map@, lookup@),
    {
        match map.get(lookup) {
            None => false,
            Some(up) => *up,
        }
    }

    /// The first place of a host in a list.
    pub fn index_of(from: &Vec<(String, Instant)>, find: &str) -> (place: Option<usize>)
        ensures
            match place {
                Some(i) => i == spec_index_of(host_texts(from@), find@, 0) && i < from@.len()
                    && from@[i as int].0@ == find@,
                None => spec_index_of(host_texts(from@), find@, 0) == from@.len(),
            },
    {
        let mut idx: usize = 0;
        while idx < from.len()
            invariant
                idx <= from@.len(),
                spec_index_of(host_texts(from@), find@, 0) == spec_index_of(
                    host_texts(from@),
                    find@,
                    idx as nat,
                ),
            decreases from@.len() - idx,
        {
            if str_eq(from[idx].0.as_str(), find) {
                return Some(idx);
            }
            idx += 1;
        }
        None
    }

    /// Takes the first entry of a host out of a list.
    pub fn remove(from: &mut Vec<(String, Instant)>, what: &str)
        ensures
            spec_index_of(host_texts(old(from)@), what@, 0) == old(from)@.len() ==> *final(from)
                == *old(from),
            spec_index_of(host_texts(old(from)@), what@, 0) < old(from)@.len() ==> final(from)@
                == old(from)@.remove(spec_index_of(host_texts(old(from)@), what@, 0) as int),
    {
        let idx = Self::index_of(from, what);
        if idx.is_some() {
            from.remove(idx.unwrap());
        }
    }

    /// Takes a report at the moment `now`. A host that is up and not
    /// reported up goes to those down, a host that is down and reported up
    /// goes to those up, each behind the hosts that stay and with the moment
    /// `now`; the hosts that stay keep their moment and their order.
    pub fn update_at(&mut self, map: &StringMap<bool>, now: Instant)
        ensures
            spec_updated(*old(self), *final(self), map@, now),
    {
        let mut up: Vec<(String, Instant)> = Vec::new();
        let mut down_new: Vec<(String, Instant)> = Vec::new();
        let mut i: usize = 0;
        while i < self.up.len()
            invariant
                i <= self.up@.len(),
                entries_view(up@) == spec_keep(entries_view(self.up@), map@, true, i as nat),
                entries_view(down_new@) == spec_moved(
                    entries_view(self.up@),
                    map@,
                    false,
                    now,
                    i as nat,
                ),
            decreases self.up@.len() - i,
        {
            let ghost up0 = entries_view(up@);
            let ghost dn0 = entries_view(down_new@);
            if Self::is_up(map, self.up[i].0.as_str()) {
                up.push((self.up[i].0.clone(), self.up[i].1));
                assert(entries_view(up@) =~= up0.push(entries_view(self.up@)[i as int]));
            } else {
                down_new.push((self.up[i].0.clone(), now));
                assert(entries_view(down_new@) =~= dn0.push(
                    (entries_view(self.up@)[i as int].0, now),
                ));
            }
            i += 1;
        }
        let mut down: Vec<(String, Instant)> = Vec::new();
        let mut up_new: Vec<(String, Instant)> = Vec::new();
        let mut j: usize = 0;
        while j < self.down.len()
            invariant
                j <= self.down@.len(),
                entries_view(down@) == spec_keep(entries_view(self.down@), map@, false, j as nat),
                entries_view(up_new@) == spec_moved(
                    entries_view(self.down@),
                    map@,
                    true,
                    now,
                    j as nat,
                ),
            decreases self.down@.len() - j,
        {
            let ghost dn0 = entries_view(down@);
            let ghost up0 = entries_view(up_new@);
            if Self::is_up(map, self.down[j].0.as_str()) {
                up_new.push((self.down[j].0.clone(), now));
                assert(entries_view(up_new@) =~= up0.push(
                    (entries_view(self.down@)[j as int].0, now),
                ));
            } else {
                down.push((self.down[j].0.clone(), self.down[j].1));
                assert(entries_view(down@) =~= dn0.push(entries_view(self.down@)[j as int]));
            }
            j += 1;
        }
        let ghost up_kept = entries_view(up@);
        let ghost down_kept = entries_view(down@);
        up.append(&mut up_new);
        down.append(&mut down_new);
        assert(entries_view(up@) =~= up_kept + spec_moved(
            entries_view(self.down@),
            map@,
            true,
            now,
            self.down@.len(),
        ));
        assert(entries_view(down@) =~= down_kept + spec_moved(
            entries_view(self.up@),
            map@,
            false,
            now,
            self.up@.len(),
        ));
        self.up = up;
        self.down = down;
    }

    /// Takes a report at this moment: see `update_at`. The moment is read
    /// from the clock.
    pub fn update(&mut self, map: &StringMap<bool>)
        ensures
            spec_updated_once(*old(self), *final(self), map@),
    {
        let now = clock_now();
        self.update_at(map, now);
    }

    /// Chooses a host of the group by the number `r`: see
    /// `spec_group_select`.
    pub fn select_at(&self, r: usize) -> (choice: Option<String>)
        ensures
            match choice {
                Some(host) => Some(host@) == spec_group_select(
                    host_texts_of(self.up_hosts()),
                    host_texts_of(self.down_hosts()),
                    r as nat,
                ),
                None => spec_group_select(
                    host_texts_of(self.up_hosts()),
                    host_texts_of(self.down_hosts()),
                    r as nat,
                ) is None,
            },
    {
        if self.up.len() > 0 {
            Some(self.up[r % self.up.len()].0.clone())
        } else if self.down.len() > 0 {
            Some(self.down[r % self.down.len()].0.clone())
        } else {
            None
        }
    }
}

/// The hosts of a list of entries.
pub open spec fn host_texts_of(list: Seq<(Seq<char>, Instant)>) -> Seq<Seq<char>> {
    Seq::new(list.len(), |i: int| list[i].0)
}

impl HostGroupTracker {
    /// The groups by name.
    pub closed spec fn groups(&self) -> Map<Seq<char>, HostGroup> {
        self.host_groups@
    }

    /// The groups in the order in which their names first came.
    pub closed spec fn group_list(&self) -> Seq<HostGroup> {
        self.host_groups.values()
    }

    /// What probes the hosts.
    pub closed spec fn checker(&self) -> HostChecker {
        self.host_checker
    }

    /// A tracker without groups. A probe gets `timeout` milliseconds, and
    /// never less than a tenth of a second.
    pub fn new(timeout: u64, resolver: ResolveConfig) -> (tracker: HostGroupTracker)
        ensures
            tracker.groups() == Map::<Seq<char>, HostGroup>::empty(),
            tracker.checker().spec_timeout_ms() == if timeout < MIN_CHECK_TIMEOUT_MS {
                MIN_CHECK_TIMEOUT_MS
            } else {
                timeout
            },
            tracker.checker().overrides() == resolver@,
    {
        let mut actual_timeout = timeout;
        if actual_timeout < MIN_CHECK_TIMEOUT_MS {
            actual_timeout = MIN_CHECK_TIMEOUT_MS;
        }
        HostGroupTracker {
            host_groups: StringMap::new(),
            host_checker: HostChecker { timeout_ms: actual_timeout, resolver },
        }
    }

    /// What probes the hosts.
    pub fn host_checker(&self) -> (checker: &HostChecker)
        ensures
            *checker == self.checker(),
    {
        &self.host_checker
    }

    /// Adds a group under its name, in place of a group of that name.
    pub fn add(&mut self, target: HostGroup)
        ensures
            final(self).groups() == old(self).groups().insert(target.name_text(), target),
            final(self).checker() == old(self).checker(),
    {
        let name = target.name().clone();
        self.host_groups.insert(name, target);
    }

    /// Every host of every group, group by group.
    pub fn hosts_to_check(&self) -> (all: Vec<String>)
        ensures
            all@.len() == spec_hosts_of(self.group_list(), self.group_list().len()).len(),
            forall|i: int|
                0 <= i < all@.len() ==> (#[trigger] all@[i])@ == spec_hosts_of(
                    self.group_list(),
                    self.group_list().len(),
                )[i],
    {
        let n = self.host_groups.len();
        let mut all_hosts_only: Vec<String> = Vec::new();
        let mut g: usize = 0;
        while g < n
            invariant
                g <= n,
                n == self.host_groups.keys().len(),
                self.host_groups.wf(),
                all_hosts_only@.len() == spec_hosts_of(self.host_groups.values(), g as nat).len(),
                forall|i: int|
                    0 <= i < all_hosts_only@.len() ==> (#[trigger] all_hosts_only@[i])@
                        == spec_hosts_of(self.host_groups.values(), g as nat)[i],
            decreases n - g,
        {
            let group = self.host_groups.value_at(g);
            let mut local_host_list = group.get_all();
            let ghost before = all_hosts_only@;
            let ghost local = local_host_list@;
            all_hosts_only.append(&mut local_host_list);
            proof {
                let next = spec_hosts_of(self.host_groups.values(), (g + 1) as nat);
                assert(next == spec_hosts_of(self.host_groups.values(), g as nat)
                    + group.all_hosts());
                assert forall|i: int| 0 <= i < all_hosts_only@.len() implies (
                #[trigger] all_hosts_only@[i])@ == next[i] by {
                    if i < before.len() {
                        assert(all_hosts_only@[i] == before[i]);
                    } else {
                        assert(all_hosts_only@[i] == local[i - before.len()]);
                    }
                }
            }
            g += 1;
        }
        all_hosts_only
    }

    /// Takes a report into every group, at this moment: each group becomes
    /// what the report makes of it, and keeps its place.
    pub fn apply(&mut self, report: &StringMap<bool>)
        ensures
            final(self).checker() == old(self).checker(),
            final(self).groups().dom() == old(self).groups().dom(),
            final(self).group_list().len() == old(self).group_list().len(),
            forall|k: int|
                0 <= k < old(self).group_list().len() ==> spec_updated_once(
                    #[trigger] old(self).group_list()[k],
                    final(self).group_list()[k],
                    report@,
                ),
            forall|name: Seq<char>| #[trigger]
                final(self).groups().contains_key(name) ==> spec_updated_once(
                    old(self).groups()[name],
                    final(self).groups()[name],
                    report@,
                ),
    {
        let n = self.host_groups.len();
        let mut g: usize = 0;
        while g < n
            invariant
                g <= n,
                n == self.host_groups.keys().len(),
                n == self.host_groups.values().len(),
                self.host_groups.wf(),
                old(self).host_groups.wf(),
                self.host_checker == old(self).host_checker,
                self.host_groups.keys() == old(self).host_groups.keys(),
                self.host_groups.values().len() == old(self).host_groups.values().len(),
                forall|k: int|
                    0 <= k < g ==> spec_updated_once(
                        #[trigger] old(self).host_groups.values()[k],
                        self.host_groups.values()[k],
                        report@,
                    ),
                forall|k: int|
                    g <= k < n ==> #[trigger] self.host_groups.values()[k] == old(self).host_groups.values()[k],
            decreases n - g,
        {
            let ghost values = self.host_groups.values();
            let mut group = HostGroup::new("");
            self.host_groups.swap_value_at(g, &mut group);
            let ghost taken = group;
            assert(taken == old(self).host_groups.values()[g as int]);
            group.update(report);
            let ghost updated = group;
            let mut back = group;
            self.host_groups.swap_value_at(g, &mut back);
            proof {
                assert(self.host_groups.values() =~= values.update(g as int, updated));
                assert(spec_updated_once(
                    old(self).host_groups.values()[g as int],
                    self.host_groups.values()[g as int],
                    report@,
                ));
            }
            g += 1;
        }
        proof {
            let keys = self.host_groups.keys();
            assert(self.groups().dom() =~= old(self).groups().dom()) by {
                assert forall|name: Seq<char>|
                    self.groups().contains_key(name) <==> old(self).groups().contains_key(
                        name,
                    ) by {}
            }
            assert forall|name: Seq<char>| #[trigger]
                self.groups().contains_key(name) implies spec_updated_once(
                old(self).groups()[name],
                self.groups()[name],
                report@,
            ) by {
                let k = keys.index_of(name);
                crate::strmap::lemma_index_of_unique(keys, k);
                assert(self.groups()[name] == self.host_groups.values()[k]);
                assert(old(self).groups()[name] == old(self).host_groups.values()[k]);
            }
        }
    }

    /// Chooses a host of the group `name` by the number `r`; none where
    /// there is no such group or the group is empty.
    pub fn select_at(&self, name: &str, r: usize) -> (choice: Option<String>)
        ensures
            match choice {
                Some(host) => self.groups().contains_key(name@) && Some(host@) == spec_group_select(
                    host_texts_of(self.groups()[name@].up_hosts()),
                    host_texts_of(self.groups()[name@].down_hosts()),
                    r as nat,
                ),
                None => !self.groups().contains_key(name@) || spec_group_select(
                    host_texts_of(self.groups()[name@].up_hosts()),
                    host_texts_of(self.groups()[name@].down_hosts()),
                    r as nat,
                ) is None,
            },
    {
        match self.host_groups.get(name) {
            None => None,
            Some(group) => group.select_at(r),
        }
    }

    /// Chooses a host of the group `name` by chance: one of those up, or
    /// one of those down where none is up. There is no choice where there is
    /// no such group, or no host in it.
    pub fn select(&self, name: &str) -> (choice: Option<String>)
        ensures
            match choice {
                Some(host) => self.groups().contains_key(name@) && exists|r: nat|
                    Some(host@) == spec_group_select(
                        host_texts_of(self.groups()[name@].up_hosts()),
                        host_texts_of(self.groups()[name@].down_hosts()),
                        r,
                    ),
                None => !self.groups().contains_key(name@) || (self.groups()[name@].up_hosts().len()
                    == 0 && self.groups()[name@].down_hosts().len() == 0),
            },
    {
        let r = random_usize();
        let choice = self.select_at(name, r);
        proof {
            if choice is Some {
                assert(Some(choice->0@) == spec_group_select(
                    host_texts_of(self.groups()[name@].up_hosts()),
                    host_texts_of(self.groups()[name@].down_hosts()),
                    r as nat,
                ));
            }
        }
        choice
    }

    /// Chooses an entry of a list by chance.
    pub fn select_random(what: &Vec<(String, Instant)>) -> (choice: Option<String>)
        requires
            what@.len() > 0,
        ensures
            choice matches Some(host) && exists|i: int|
                0 <= i < what@.len() && (#[trigger] what@[i]).0@ == host@,
    {
        let mut rand_usize: usize = random_usize();
        rand_usize = rand_usize % what.len();
        let host_port = &what[rand_usize].0;
        Some(host_port.clone())
    }
}

} // verus!
