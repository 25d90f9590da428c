//! The group of background tasks of the gateway, as far as decisions go:
//! which tasks belong to the group that is current, and which a
//! cancellation has aborted.
//!
//! The tasks themselves run elsewhere. A task gets a `TaskHandle` when it is
//! spawned; its number is one higher than that of the task before. A
//! cancellation aborts every task spawned so far, and whoever runs the tasks
//! aborts those whose number is below the mark that `cancel` returns.

use vstd::prelude::*;

verus! {

/// The ticket of one spawned task: its number among all tasks ever spawned.
#[derive(Debug, Clone, Copy, PartialEq, Eq, Structural)]
pub struct TaskHandle {
    pub serial: u64,
}

/// A group of tasks that can be cancelled as a whole and used again.
#[derive(Debug, Clone, Copy)]
pub struct Controller {
    floor: u64,
    next: u64,
}

/// The state of a group: the number that the next task gets, and the mark
/// below which every task is aborted. The tasks of the group are those from
/// the mark on.
pub struct GroupState {
    pub floor: nat,
    pub next: nat,
}

/// The group after a task was spawned in it.
pub open spec fn spec_spawn(g: GroupState) -> GroupState {
    GroupState { next: g.next + 1, ..g }
}

/// The handle of the task that a spawn in `g` creates.
pub open spec fn spec_spawned_handle(g: GroupState) -> nat {
    g.next
}

/// The group after a cancellation: empty, with every task so far below the
/// mark.
pub open spec fn spec_cancel(g: GroupState) -> GroupState {
    GroupState { floor: g.next, next: g.next }
}

/// A task is live in a group: it was spawned, and not before the last
/// cancellation.
pub open spec fn spec_is_live(g: GroupState, handle: nat) -> bool {
    g.floor <= handle < g.next
}

/// The number of tasks in a group.
pub open spec fn spec_size(g: GroupState) -> nat {
    (g.next - g.floor) as nat
}

/// A task that is spawned is live, whatever happened to the group before; in
/// particular a group that was cancelled takes new tasks.
pub proof fn lemma_spawn_after_cancel_is_live(g: GroupState)
    requires
        g.floor <= g.next,
    ensures
        spec_is_live(spec_spawn(spec_cancel(g)), spec_spawned_handle(spec_cancel(g))),
        spec_is_live(spec_spawn(g), spec_spawned_handle(g)),
        spec_size(spec_spawn(spec_cancel(g))) == 1,
{
}

/// A cancellation leaves no task live: the group is empty, and a task that
/// was live stays aborted whatever is spawned afterwards.
pub proof fn lemma_cancel_aborts_all(g: GroupState, handle: nat)
    ensures
        !spec_is_live(spec_cancel(g), handle),
        spec_size(spec_cancel(g)) == 0,
        spec_is_live(g, handle) ==> !spec_is_live(spec_spawn(spec_cancel(g)), handle),
{
}

/// Cancelling twice is cancelling once.
pub proof fn lemma_cancel_twice(g: GroupState)
    ensures
        spec_cancel(spec_cancel(g)) == spec_cancel(g),
{
}

impl TaskHandle {
    /// The number of the task.
    pub open spec fn view(&self) -> nat {
        self.serial as nat
    }
}

impl Controller {
    #[verifier::type_invariant]
    spec fn mark_within_count(&self) -> bool {
        self.floor <= self.next
    }

    /// The state of the group.
    pub closed spec fn view(&self) -> GroupState {
        GroupState { floor: self.floor as nat, next: self.next as nat }
    }

    /// An empty group that has seen no task.
    pub fn new() -> (c: Self)
        ensures
            c@ == (GroupState { floor: 0, next: 0 }),
    {
        Controller { floor: 0, next: 0 }
    }

    /// The number of tasks ever spawned, which is the number that the next
    /// task gets.
    pub fn next_serial(&self) -> (n: u64)
        ensures
            n == self@.next,
            self@.floor <= self@.next,
    {
        proof {
            use_type_invariant(self);
        }
        self.next
    }

    /// The number of tasks in the group as it is now.
    pub fn spawned(&self) -> (n: u64)
        ensures
            n == spec_size(self@),
    {
        proof {
            use_type_invariant(self);
        }
        self.next - self.floor
    }

    /// Aborts every task of the group, and makes the group empty again for
    /// tasks to come. Returns the mark: every task with a smaller number is
    /// to be aborted.
    pub fn cancel(&mut self) -> (mark: u64)
        ensures
            final(self)@ == spec_cancel(old(self)@),
            mark == old(self)@.next,
    {
        self.floor = self.next;
        self.next
    }

    /// Takes a new task into the group and returns its handle. The task is
    /// live until the group is cancelled.
    pub fn spawn(&mut self) -> (handle: TaskHandle)
        requires
            old(self)@.next < u64::MAX,
        ensures
            final(self)@ == spec_spawn(old(self)@),
            handle@ == spec_spawned_handle(old(self)@),
            spec_is_live(final(self)@, handle@),
    {
        proof {
            use_type_invariant(&*self);
        }
        let handle = TaskHandle { serial: self.next };
        self.next = self.next + 1;
        handle
    }

    /// Tells whether a task belongs to the group as it is now.
    pub fn is_live(&self, handle: TaskHandle) -> (live: bool)
        ensures
            live == spec_is_live(self@, handle@),
    {
        self.floor <= handle.serial && handle.serial < self.next
    }
}

} // verus!
