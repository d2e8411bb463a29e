//! The engine and its host as one system, and what holds of every run of it.
//!
//! The library never sees a process. What it promises of processes it
//! promises of a host that does what each step tells it: kill and reap the
//! child that a restart or a stop names, then, for a restart, spawn once and
//! hand the outcome back. This module writes that host down as a
//! specification, runs engine and host over arbitrary sequences of watcher
//! inputs, and proves what the supervisor is for: the host never has two
//! children, and none once the engine has stopped.

use vstd::prelude::*;
use crate::engine::{step_spec, InputView, StepView};
use crate::supervisor::{PendingView, SpawnOutcome, SupervisorView};

verus! {

/// One thing that happens to the system: an input from the watcher at the
/// time `at`, and, should that input begin a restart, how the spawn ends and
/// when.
pub struct Occurrence {
    pub input: InputView,
    pub at: u64,
    pub outcome: SpawnOutcome,
    pub done_at: u64,
}

/// The children that a slot names: one or none.
pub open spec fn slot(child: Option<u32>) -> Set<u32> {
    match child {
        Some(pid) => set![pid],
        None => Set::empty(),
    }
}

/// The host's children after it has killed and reaped `terminate`.
pub open spec fn reaped(live: Set<u32>, terminate: Option<u32>) -> Set<u32> {
    match terminate {
        Some(pid) => live.remove(pid),
        None => live,
    }
}

/// The host's children after a spawn that ended with `outcome`.
pub open spec fn spawned_into(live: Set<u32>, outcome: SpawnOutcome) -> Set<u32> {
    match outcome {
        SpawnOutcome::Spawned(pid) => live.insert(pid),
        SpawnOutcome::Failed => live,
    }
}

/// The host's children after it has carried out `pending`: the named child is
/// reaped first, then the spawn is made.
pub open spec fn carried_out(live: Set<u32>, pending: PendingView, outcome: SpawnOutcome) -> Set<
    u32,
> {
    spawned_into(reaped(live, pending.terminate), outcome)
}

/// Engine and host together.
pub struct System {
    /// The supervisor, or `None` once the engine has stopped.
    pub supervisor: Option<SupervisorView>,
    /// The children that the host has spawned and not yet reaped.
    pub live: Set<u32>,
    /// How many inputs have passed the restart policy.
    pub passed: nat,
    /// How many children have been spawned in answer to an input.
    pub spawned: nat,
    /// Whether a spawn was ever made while another child was live.
    pub overlapped: bool,
}

impl System {
    /// A system that is about to receive its first input: the host's children
    /// are those that the supervisor's slot names.
    pub open spec fn watching(supervisor: SupervisorView) -> System {
        System {
            supervisor: Some(supervisor),
            live: slot(supervisor.child),
            passed: 0,
            spawned: 0,
            overlapped: false,
        }
    }

    /// The host's children are exactly those that the supervisor's slot
    /// names; none, once the engine has stopped.
    pub open spec fn in_step(self) -> bool {
        match self.supervisor {
            Some(s) => self.live == slot(s.child),
            None => self.live == Set::<u32>::empty(),
        }
    }

    /// The system after `occurrence`. A stopped engine receives nothing more.
    pub open spec fn advance(self, occurrence: Occurrence) -> System {
        match self.supervisor {
            None => self,
            Some(supervisor) => match step_spec(supervisor, occurrence.input, occurrence.at) {
                StepView::Watching(s) => System { supervisor: Some(s), ..self },
                StepView::Restarting(p) => System {
                    supervisor: Some(p.complete(occurrence.outcome, occurrence.done_at)),
                    live: carried_out(self.live, p, occurrence.outcome),
                    passed: self.passed + 1,
                    spawned: if occurrence.outcome is Spawned {
                        self.spawned + 1
                    } else {
                        self.spawned
                    },
                    overlapped: self.overlapped || (occurrence.outcome is Spawned && reaped(
                        self.live,
                        p.terminate,
                    ) != Set::<u32>::empty()),
                },
                StepView::Stopped(terminate) => System {
                    supervisor: None,
                    live: reaped(self.live, terminate),
                    ..self
                },
            },
        }
    }

    /// The system after every occurrence of `trace`, in order.
    pub open spec fn run(self, trace: Seq<Occurrence>) -> System
        decreases trace.len(),
    {
        if trace.len() == 0 {
            self
        } else {
            self.run(trace.drop_last()).advance(trace.last())
        }
    }

    /// What every reachable system satisfies.
    pub open spec fn sound(self) -> bool {
        &&& self.in_step()
        &&& self.spawned <= self.passed
        &&& !self.overlapped
    }
}

/// A slot names at most one child.
pub proof fn law_slot_holds_one_at_most(child: Option<u32>)
    ensures
        slot(child).finite(),
        slot(child).len() <= 1,
        slot(child).len() == 1 <==> child is Some,
{
}

/// One occurrence keeps a sound system sound.
pub proof fn law_advance_keeps_sound(system: System, occurrence: Occurrence)
    requires
        system.sound(),
    ensures
        system.advance(occurrence).sound(),
{
    match system.supervisor {
        None => {},
        Some(supervisor) => {
            match step_spec(supervisor, occurrence.input, occurrence.at) {
                StepView::Watching(s) => {},
                StepView::Restarting(p) => {
                    let cleared = reaped(system.live, p.terminate);
                    assert(cleared =~= Set::<u32>::empty());
                    let next = system.advance(occurrence);
                    assert(next.live =~= slot(next.supervisor->0.child));
                },
                StepView::Stopped(terminate) => {
                    assert(reaped(system.live, terminate) =~= Set::<u32>::empty());
                },
            }
        },
    }
}

/// However the inputs fall and however the spawns end: the children spawned
/// in answer to inputs are never more than the inputs that passed the restart
/// policy, no spawn is ever made while another child is live, and the host
/// never has more than one child.
pub proof fn law_never_two_children(supervisor: SupervisorView, trace: Seq<Occurrence>)
    ensures
        ({
            let end = System::watching(supervisor).run(trace);
            &&& end.in_step()
            &&& end.spawned <= end.passed
            &&& !end.overlapped
            &&& end.live.finite()
            &&& end.live.len() <= 1
        }),
    decreases trace.len(),
{
    let start = System::watching(supervisor);
    if trace.len() == 0 {
        law_slot_holds_one_at_most(supervisor.child);
    } else {
        law_never_two_children(supervisor, trace.drop_last());
        law_advance_keeps_sound(start.run(trace.drop_last()), trace.last());
        let end = start.run(trace);
        match end.supervisor {
            Some(s) => law_slot_holds_one_at_most(s.child),
            None => {},
        }
    }
}

/// A closed channel stops the engine and leaves the host without a child.
pub proof fn law_nothing_runs_after_close(system: System, occurrence: Occurrence)
    requires
        system.in_step(),
        system.supervisor is Some,
        occurrence.input is Closed,
    ensures
        system.advance(occurrence).supervisor is None,
        system.advance(occurrence).live == Set::<u32>::empty(),
{
    let child = system.supervisor->0.child;
    assert(reaped(slot(child), child) =~= Set::<u32>::empty());
}

/// Once the engine has stopped, in whatever run, the host has no child, and
/// stays without one.
pub proof fn law_stopped_means_no_child(supervisor: SupervisorView, trace: Seq<Occurrence>)
    ensures
        ({
            let end = System::watching(supervisor).run(trace);
            end.supervisor is None ==> end.live == Set::<u32>::empty()
        }),
{
    law_never_two_children(supervisor, trace);
}

/// A failed spawn leaves the engine watching, with an empty slot and the time
/// of the last restart as it was. The next input that passes the restart
/// policy begins a restart with no child to terminate, and if that spawn
/// succeeds its child takes the slot.
pub proof fn law_spawn_failure_is_survived(
    pending: PendingView,
    failed_at: u64,
    input: InputView,
    at: u64,
    pid: u32,
    done_at: u64,
)
    requires
        input matches InputView::Change(event) && pending.complete(
            SpawnOutcome::Failed,
            failed_at,
        ).should_restart(event, at),
    ensures
        ({
            let idle = pending.complete(SpawnOutcome::Failed, failed_at);
            &&& idle.child is None
            &&& idle.last_restart == pending.last_restart
            &&& idle.options == pending.options
            &&& step_spec(idle, input, at) == StepView::Restarting(idle.restart())
            &&& idle.restart().terminate is None
            &&& idle.restart().complete(SpawnOutcome::Spawned(pid), done_at).child == Some(pid)
        }),
{
}

/// Two restarts in a row, with no input between them, leave the host with
/// exactly one child: the second restart names the child of the first for
/// termination, so that child is reaped before the second spawn is made.
pub proof fn law_restart_twice_leaves_one_child(
    supervisor: SupervisorView,
    first: u32,
    first_at: u64,
    second: u32,
    second_at: u64,
)
    ensures
        ({
            let live0 = slot(supervisor.child);
            let p1 = supervisor.restart();
            let s1 = p1.complete(SpawnOutcome::Spawned(first), first_at);
            let live1 = carried_out(live0, p1, SpawnOutcome::Spawned(first));
            let p2 = s1.restart();
            let s2 = p2.complete(SpawnOutcome::Spawned(second), second_at);
            let live2 = carried_out(live1, p2, SpawnOutcome::Spawned(second));
            &&& p2.terminate == Some(first)
            &&& reaped(live1, p2.terminate) == Set::<u32>::empty()
            &&& s2.child == Some(second)
            &&& live2 == set![second]
            &&& live2.len() == 1
        }),
{
    let live0 = slot(supervisor.child);
    let p1 = supervisor.restart();
    let live1 = carried_out(live0, p1, SpawnOutcome::Spawned(first));
    assert(reaped(live0, p1.terminate) =~= Set::<u32>::empty());
    assert(live1 =~= set![first]);
    let p2 = p1.complete(SpawnOutcome::Spawned(first), first_at).restart();
    assert(reaped(live1, p2.terminate) =~= Set::<u32>::empty());
    let live2 = carried_out(live1, p2, SpawnOutcome::Spawned(second));
    assert(live2 =~= set![second]);
}

} // verus!
