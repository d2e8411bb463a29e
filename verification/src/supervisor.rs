//! The process supervisor: the bookkeeping for the one child process.
//!
//! The supervisor owns the slot that names the current child and the time of
//! the last restart. It never touches a process itself. A restart takes the
//! supervisor and gives a `PendingRestart`, which tells the host which child
//! to terminate and what to spawn; the host hands the outcome back and gets
//! the supervisor again. While a restart is pending there is no supervisor to
//! ask for another one, so two restarts cannot overlap.

use vstd::prelude::*;
use crate::event::{EventView, WatchEvent};
use crate::options::{OptionsView, WatchOptions};
use crate::policy::{elapsed, elapsed_since, restart_due, should_restart};

verus! {

/// How the host's attempt to spawn the child ended.
#[derive(Debug, Clone, Copy, PartialEq, Eq)]
pub enum SpawnOutcome {
    /// The child runs, under this process id.
    Spawned(u32),
    /// The program could not be started.
    Failed,
}

/// The supervisor between restarts.
#[derive(Debug)]
pub struct Supervisor {
    options: WatchOptions,
    child: Option<u32>,
    last_restart: u64,
}

/// The mathematical content of a `Supervisor`.
pub struct SupervisorView {
    pub options: OptionsView,
    /// The process id of the current child, if there is one.
    pub child: Option<u32>,
    /// When the current state began: the time of the last successful spawn,
    /// or of the supervisor's creation before any.
    pub last_restart: u64,
}

/// A restart in progress: the old child is out of the slot, the new one is not
/// in it yet.
#[derive(Debug)]
pub struct PendingRestart {
    options: WatchOptions,
    last_restart: u64,
    terminate: Option<u32>,
}

/// The mathematical content of a `PendingRestart`.
pub struct PendingView {
    pub options: OptionsView,
    pub last_restart: u64,
    /// The child that has to be killed and reaped before the spawn.
    pub terminate: Option<u32>,
}

impl View for Supervisor {
    type V = SupervisorView;

    closed spec fn view(&self) -> SupervisorView {
        SupervisorView {
            options: self.options@,
            child: self.child,
            last_restart: self.last_restart,
        }
    }
}

impl View for PendingRestart {
    type V = PendingView;

    closed spec fn view(&self) -> PendingView {
        PendingView {
            options: self.options@,
            last_restart: self.last_restart,
            terminate: self.terminate,
        }
    }
}

impl SupervisorView {
    /// A supervisor that has spawned nothing yet.
    pub open spec fn fresh(options: OptionsView, now: u64) -> SupervisorView {
        SupervisorView { options, child: None, last_restart: now }
    }

    /// Whether `event`, arriving at `now`, warrants a restart.
    pub open spec fn should_restart(self, event: EventView, now: u64) -> bool {
        restart_due(self.options, event, elapsed(self.last_restart, now))
    }

    /// The restart that begins here: the current child leaves the slot and is
    /// named for termination.
    pub open spec fn restart(self) -> PendingView {
        PendingView {
            options: self.options,
            last_restart: self.last_restart,
            terminate: self.child,
        }
    }
}

impl PendingView {
    /// The supervisor after the spawn ended with `outcome` at `now`. A child
    /// that runs takes the slot and `now` becomes the time of the last
    /// restart; a failed spawn leaves the slot empty and the time as it was.
    pub open spec fn complete(self, outcome: SpawnOutcome, now: u64) -> SupervisorView {
        match outcome {
            SpawnOutcome::Spawned(pid) => SupervisorView {
                options: self.options,
                child: Some(pid),
                last_restart: now,
            },
            SpawnOutcome::Failed => SupervisorView {
                options: self.options,
                child: None,
                last_restart: self.last_restart,
            },
        }
    }
}

impl Supervisor {
    /// A supervisor with an empty slot, created at `now`.
    pub fn new(options: WatchOptions, now: u64) -> (s: Supervisor)
        ensures
            s@ == SupervisorView::fresh(options@, now),
    {
        Supervisor { options, child: None, last_restart: now }
    }

    /// The configuration.
    pub fn options(&self) -> (o: &WatchOptions)
        ensures
            o@ == self@.options,
    {
        &self.options
    }

    /// The process id of the current child, if there is one.
    pub fn child(&self) -> (c: Option<u32>)
        ensures
            c == self@.child,
    {
        self.child
    }

    /// The time of the last successful spawn, or of the supervisor's creation
    /// before any.
    pub fn last_restart(&self) -> (t: u64)
        ensures
            t == self@.last_restart,
    {
        self.last_restart
    }

    /// Whether `event`, arriving at `now`, warrants a restart.
    pub fn should_restart(&self, event: &WatchEvent, now: u64) -> (r: bool)
        ensures
            r == self@.should_restart(event@, now),
    {
        should_restart(event, elapsed_since(self.last_restart, now), &self.options)
    }

    /// Begins a restart. The slot is emptied whether or not the host manages
    /// to kill the old child.
    pub fn restart(self) -> (p: PendingRestart)
        ensures
            p@ == self@.restart(),
    {
        PendingRestart {
            options: self.options,
            last_restart: self.last_restart,
            terminate: self.child,
        }
    }

    /// Ends the supervisor's life. The result names the child that the host
    /// has to kill and reap before it exits.
    pub fn shutdown(self) -> (terminate: Option<u32>)
        ensures
            terminate == self@.child,
    {
        self.child
    }
}

impl PendingRestart {
    /// The child that the host has to kill and reap before it spawns.
    pub fn terminate(&self) -> (c: Option<u32>)
        ensures
            c == self@.terminate,
    {
        self.terminate
    }

    /// The program to spawn.
    pub fn program(&self) -> (p: &str)
        ensures
            p@ == self@.options.program(),
    {
        self.options.program()
    }

    /// The argument to hand to the program.
    pub fn script(&self) -> (s: &str)
        ensures
            s@ == self@.options.script,
    {
        self.options.script.as_str()
    }

    /// Ends the restart with what the host reports of the spawn, at `now`.
    pub fn complete(self, outcome: SpawnOutcome, now: u64) -> (s: Supervisor)
        ensures
            s@ == self@.complete(outcome, now),
    {
        match outcome {
            SpawnOutcome::Spawned(pid) => Supervisor {
                options: self.options,
                child: Some(pid),
                last_restart: now,
            },
            SpawnOutcome::Failed => Supervisor {
                options: self.options,
                child: None,
                last_restart: self.last_restart,
            },
        }
    }
}

} // verus!
