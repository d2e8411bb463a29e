//! The coordinator: one step of the watch loop.
//!
//! The host receives from the watcher, hands each input to `step` in the
//! order of arrival, and does what the result says. A restart is carried out
//! in full, and its outcome handed back, before the next input is looked at.

use vstd::prelude::*;
use crate::error::{fatal, EngineError};
use crate::event::{EventView, WatchEvent};
use crate::supervisor::{PendingRestart, PendingView, SpawnOutcome, Supervisor, SupervisorView};

verus! {

/// How often the watcher polls the directory tree, in milliseconds. The
/// interval is fixed.
pub const POLL_INTERVAL_MS: u64 = 100;

/// What the host received from the watcher.
#[derive(Debug)]
pub enum Input {
    /// A change notification.
    Change(WatchEvent),
    /// The watcher reported a failure in place of an event.
    WatchError,
    /// The watcher's channel is closed for good.
    Closed,
}

/// The mathematical content of an `Input`.
pub enum InputView {
    Change(EventView),
    WatchError,
    Closed,
}

impl View for Input {
    type V = InputView;

    open spec fn view(&self) -> InputView {
        match self {
            Input::Change(e) => InputView::Change(e@),
            Input::WatchError => InputView::WatchError,
            Input::Closed => InputView::Closed,
        }
    }
}

/// Where the engine stands after one input, and with it what the host has to
/// do next.
#[derive(Debug)]
pub enum Step {
    /// Nothing to do: go on receiving.
    Watching(Supervisor),
    /// Carry out this restart, then go on receiving.
    Restarting(PendingRestart),
    /// The engine has stopped. Kill and reap the child named here, if any,
    /// and return.
    Stopped(Option<u32>),
}

/// The mathematical content of a `Step`.
pub enum StepView {
    Watching(SupervisorView),
    Restarting(PendingView),
    Stopped(Option<u32>),
}

impl View for Step {
    type V = StepView;

    open spec fn view(&self) -> StepView {
        match self {
            Step::Watching(s) => StepView::Watching(s@),
            Step::Restarting(p) => StepView::Restarting(p@),
            Step::Stopped(c) => StepView::Stopped(*c),
        }
    }
}

impl InputView {
    /// The failure that this input reports, if it reports one.
    pub open spec fn error(self) -> Option<EngineError> {
        match self {
            InputView::Change(_) => None,
            InputView::WatchError => Some(EngineError::WatchStream),
            InputView::Closed => Some(EngineError::ChannelClosed),
        }
    }
}

/// One step of the watch loop, for `input` arriving at `now`.
///
/// A change that passes the restart policy begins a restart; any other
/// change, and a watcher failure, leave the supervisor as it was. A closed
/// channel stops the engine and names the current child for termination.
pub open spec fn step_spec(supervisor: SupervisorView, input: InputView, now: u64) -> StepView {
    match input {
        InputView::Change(event) => if supervisor.should_restart(event, now) {
            StepView::Restarting(supervisor.restart())
        } else {
            StepView::Watching(supervisor)
        },
        InputView::WatchError => StepView::Watching(supervisor),
        InputView::Closed => StepView::Stopped(supervisor.child),
    }
}

impl Input {
    /// The failure that this input reports, if it reports one.
    pub fn error(&self) -> (e: Option<EngineError>)
        ensures
            e == self@.error(),
    {
        match self {
            Input::Change(_) => None,
            Input::WatchError => Some(EngineError::WatchStream),
            Input::Closed => Some(EngineError::ChannelClosed),
        }
    }
}

impl SpawnOutcome {
    /// The failure that this outcome reports, if it reports one.
    pub fn error(&self) -> (e: Option<EngineError>)
        ensures
            e == (match *self {
                SpawnOutcome::Spawned(_) => None,
                SpawnOutcome::Failed => Some(EngineError::Spawn),
            }),
    {
        match self {
            SpawnOutcome::Spawned(_) => None,
            SpawnOutcome::Failed => Some(EngineError::Spawn),
        }
    }
}

/// One step of the watch loop, for `input` arriving at `now`.
pub fn step(supervisor: Supervisor, input: &Input, now: u64) -> (next: Step)
    ensures
        next@ == step_spec(supervisor@, input@, now),
{
    match input {
        Input::Change(event) => {
            if supervisor.should_restart(event, now) {
                Step::Restarting(supervisor.restart())
            } else {
                Step::Watching(supervisor)
            }
        },
        Input::WatchError => Step::Watching(supervisor),
        Input::Closed => Step::Stopped(supervisor.shutdown()),
    }
}

/// The engine stops on exactly the inputs that report a fatal failure.
pub proof fn law_stops_on_fatal_input_only(supervisor: SupervisorView, input: InputView, now: u64)
    ensures
        step_spec(supervisor, input, now) is Stopped <==> (input.error() matches Some(e) && fatal(
            e,
        )),
{
}

} // verus!
