use nodemon_rs::engine::{step, Input, Step};
use nodemon_rs::error::EngineError;
use nodemon_rs::event::{ChangeKind, WatchEvent};
use nodemon_rs::options::WatchOptions;
use nodemon_rs::supervisor::{PendingRestart, SpawnOutcome, Supervisor};

fn options(delay: Option<u64>) -> WatchOptions {
    WatchOptions {
        script: String::from("server.js"),
        ext: Some(String::from("js,ts")),
        ignore: None,
        executable: None,
        delay,
    }
}

fn change(path: &str) -> Input {
    Input::Change(WatchEvent { kind: ChangeKind::Modify, paths: vec![String::from(path)] })
}

/// A host that does what it is told, and keeps count.
struct Host {
    live: Vec<u32>,
    next_pid: u32,
    spawned: usize,
    restarts: usize,
    most_live: usize,
}

impl Host {
    fn new() -> Host {
        Host { live: Vec::new(), next_pid: 100, spawned: 0, restarts: 0, most_live: 0 }
    }

    fn reap(&mut self, terminate: Option<u32>) {
        if let Some(pid) = terminate {
            self.live.retain(|p| *p != pid);
        }
    }

    fn carry_out(&mut self, pending: PendingRestart, succeed: bool, now: u64) -> Supervisor {
        self.restarts += 1;
        self.reap(pending.terminate());
        if succeed {
            let pid = self.next_pid;
            self.next_pid += 1;
            self.live.push(pid);
            self.spawned += 1;
            self.most_live = self.most_live.max(self.live.len());
            pending.complete(SpawnOutcome::Spawned(pid), now)
        } else {
            pending.complete(SpawnOutcome::Failed, now)
        }
    }
}

fn restarts_for(delay: Option<u64>, times: &[u64]) -> usize {
    let mut host = Host::new();
    let mut supervisor = host.carry_out(Supervisor::new(options(delay), 0).restart(), true, 0);
    host.restarts = 0;
    for at in times {
        supervisor = match step(supervisor, &change("foo.js"), *at) {
            Step::Watching(s) => s,
            Step::Restarting(p) => host.carry_out(p, true, *at),
            Step::Stopped(_) => panic!("stopped"),
        };
    }
    host.restarts
}

#[test]
fn new_supervisor_has_no_child() {
    let s = Supervisor::new(options(None), 42);
    assert_eq!(s.child(), None);
    assert_eq!(s.last_restart(), 42);
    assert_eq!(s.options(), &options(None));
}

#[test]
fn first_restart_terminates_nothing_and_runs_node() {
    let p = Supervisor::new(options(None), 0).restart();
    assert_eq!(p.terminate(), None);
    assert_eq!(p.program(), "node");
    assert_eq!(p.script(), "server.js");
}

#[test]
fn configured_program_is_used() {
    let mut o = options(None);
    o.executable = Some(String::from("deno"));
    assert_eq!(o.program(), "deno");
    let p = Supervisor::new(o, 0).restart();
    assert_eq!(p.program(), "deno");
    assert_eq!(p.script(), "server.js");
    assert_eq!(options(None).program(), "node");
}

#[test]
fn successful_spawn_fills_the_slot_and_sets_the_time() {
    let s = Supervisor::new(options(None), 5).restart().complete(SpawnOutcome::Spawned(77), 30);
    assert_eq!(s.child(), Some(77));
    assert_eq!(s.last_restart(), 30);
    assert_eq!(s.options(), &options(None));
}

#[test]
fn failed_spawn_leaves_slot_empty_and_time_unchanged() {
    let s = Supervisor::new(options(None), 5).restart().complete(SpawnOutcome::Failed, 30);
    assert_eq!(s.child(), None);
    assert_eq!(s.last_restart(), 5);
    let s = Supervisor::new(options(None), 5)
        .restart()
        .complete(SpawnOutcome::Spawned(9), 10)
        .restart()
        .complete(SpawnOutcome::Failed, 30);
    assert_eq!(s.child(), None);
    assert_eq!(s.last_restart(), 10);
}

#[test]
fn restart_names_the_current_child_for_termination() {
    let s = Supervisor::new(options(None), 0).restart().complete(SpawnOutcome::Spawned(7), 1);
    assert_eq!(s.restart().terminate(), Some(7));
}

#[test]
fn shutdown_names_the_current_child() {
    let s = Supervisor::new(options(None), 0);
    assert_eq!(s.shutdown(), None);
    let s = Supervisor::new(options(None), 0).restart().complete(SpawnOutcome::Spawned(7), 1);
    assert_eq!(s.shutdown(), Some(7));
}

#[test]
fn supervisor_measures_from_the_last_restart() {
    let e = WatchEvent { kind: ChangeKind::Modify, paths: vec![String::from("foo.js")] };
    let s = Supervisor::new(options(None), 1000).restart().complete(SpawnOutcome::Spawned(1), 2000);
    assert!(!s.should_restart(&e, 2000));
    assert!(!s.should_restart(&e, 2099));
    assert!(s.should_restart(&e, 2100));
    assert!(!s.should_restart(&e, 1500));
    assert!(!s.should_restart(&e, 0));
}

#[test]
fn two_events_100ms_apart_restart_once_with_delay_500() {
    assert_eq!(restarts_for(Some(500), &[1000, 1100]), 1);
}

#[test]
fn two_events_600ms_apart_restart_twice_with_delay_500() {
    assert_eq!(restarts_for(Some(500), &[1000, 1600]), 2);
}

#[test]
fn burst_of_events_restarts_once() {
    assert_eq!(restarts_for(None, &[1000, 1001, 1002, 1050, 1099]), 1);
    assert_eq!(restarts_for(None, &[1000, 1001, 1100]), 2);
    assert_eq!(restarts_for(None, &[50]), 0);
}

#[test]
fn qualifying_change_begins_a_restart() {
    let s = Supervisor::new(options(None), 0).restart().complete(SpawnOutcome::Spawned(3), 0);
    match step(s, &change("foo.js"), 500) {
        Step::Restarting(p) => {
            assert_eq!(p.terminate(), Some(3));
            assert_eq!(p.program(), "node");
            assert_eq!(p.script(), "server.js");
        }
        other => panic!("{:?}", other),
    }
}

#[test]
fn non_qualifying_change_leaves_the_supervisor_alone() {
    let s = Supervisor::new(options(None), 0).restart().complete(SpawnOutcome::Spawned(3), 7);
    match step(s, &change("foo.py"), 500) {
        Step::Watching(s) => {
            assert_eq!(s.child(), Some(3));
            assert_eq!(s.last_restart(), 7);
        }
        other => panic!("{:?}", other),
    }
}

#[test]
fn watch_error_leaves_the_supervisor_alone() {
    let s = Supervisor::new(options(None), 0).restart().complete(SpawnOutcome::Spawned(3), 7);
    match step(s, &Input::WatchError, 500) {
        Step::Watching(s) => {
            assert_eq!(s.child(), Some(3));
            assert_eq!(s.last_restart(), 7);
        }
        other => panic!("{:?}", other),
    }
}

#[test]
fn closed_channel_stops_and_names_the_child() {
    let s = Supervisor::new(options(None), 0).restart().complete(SpawnOutcome::Spawned(3), 7);
    assert!(matches!(step(s, &Input::Closed, 500), Step::Stopped(Some(3))));
    let s = Supervisor::new(options(None), 0);
    assert!(matches!(step(s, &Input::Closed, 0), Step::Stopped(None)));
}

#[test]
fn no_child_runs_after_shutdown() {
    let mut host = Host::new();
    let mut supervisor = host.carry_out(Supervisor::new(options(None), 0).restart(), true, 0);
    supervisor = match step(supervisor, &change("a.js"), 300) {
        Step::Restarting(p) => host.carry_out(p, true, 310),
        other => panic!("{:?}", other),
    };
    assert_eq!(host.live.len(), 1);
    match step(supervisor, &Input::Closed, 400) {
        Step::Stopped(terminate) => host.reap(terminate),
        other => panic!("{:?}", other),
    }
    assert!(host.live.is_empty());
}

#[test]
fn spawn_failure_is_survived() {
    let mut host = Host::new();
    let supervisor = host.carry_out(Supervisor::new(options(None), 0).restart(), false, 10);
    assert_eq!(supervisor.child(), None);
    assert!(host.live.is_empty());
    let supervisor = match step(supervisor, &change("a.js"), 300) {
        Step::Restarting(p) => {
            assert_eq!(p.terminate(), None);
            host.carry_out(p, true, 310)
        }
        other => panic!("{:?}", other),
    };
    assert_eq!(supervisor.child(), Some(100));
    assert_eq!(supervisor.last_restart(), 310);
    assert_eq!(host.live, vec![100]);
}

#[test]
fn failed_spawn_is_not_retried_without_an_event() {
    let mut host = Host::new();
    let supervisor = host.carry_out(Supervisor::new(options(None), 0).restart(), false, 10);
    match step(supervisor, &Input::WatchError, 5000) {
        Step::Watching(s) => assert_eq!(s.child(), None),
        other => panic!("{:?}", other),
    }
    match step(
        host.carry_out(Supervisor::new(options(None), 0).restart(), false, 10),
        &change("a.py"),
        5000,
    ) {
        Step::Watching(s) => assert_eq!(s.child(), None),
        other => panic!("{:?}", other),
    }
}

#[test]
fn restart_twice_leaves_one_child() {
    let mut host = Host::new();
    let s = host.carry_out(Supervisor::new(options(None), 0).restart(), true, 0);
    let first = s.child();
    let p = s.restart();
    assert_eq!(p.terminate(), first);
    let s = host.carry_out(p, true, 0);
    assert_eq!(host.live.len(), 1);
    assert_eq!(s.child(), Some(host.live[0]));
    assert_ne!(s.child(), first);
    assert!(!host.live.contains(&first.unwrap()));
    assert_eq!(host.most_live, 1);
}

#[test]
fn never_two_children_and_no_more_spawns_than_passing_events() {
    let inputs: Vec<(u64, &str, bool)> = vec![
        (50, "a.js", true),
        (150, "a.js", true),
        (160, "b.js", true),
        (260, "c.py", true),
        (270, "server.js", false),
        (300, "d.ts", true),
        (420, "e.ts", true),
        (1000, "README.md", true),
        (1001, "f.js", false),
        (1002, "g.js", true),
    ];
    let mut host = Host::new();
    let mut supervisor = host.carry_out(Supervisor::new(options(None), 0).restart(), true, 0);
    host.spawned = 0;
    host.restarts = 0;
    let mut passed = 0;
    for (at, path, succeed) in inputs {
        supervisor = match step(supervisor, &change(path), at) {
            Step::Watching(s) => s,
            Step::Restarting(p) => {
                passed += 1;
                host.carry_out(p, succeed, at)
            }
            Step::Stopped(_) => panic!("stopped"),
        };
        assert!(host.live.len() <= 1);
        assert!(host.spawned <= passed);
        assert_eq!(supervisor.child(), host.live.first().copied());
    }
    assert_eq!(passed, 6);
    assert_eq!(host.spawned, 4);
    assert_eq!(host.most_live, 1);
}

#[test]
fn fatal_errors_are_setup_and_closed_channel() {
    assert!(EngineError::Setup.is_fatal());
    assert!(EngineError::ChannelClosed.is_fatal());
    assert!(!EngineError::Spawn.is_fatal());
    assert!(!EngineError::WatchStream.is_fatal());
}

#[test]
fn inputs_and_outcomes_report_their_errors() {
    assert_eq!(change("a.js").error(), None);
    assert_eq!(Input::WatchError.error(), Some(EngineError::WatchStream));
    assert_eq!(Input::Closed.error(), Some(EngineError::ChannelClosed));
    assert_eq!(SpawnOutcome::Spawned(1).error(), None);
    assert_eq!(SpawnOutcome::Failed.error(), Some(EngineError::Spawn));
}
