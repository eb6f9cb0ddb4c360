use regia_launcher::companion::{
    Command, CompanionState, Event, FailureReason, Liveness, Supervisor,
};

const EVENTS: [Event; 8] = [
    Event::Spawned { pid: 9 },
    Event::SpawnFailed,
    Event::Ready { port: Some(4000) },
    Event::Ready { port: None },
    Event::Exited { code: Some(0) },
    Event::Exited { code: None },
    Event::WindowClosed,
    Event::Tick,
];

fn starting(timeout_ms: u64) -> Supervisor {
    let (supervisor, command) = Supervisor::new(timeout_ms).start();
    assert_eq!(command, Command::Spawn);
    supervisor
}

fn spawned(timeout_ms: u64, pid: u32) -> Supervisor {
    let (supervisor, command) = starting(timeout_ms).step(Event::Spawned { pid }, 1);
    assert_eq!(command, Command::Idle);
    supervisor
}

fn running(timeout_ms: u64, pid: u32, port: Option<u16>) -> Supervisor {
    let (supervisor, command) = spawned(timeout_ms, pid).step(Event::Ready { port }, 2);
    assert_eq!(command, Command::Notify);
    supervisor
}

#[test]
fn a_new_supervisor_has_an_open_window_and_no_process() {
    let supervisor = Supervisor::new(750);
    assert_eq!(
        supervisor,
        Supervisor { shutdown_timeout_ms: 750, window_open: true, state: CompanionState::NotStarted }
    );
}

#[test]
fn start_commands_the_spawn_once() {
    let (supervisor, command) = Supervisor::new(750).start();
    assert_eq!(command, Command::Spawn);
    assert_eq!(supervisor.state, CompanionState::Starting { pid: None });
    assert_eq!(supervisor.start(), (supervisor, Command::Idle));
}

#[test]
fn start_after_the_window_closed_spawns_nothing() {
    let (closed, command) = Supervisor::new(750).step(Event::WindowClosed, 5);
    assert_eq!(command, Command::Quit);
    assert_eq!(closed.start(), (closed, Command::Idle));
}

#[test]
fn spawned_records_the_pid() {
    let supervisor = spawned(100, 4242);
    assert_eq!(supervisor.state, CompanionState::Starting { pid: Some(4242) });
    assert!(supervisor.window_open);
}

#[test]
fn ready_makes_the_companion_running() {
    let supervisor = running(100, 4242, Some(8080));
    assert_eq!(supervisor.state, CompanionState::Running { pid: 4242, port: Some(8080) });
    let supervisor = running(100, 7, None);
    assert_eq!(supervisor.state, CompanionState::Running { pid: 7, port: None });
}

#[test]
fn spawn_failure_makes_the_companion_failed_and_tells_the_ui() {
    let (supervisor, command) = starting(100).step(Event::SpawnFailed, 3);
    assert_eq!(command, Command::Notify);
    assert_eq!(supervisor.state, CompanionState::Failed { reason: FailureReason::SpawnFailed });
    assert!(supervisor.window_open);
}

#[test]
fn an_exit_while_starting_is_a_failure() {
    let (supervisor, command) = spawned(100, 5).step(Event::Exited { code: Some(127) }, 3);
    assert_eq!(command, Command::Notify);
    assert_eq!(
        supervisor.state,
        CompanionState::Failed { reason: FailureReason::UnexpectedExit { code: Some(127) } }
    );
}

#[test]
fn an_exit_while_running_is_a_failure_whatever_the_code() {
    for code in [Some(1), Some(0), Some(-1), None] {
        let (supervisor, command) = running(100, 5, None).step(Event::Exited { code }, 3);
        assert_eq!(command, Command::Notify);
        assert_eq!(
            supervisor.state,
            CompanionState::Failed { reason: FailureReason::UnexpectedExit { code } }
        );
    }
}

#[test]
fn a_failed_companion_is_not_started_again() {
    let (failed, _) = starting(100).step(Event::SpawnFailed, 3);
    for event in EVENTS {
        let (after, command) = failed.step(event, 50);
        assert_eq!(after.state, failed.state);
        assert_ne!(command, Command::Spawn);
    }
    assert_eq!(failed.start(), (failed, Command::Idle));
}

#[test]
fn closing_over_a_running_companion_sets_the_deadline() {
    let (supervisor, command) = running(5000, 31, Some(1)).step(Event::WindowClosed, 100);
    assert_eq!(command, Command::Terminate { pid: 31 });
    assert_eq!(
        supervisor,
        Supervisor {
            shutdown_timeout_ms: 5000,
            window_open: false,
            state: CompanionState::ShuttingDown { pid: 31, deadline_ms: 5100, forced: false },
        }
    );
}

#[test]
fn closing_over_a_starting_companion_sets_the_deadline() {
    let (supervisor, command) = spawned(250, 8).step(Event::WindowClosed, 1000);
    assert_eq!(command, Command::Terminate { pid: 8 });
    assert_eq!(
        supervisor.state,
        CompanionState::ShuttingDown { pid: 8, deadline_ms: 1250, forced: false }
    );
    assert!(!supervisor.window_open);
}

#[test]
fn the_deadline_stops_at_the_end_of_the_clock() {
    let (supervisor, _) = running(100, 31, None).step(Event::WindowClosed, u64::MAX - 10);
    assert_eq!(
        supervisor.state,
        CompanionState::ShuttingDown { pid: 31, deadline_ms: u64::MAX, forced: false }
    );
    let (supervisor, _) = running(u64::MAX, 31, None).step(Event::WindowClosed, 1);
    assert_eq!(
        supervisor.state,
        CompanionState::ShuttingDown { pid: 31, deadline_ms: u64::MAX, forced: false }
    );
    let (supervisor, _) = running(0, 31, None).step(Event::WindowClosed, 77);
    assert_eq!(
        supervisor.state,
        CompanionState::ShuttingDown { pid: 31, deadline_ms: 77, forced: false }
    );
}

#[test]
fn a_tick_before_the_deadline_does_nothing() {
    let (closing, _) = running(5000, 31, None).step(Event::WindowClosed, 100);
    assert_eq!(closing.step(Event::Tick, 100), (closing, Command::Idle));
    assert_eq!(closing.step(Event::Tick, 5099), (closing, Command::Idle));
}

#[test]
fn a_tick_at_the_deadline_kills_once() {
    let (closing, _) = running(5000, 31, None).step(Event::WindowClosed, 100);
    let (killed, command) = closing.step(Event::Tick, 5100);
    assert_eq!(command, Command::Kill { pid: 31 });
    assert_eq!(
        killed.state,
        CompanionState::ShuttingDown { pid: 31, deadline_ms: 5100, forced: true }
    );
    assert_eq!(killed.step(Event::Tick, 5101), (killed, Command::Idle));
    assert_eq!(killed.step(Event::Tick, u64::MAX), (killed, Command::Idle));
}

#[test]
fn an_exit_while_shutting_down_stops_the_companion() {
    let (closing, _) = running(5000, 31, None).step(Event::WindowClosed, 100);
    let (stopped, command) = closing.step(Event::Exited { code: Some(0) }, 200);
    assert_eq!(command, Command::Quit);
    assert_eq!(stopped.state, CompanionState::Stopped { code: Some(0), forced: false });
    assert!(!stopped.window_open);
}

#[test]
fn an_exit_after_the_kill_stops_the_companion_as_forced() {
    let (closing, _) = running(5000, 31, None).step(Event::WindowClosed, 100);
    let (killed, _) = closing.step(Event::Tick, 6000);
    let (stopped, command) = killed.step(Event::Exited { code: None }, 6001);
    assert_eq!(command, Command::Quit);
    assert_eq!(stopped.state, CompanionState::Stopped { code: None, forced: true });
}

#[test]
fn a_stopped_companion_stays_stopped() {
    let (closing, _) = running(5000, 31, None).step(Event::WindowClosed, 100);
    let (stopped, _) = closing.step(Event::Exited { code: Some(0) }, 200);
    for event in EVENTS {
        assert_eq!(stopped.step(event, 300), (stopped, Command::Idle));
    }
    assert_eq!(stopped.start(), (stopped, Command::Idle));
}

#[test]
fn while_shutting_down_only_exit_and_time_count() {
    let (closing, _) = running(5000, 31, None).step(Event::WindowClosed, 100);
    for event in [
        Event::Spawned { pid: 9 },
        Event::SpawnFailed,
        Event::Ready { port: Some(1) },
        Event::WindowClosed,
    ] {
        assert_eq!(closing.step(event, 9000), (closing, Command::Idle));
    }
}

#[test]
fn closing_without_a_companion_quits_at_once() {
    let (closed, command) = Supervisor::new(5000).step(Event::WindowClosed, 100);
    assert_eq!(command, Command::Quit);
    assert_eq!(closed.state, CompanionState::NotStarted);
    assert!(!closed.window_open);
    assert_eq!(closed.step(Event::WindowClosed, 101), (closed, Command::Idle));
}

#[test]
fn closing_over_a_failed_companion_quits_at_once() {
    let (failed, _) = running(5000, 31, None).step(Event::Exited { code: Some(3) }, 50);
    let (closed, command) = failed.step(Event::WindowClosed, 100);
    assert_eq!(command, Command::Quit);
    assert_eq!(closed.state, failed.state);
    assert!(!closed.window_open);
}

#[test]
fn a_process_that_appears_after_the_close_is_ended() {
    let (closed, command) = starting(400).step(Event::WindowClosed, 100);
    assert_eq!(command, Command::Idle);
    assert_eq!(closed.state, CompanionState::Starting { pid: None });
    assert!(!closed.window_open);
    let (closing, command) = closed.step(Event::Spawned { pid: 77 }, 150);
    assert_eq!(command, Command::Terminate { pid: 77 });
    assert_eq!(
        closing.state,
        CompanionState::ShuttingDown { pid: 77, deadline_ms: 550, forced: false }
    );
}

#[test]
fn a_spawn_that_fails_after_the_close_quits() {
    let (closed, _) = starting(400).step(Event::WindowClosed, 100);
    let (failed, command) = closed.step(Event::SpawnFailed, 150);
    assert_eq!(command, Command::Quit);
    assert_eq!(failed.state, CompanionState::Failed { reason: FailureReason::SpawnFailed });
}

#[test]
fn events_that_do_not_fit_the_state_are_ignored() {
    let fresh = Supervisor::new(10);
    for event in [
        Event::Spawned { pid: 1 },
        Event::SpawnFailed,
        Event::Ready { port: None },
        Event::Exited { code: Some(0) },
        Event::Tick,
    ] {
        assert_eq!(fresh.step(event, 5), (fresh, Command::Idle));
    }
    let pending = starting(10);
    for event in [Event::Ready { port: None }, Event::Exited { code: Some(0) }, Event::Tick] {
        assert_eq!(pending.step(event, 5), (pending, Command::Idle));
    }
    let alive = spawned(10, 3);
    for event in [Event::Spawned { pid: 4 }, Event::SpawnFailed, Event::Tick] {
        assert_eq!(alive.step(event, 5), (alive, Command::Idle));
    }
    let ready = running(10, 3, Some(80));
    for event in [
        Event::Spawned { pid: 4 },
        Event::SpawnFailed,
        Event::Ready { port: Some(81) },
        Event::Tick,
    ] {
        assert_eq!(ready.step(event, 5), (ready, Command::Idle));
    }
}

#[test]
fn pid_of_each_state() {
    assert_eq!(CompanionState::NotStarted.pid(), None);
    assert_eq!(CompanionState::Starting { pid: None }.pid(), None);
    assert_eq!(CompanionState::Starting { pid: Some(3) }.pid(), Some(3));
    assert_eq!(CompanionState::Running { pid: 4, port: None }.pid(), Some(4));
    assert_eq!(
        CompanionState::ShuttingDown { pid: 5, deadline_ms: 0, forced: true }.pid(),
        Some(5)
    );
    assert_eq!(CompanionState::Stopped { code: Some(0), forced: false }.pid(), None);
    assert_eq!(CompanionState::Failed { reason: FailureReason::SpawnFailed }.pid(), None);
}

#[test]
fn readiness_of_each_state() {
    assert_eq!(CompanionState::NotStarted.readiness(), None);
    assert_eq!(CompanionState::Starting { pid: Some(3) }.readiness(), None);
    assert_eq!(CompanionState::Running { pid: 4, port: Some(8123) }.readiness(), Some(8123));
    assert_eq!(CompanionState::Running { pid: 4, port: None }.readiness(), None);
    assert_eq!(
        CompanionState::ShuttingDown { pid: 5, deadline_ms: 0, forced: false }.readiness(),
        None
    );
    assert_eq!(CompanionState::Stopped { code: None, forced: true }.readiness(), None);
}

#[test]
fn liveness_of_each_state() {
    assert_eq!(CompanionState::NotStarted.liveness(), None);
    assert_eq!(CompanionState::Starting { pid: None }.liveness(), Some(Liveness::Starting));
    assert_eq!(CompanionState::Starting { pid: Some(1) }.liveness(), Some(Liveness::Starting));
    assert_eq!(
        CompanionState::Running { pid: 4, port: None }.liveness(),
        Some(Liveness::Running)
    );
    assert_eq!(
        CompanionState::ShuttingDown { pid: 5, deadline_ms: 9, forced: false }.liveness(),
        Some(Liveness::Running)
    );
    assert_eq!(
        CompanionState::Stopped { code: Some(2), forced: true }.liveness(),
        Some(Liveness::Exited { code: Some(2) })
    );
    assert_eq!(
        CompanionState::Failed { reason: FailureReason::UnexpectedExit { code: None } }.liveness(),
        Some(Liveness::Failed { reason: FailureReason::UnexpectedExit { code: None } })
    );
}

#[test]
fn label_of_each_state() {
    assert_eq!(CompanionState::NotStarted.label(), "NotStarted");
    assert_eq!(CompanionState::Starting { pid: None }.label(), "Starting");
    assert_eq!(CompanionState::Running { pid: 4, port: None }.label(), "Running");
    assert_eq!(
        CompanionState::ShuttingDown { pid: 5, deadline_ms: 9, forced: false }.label(),
        "ShuttingDown"
    );
    assert_eq!(CompanionState::Stopped { code: None, forced: false }.label(), "Stopped");
    assert_eq!(
        CompanionState::Failed { reason: FailureReason::SpawnFailed }.label(),
        "Failed"
    );
}

#[test]
fn a_close_never_moves_a_deadline() {
    let shutting_down = Supervisor {
        shutdown_timeout_ms: 5000,
        window_open: true,
        state: CompanionState::ShuttingDown { pid: 3, deadline_ms: 40, forced: true },
    };
    let (closed, command) = shutting_down.step(Event::WindowClosed, 1000);
    assert_eq!(command, Command::Idle);
    assert_eq!(
        closed,
        Supervisor {
            shutdown_timeout_ms: 5000,
            window_open: false,
            state: CompanionState::ShuttingDown { pid: 3, deadline_ms: 40, forced: true },
        }
    );
}
