//! What holds of the launcher and of the supervisor in every state and for every event.

use crate::capability::{lemma_without, lists, Capability};
use crate::companion::{
    allowed_edge, surfaced, Command, CompanionState, Event, FailureReason, Supervisor,
};
use crate::launcher::{LaunchError, LauncherView, PlanView, SetupView};
use crate::window::PRODUCT_TITLE;
use vstd::prelude::*;

verus! {

/// A new supervisor is well formed, and asking for the companion process and taking in
/// an event keep it so.
pub proof fn lemma_well_formed(supervisor: Supervisor, timeout_ms: u64, event: Event, now_ms: u64)
    requires
        supervisor.wf(),
    ensures
        (Supervisor {
            shutdown_timeout_ms: timeout_ms,
            window_open: true,
            state: CompanionState::NotStarted,
        }).wf(),
        supervisor.started().0.wf(),
        supervisor.next(event, now_ms).0.wf(),
{
}

/// The configured timeout never changes, and a closed window is not opened again.
pub proof fn lemma_settings_kept(supervisor: Supervisor, event: Event, now_ms: u64)
    ensures
        supervisor.next(event, now_ms).0.shutdown_timeout_ms == supervisor.shutdown_timeout_ms,
        supervisor.started().0.shutdown_timeout_ms == supervisor.shutdown_timeout_ms,
        !supervisor.window_open ==> !supervisor.next(event, now_ms).0.window_open,
        supervisor.started().0.window_open == supervisor.window_open,
{
}

/// The companion state moves only along the edges of its life cycle: from not started
/// to starting, on to running, shutting down and stopped, with failure reachable from
/// starting and running, and shutting down also from starting when the window closes
/// before the process is ready.
pub proof fn lemma_life_cycle(supervisor: Supervisor, event: Event, now_ms: u64)
    ensures
        ({
            let after = supervisor.next(event, now_ms).0.state;
            after == supervisor.state || allowed_edge(supervisor.state, after)
        }),
        ({
            let after = supervisor.started().0.state;
            after == supervisor.state || allowed_edge(supervisor.state, after)
        }),
{
}

/// A spawn that fails puts the companion into `Failed` in that very step, and the
/// change is surfaced: to the UI while the window is open, else by quitting. The
/// state is never left again.
pub proof fn lemma_spawn_failure_surfaces(
    supervisor: Supervisor,
    now_ms: u64,
    later: Event,
    later_ms: u64,
)
    requires
        supervisor.state == (CompanionState::Starting { pid: None }),
    ensures
        ({
            let (failed, command) = supervisor.next(Event::SpawnFailed, now_ms);
            &&& failed.state == CompanionState::Failed { reason: FailureReason::SpawnFailed }
            &&& command == surfaced(supervisor.window_open)
            &&& command != Command::Idle
            &&& failed.next(later, later_ms).0.state == failed.state
            &&& failed.started() == (failed, Command::Idle)
        }),
{
}

/// No event and no request brings a companion that failed or stopped back to life:
/// there is no restart.
pub proof fn lemma_no_restart(supervisor: Supervisor, event: Event, now_ms: u64)
    requires
        supervisor.state is Failed || supervisor.state is Stopped,
    ensures
        supervisor.next(event, now_ms).0.state == supervisor.state,
        supervisor.next(event, now_ms).1 != Command::Spawn,
        supervisor.started() == (supervisor, Command::Idle),
{
}

/// Every change of the companion state that happens while the window is open and that
/// the window's closing did not cause is answered with a command: none passes in silence.
/// The one exception is the arrival of the process identifier, which leaves the
/// companion starting.
pub proof fn lemma_changes_are_surfaced(supervisor: Supervisor, event: Event, now_ms: u64)
    requires
        supervisor.wf(),
        supervisor.window_open,
    ensures
        ({
            let (after, command) = supervisor.next(event, now_ms);
            after.state != supervisor.state && !(event is Spawned) ==> command != Command::Idle
        }),
        ({
            let (after, command) = supervisor.next(event, now_ms);
            after.window_open && (after.state is Failed || after.state is Running) && after.state
                != supervisor.state ==> command == Command::Notify
        }),
{
}

/// Closing the window over a process that exists tells that process to end and sets
/// the deadline by the configured timeout. From then on the companion can only stay
/// shutting down or become stopped; it becomes stopped, and the application quits, as
/// soon as the exit is seen. A tick at or after the deadline kills the process, and
/// the exit that follows stops the companion as forced.
pub proof fn lemma_close_stops_companion(
    supervisor: Supervisor,
    pid: u32,
    closed_ms: u64,
    event: Event,
    later_ms: u64,
    code: Option<i32>,
)
    requires
        supervisor.wf(),
        supervisor.window_open,
        supervisor.state.spec_pid() == Some(pid),
    ensures
        ({
            let (closing, command) = supervisor.next(Event::WindowClosed, closed_ms);
            let deadline_ms = supervisor.deadline(closed_ms);
            let (expired, escalation) = closing.next(Event::Tick, later_ms);
            &&& command == Command::Terminate { pid }
            &&& !closing.window_open
            &&& closing.state == CompanionState::ShuttingDown { pid, deadline_ms, forced: false }
            &&& deadline_ms - closed_ms <= supervisor.shutdown_timeout_ms
            &&& deadline_ms == closed_ms + supervisor.shutdown_timeout_ms || deadline_ms
                == u64::MAX
            &&& (closing.next(event, later_ms).0.state is ShuttingDown || closing.next(
                event,
                later_ms,
            ).0.state is Stopped)
            &&& closing.next(Event::Exited { code }, later_ms) == (
                closing.at(CompanionState::Stopped { code, forced: false }),
                Command::Quit,
            )
            &&& later_ms < deadline_ms ==> expired == closing && escalation == Command::Idle
            &&& later_ms >= deadline_ms ==> {
                &&& escalation == Command::Kill { pid }
                &&& expired.state == CompanionState::ShuttingDown { pid, deadline_ms, forced: true }
                &&& expired.next(Event::Exited { code }, later_ms) == (
                    expired.at(CompanionState::Stopped { code, forced: true }),
                    Command::Quit,
                )
                &&& (expired.next(event, later_ms).0.state is ShuttingDown || expired.next(
                    event,
                    later_ms,
                ).0.state is Stopped)
            }
        }),
{
}

/// A process that comes into being after the window was closed is told to end in the
/// step that reports it.
pub proof fn lemma_late_spawn_is_ended(supervisor: Supervisor, pid: u32, now_ms: u64)
    requires
        supervisor.state == (CompanionState::Starting { pid: None }),
        !supervisor.window_open,
    ensures
        supervisor.next(Event::Spawned { pid }, now_ms) == (
            supervisor.at(
                CompanionState::ShuttingDown {
                    pid,
                    deadline_ms: supervisor.deadline(now_ms),
                    forced: false,
                },
            ),
            Command::Terminate { pid },
        ),
{
}

/// The companion does not outlive the window: once the window is closed, a process
/// that exists is shutting down under its deadline, and the application is told to quit
/// only when no process is left. Quitting is commanded for a closed window only.
pub proof fn lemma_no_orphan(supervisor: Supervisor, event: Event, now_ms: u64)
    requires
        supervisor.wf(),
    ensures
        ({
            let (after, command) = supervisor.next(event, now_ms);
            &&& !after.window_open && after.state.spec_pid() is Some ==> after.state is ShuttingDown
            &&& command == Command::Quit ==> !after.window_open && after.state.spec_pid() is None
        }),
{
}

/// A process is told to end, or killed, only under the identifier that its spawn
/// reported, and only while the supervisor is shutting that process down.
pub proof fn lemma_commands_name_the_companion(supervisor: Supervisor, event: Event, now_ms: u64)
    ensures
        ({
            let (after, command) = supervisor.next(event, now_ms);
            &&& command matches Command::Terminate { pid } ==> after.state is ShuttingDown
                && after.state.spec_pid() == Some(pid) && (supervisor.state.spec_pid() == Some(pid)
                || event == Event::Spawned { pid })
            &&& command matches Command::Kill { pid } ==> after.state is ShuttingDown
                && supervisor.state.spec_pid() == Some(pid)
        }),
{
}

/// A spawn is commanded only by the request to start, never by an event, and at most
/// once: after it the companion is no longer `NotStarted`, and no step returns there.
pub proof fn lemma_spawn_once(supervisor: Supervisor, event: Event, now_ms: u64)
    ensures
        supervisor.next(event, now_ms).1 != Command::Spawn,
        supervisor.started().1 == Command::Spawn ==> !(supervisor.started().0.state is NotStarted),
        !(supervisor.state is NotStarted) ==> !(supervisor.next(event, now_ms).0.state is NotStarted),
{
}

/// Events move the supervisor and nothing else: the capability set and the title of a
/// launcher are the same after any sequence of events.
pub proof fn lemma_events_keep_context(launcher: LauncherView, events: Seq<(Event, u64)>)
    ensures
        launcher.replay(events).capabilities == launcher.capabilities,
        launcher.replay(events).title == launcher.title,
    decreases events.len(),
{
    if events.len() > 0 {
        lemma_events_keep_context(launcher, events.drop_last());
    }
}

/// Whatever capabilities the plan registers, and whatever happens afterwards, the main
/// window bears the product title once setup has set it. If the window did not take
/// the title, it keeps the declared one.
pub proof fn lemma_title_after_setup(setup: SetupView, events: Seq<(Event, u64)>)
    ensures
        setup.finished(true).0.replay(events).title == PRODUCT_TITLE@,
        setup.finished(false).0.replay(events).title == setup.declared_title,
{
    lemma_events_keep_context(setup.finished(true).0, events);
    lemma_events_keep_context(setup.finished(false).0, events);
}

/// The UI layer reaches exactly the capabilities that the plan registered: the set of
/// the launcher is that of the plan, in its order, at startup and after any sequence
/// of events. So a capability that was not registered is never reachable.
pub proof fn lemma_unregistered_capability_unreachable(
    setup: SetupView,
    title_applied: bool,
    events: Seq<(Event, u64)>,
    capability: Capability,
)
    ensures
        setup.finished(title_applied).0.replay(events).capabilities == setup.plan.capabilities,
        setup.finished(title_applied).0.replay(events).permits(capability) == lists(
            setup.plan.capabilities,
            capability,
        ),
{
    lemma_events_keep_context(setup.finished(title_applied).0, events);
}

/// A plan that goes on after a capability failed to initialise no longer lists that
/// capability, and lists every other capability as before.
pub proof fn lemma_failed_capability_unreachable(
    plan: PlanView,
    failed: Capability,
    other: Capability,
)
    ensures
        match plan.after_failure(failed) {
            Ok(degraded) => {
                &&& !lists(degraded.capabilities, failed)
                &&& other != failed ==> lists(degraded.capabilities, other) == lists(
                    plan.capabilities,
                    other,
                )
                &&& degraded.companion == plan.companion
            },
            Err(error) => error.spec_is_fatal() && lists(plan.capabilities, failed),
        },
{
    lemma_without(plan.capabilities, failed, other);
}

/// The window is shown without waiting for the companion: when setup ends the window
/// is open and the companion is not running. It is starting if its spawn was
/// commanded, has failed if no registered capability allows a spawn, and was not asked
/// for if the plan has none.
pub proof fn lemma_window_shown_before_ready(setup: SetupView, title_applied: bool)
    ensures
        ({
            let (launcher, command) = setup.finished(title_applied);
            let state = launcher.supervisor.state;
            &&& launcher.supervisor.window_open
            &&& launcher.supervisor.wf()
            &&& !(state is Running)
            &&& command == Command::Spawn <==> state == CompanionState::Starting { pid: None }
            &&& command == Command::Notify <==> launcher.companion_error() == Some(
                LaunchError::CompanionSpawnFailed,
            )
            &&& command == Command::Idle <==> state is NotStarted
            &&& state is NotStarted <==> setup.plan.companion is None
        }),
{
}

/// A launcher whose supervisor is well formed stays so through any sequence of events.
pub proof fn lemma_replay_well_formed(launcher: LauncherView, events: Seq<(Event, u64)>)
    requires
        launcher.supervisor.wf(),
    ensures
        launcher.replay(events).supervisor.wf(),
    decreases events.len(),
{
    if events.len() > 0 {
        lemma_replay_well_formed(launcher, events.drop_last());
    }
}

/// A companion that failed or stopped is in that state for good, whatever follows.
pub proof fn lemma_end_states_are_final(launcher: LauncherView, events: Seq<(Event, u64)>)
    requires
        launcher.supervisor.state is Failed || launcher.supervisor.state is Stopped,
    ensures
        launcher.replay(events).supervisor.state == launcher.supervisor.state,
    decreases events.len(),
{
    if events.len() > 0 {
        lemma_end_states_are_final(launcher, events.drop_last());
    }
}

/// Once the companion is shutting down, whatever follows leaves it shutting down or
/// stopped. It is stopped if its exit was among the events. If not, and a tick came at
/// or after the deadline, it has been killed.
pub proof fn lemma_shutdown_ends_stopped(
    launcher: LauncherView,
    pid: u32,
    deadline_ms: u64,
    forced: bool,
    events: Seq<(Event, u64)>,
)
    requires
        launcher.supervisor.state == (CompanionState::ShuttingDown { pid, deadline_ms, forced }),
    ensures
        ({
            let after = launcher.replay(events).supervisor.state;
            let exited = exists|i: int| 0 <= i < events.len() && (#[trigger] events[i]).0 is Exited;
            let expired = exists|i: int|
                0 <= i < events.len() && (#[trigger] events[i]).0 is Tick && events[i].1
                    >= deadline_ms;
            &&& exited <==> after is Stopped
            &&& !exited ==> after == CompanionState::ShuttingDown {
                pid,
                deadline_ms,
                forced: forced || expired,
            }
        }),
    decreases events.len(),
{
    if events.len() > 0 {
        let front = events.drop_last();
        lemma_shutdown_ends_stopped(launcher, pid, deadline_ms, forced, front);
        let before = launcher.replay(front);
        assert(launcher.replay(events) == before.after(events.last().0, events.last().1));
        let exited_before = exists|i: int| 0 <= i < front.len() && (#[trigger] front[i]).0 is Exited;
        let expired_before = exists|i: int|
            0 <= i < front.len() && (#[trigger] front[i]).0 is Tick && front[i].1 >= deadline_ms;
        if exited_before {
            let i = choose|i: int| 0 <= i < front.len() && (#[trigger] front[i]).0 is Exited;
            assert(events[i] == front[i]);
            lemma_end_states_are_final(before, seq![events.last()]);
            assert(seq![events.last()].drop_last() =~= Seq::<(Event, u64)>::empty());
        }
        if expired_before {
            let i = choose|i: int|
                0 <= i < front.len() && (#[trigger] front[i]).0 is Tick && front[i].1 >= deadline_ms;
            assert(events[i] == front[i]);
        }
        let last = events.len() - 1;
        assert(events[last] == events.last());
        assert forall|i: int| 0 <= i < events.len() && (#[trigger] events[i]).0 is Exited implies i
            == last || exited_before by {
            if i < last {
                assert(front[i] == events[i]);
            }
        }
        assert forall|i: int|
            0 <= i < events.len() && (#[trigger] events[i]).0 is Tick && events[i].1
                >= deadline_ms implies i == last || expired_before by {
            if i < last {
                assert(front[i] == events[i]);
            }
        }
    }
}

} // verus!
