//! Supervision of the companion process: the state the UI can observe, the events the
//! event loop reports, and the command the supervisor answers each event with.
//!
//! The supervisor performs nothing itself. The event loop spawns, signals and observes the
//! process; it reports what happened as an [`Event`] and carries out the [`Command`] it
//! gets back.

use vstd::prelude::*;

verus! {

/// Why the companion process is unavailable.
#[derive(Clone, Copy, Debug, PartialEq, Eq, Structural)]
pub enum FailureReason {
    /// The process could not be started.
    SpawnFailed,
    /// The process ended although nobody had asked it to.
    UnexpectedExit { code: Option<i32> },
}

/// The state of the companion process, as the UI observes it.
#[allow(inconsistent_fields)]
#[derive(Clone, Copy, Debug, PartialEq, Eq, Structural)]
pub enum CompanionState {
    /// No process has been asked for.
    NotStarted,
    /// A spawn has been asked for. `pid` is known once the process exists.
    Starting { pid: Option<u32> },
    /// The process has signalled that it is ready, on `port` if it serves one.
    Running { pid: u32, port: Option<u16> },
    /// The process has been told to end and has until `deadline_ms`. `forced` says that
    /// the deadline has passed and the process has been killed.
    ShuttingDown { pid: u32, deadline_ms: u64, forced: bool },
    /// The process was seen to exit after it had been told to end.
    Stopped { code: Option<i32>, forced: bool },
    /// The process is unavailable and will not be started again.
    Failed { reason: FailureReason },
}

/// Whether a spawned process is alive.
#[derive(Clone, Copy, Debug, PartialEq, Eq, Structural)]
pub enum Liveness {
    Starting,
    Running,
    Exited { code: Option<i32> },
    Failed { reason: FailureReason },
}

/// What the event loop reports to the supervisor.
#[derive(Clone, Copy, Debug, PartialEq, Eq, Structural)]
pub enum Event {
    /// The spawn succeeded; the process has identifier `pid`.
    Spawned { pid: u32 },
    /// The spawn failed; no process exists.
    SpawnFailed,
    /// The process signalled readiness.
    Ready { port: Option<u16> },
    /// The process was seen to exit. `code` is absent when a signal ended it.
    Exited { code: Option<i32> },
    /// The main window was closed.
    WindowClosed,
    /// Time has passed.
    Tick,
}

/// What the supervisor asks the event loop to do.
#[derive(Clone, Copy, Debug, PartialEq, Eq, Structural)]
pub enum Command {
    /// Nothing.
    Idle,
    /// Start the companion process and report `Spawned` or `SpawnFailed`.
    Spawn,
    /// Tell the UI that the companion state has changed.
    Notify,
    /// Ask process `pid` to end.
    Terminate { pid: u32 },
    /// End process `pid` by force.
    Kill { pid: u32 },
    /// Leave the application.
    Quit,
}

/// The supervisor of one companion process.
#[derive(Clone, Copy, Debug, PartialEq, Eq, Structural)]
pub struct Supervisor {
    /// How long the process gets to end after it has been asked to.
    pub shutdown_timeout_ms: u64,
    /// Whether the main window is open.
    pub window_open: bool,
    /// The state of the process.
    pub state: CompanionState,
}

/// How a change of state is made known: to the UI while the window is open, and by
/// leaving the application once it is closed.
pub open spec fn surfaced(window_open: bool) -> Command {
    if window_open {
        Command::Notify
    } else {
        Command::Quit
    }
}

/// The transitions that the companion state can make.
pub open spec fn allowed_edge(from: CompanionState, to: CompanionState) -> bool {
    ||| from is NotStarted && to is Starting
    ||| from is Starting && to is Starting
    ||| from is Starting && to is Running
    ||| from is Starting && to is ShuttingDown
    ||| from is Running && to is ShuttingDown
    ||| from is ShuttingDown && to is ShuttingDown
    ||| from is ShuttingDown && to is Stopped
    ||| from is Starting && to is Failed
    ||| from is Running && to is Failed
}

impl CompanionState {
    /// The identifier of the process, while one is known to exist.
    pub open spec fn spec_pid(self) -> Option<u32> {
        match self {
            CompanionState::Starting { pid } => pid,
            CompanionState::Running { pid, .. } => Some(pid),
            CompanionState::ShuttingDown { pid, .. } => Some(pid),
            _ => None,
        }
    }

    /// The port on which the process reported to be ready.
    pub open spec fn spec_readiness(self) -> Option<u16> {
        match self {
            CompanionState::Running { port, .. } => port,
            _ => None,
        }
    }

    /// Whether a process was spawned and is alive, as far as has been observed.
    pub open spec fn spec_liveness(self) -> Option<Liveness> {
        match self {
            CompanionState::NotStarted => None,
            CompanionState::Starting { .. } => Some(Liveness::Starting),
            CompanionState::Running { .. } => Some(Liveness::Running),
            CompanionState::ShuttingDown { .. } => Some(Liveness::Running),
            CompanionState::Stopped { code, .. } => Some(Liveness::Exited { code }),
            CompanionState::Failed { reason } => Some(Liveness::Failed { reason }),
        }
    }

    /// The name of the state, as it is shown to the UI.
    pub open spec fn spec_label(self) -> Seq<char> {
        match self {
            CompanionState::NotStarted => "NotStarted"@,
            CompanionState::Starting { .. } => "Starting"@,
            CompanionState::Running { .. } => "Running"@,
            CompanionState::ShuttingDown { .. } => "ShuttingDown"@,
            CompanionState::Stopped { .. } => "Stopped"@,
            CompanionState::Failed { .. } => "Failed"@,
        }
    }

    /// The name of the state, as it is shown to the UI.
    pub fn label(&self) -> (label: &'static str)
        ensures
            label@ == self.spec_label(),
    {
        match self {
            CompanionState::NotStarted => "NotStarted",
            CompanionState::Starting { .. } => "Starting",
            CompanionState::Running { .. } => "Running",
            CompanionState::ShuttingDown { .. } => "ShuttingDown",
            CompanionState::Stopped { .. } => "Stopped",
            CompanionState::Failed { .. } => "Failed",
        }
    }

    /// The identifier of the process, while one is known to exist.
    pub fn pid(&self) -> (pid: Option<u32>)
        ensures
            pid == self.spec_pid(),
    {
        match self {
            CompanionState::Starting { pid } => *pid,
            CompanionState::Running { pid, .. } => Some(*pid),
            CompanionState::ShuttingDown { pid, .. } => Some(*pid),
            _ => None,
        }
    }

    /// The port on which the process reported to be ready.
    pub fn readiness(&self) -> (port: Option<u16>)
        ensures
            port == self.spec_readiness(),
    {
        match self {
            CompanionState::Running { port, .. } => *port,
            _ => None,
        }
    }

    /// Whether a process was spawned and is alive, as far as has been observed.
    pub fn liveness(&self) -> (liveness: Option<Liveness>)
        ensures
            liveness == self.spec_liveness(),
    {
        match self {
            CompanionState::NotStarted => None,
            CompanionState::Starting { .. } => Some(Liveness::Starting),
            CompanionState::Running { .. } => Some(Liveness::Running),
            CompanionState::ShuttingDown { .. } => Some(Liveness::Running),
            CompanionState::Stopped { code, .. } => Some(Liveness::Exited { code: *code }),
            CompanionState::Failed { reason } => Some(Liveness::Failed { reason: *reason }),
        }
    }
}

impl Supervisor {
    /// What holds of every supervisor that `new`, `start` and `step` produce: a process
    /// that may be alive is under a deadline once the window is closed, and is told to
    /// end only after that.
    pub open spec fn wf(self) -> bool {
        match self.state {
            CompanionState::NotStarted => true,
            CompanionState::Starting { pid } => pid is Some ==> self.window_open,
            CompanionState::Running { .. } => self.window_open,
            CompanionState::ShuttingDown { .. } => !self.window_open,
            CompanionState::Stopped { .. } => !self.window_open,
            CompanionState::Failed { .. } => true,
        }
    }

    /// The time by which a process that is asked to end at `now_ms` has to be gone.
    pub open spec fn deadline(self, now_ms: u64) -> u64 {
        if now_ms + self.shutdown_timeout_ms > u64::MAX {
            u64::MAX
        } else {
            (now_ms + self.shutdown_timeout_ms) as u64
        }
    }

    /// The supervisor with the window closed.
    pub open spec fn closed(self) -> Supervisor {
        Supervisor { window_open: false, ..self }
    }

    /// The supervisor in state `state`.
    pub open spec fn at(self, state: CompanionState) -> Supervisor {
        Supervisor { state, ..self }
    }

    /// Asking for the companion process: a spawn is commanded once, while the window is
    /// open and nothing has been asked for before.
    pub open spec fn started(self) -> (Supervisor, Command) {
        if self.state is NotStarted && self.window_open {
            (self.at(CompanionState::Starting { pid: None }), Command::Spawn)
        } else {
            (self, Command::Idle)
        }
    }

    /// A spawn that was asked for has succeeded. If the window has been closed in the
    /// meantime the new process is told to end at once.
    pub open spec fn on_spawned(self, pid: u32, now_ms: u64) -> (Supervisor, Command) {
        if self.state == (CompanionState::Starting { pid: None }) {
            if self.window_open {
                (self.at(CompanionState::Starting { pid: Some(pid) }), Command::Idle)
            } else {
                (
                    self.at(
                        CompanionState::ShuttingDown {
                            pid,
                            deadline_ms: self.deadline(now_ms),
                            forced: false,
                        },
                    ),
                    Command::Terminate { pid },
                )
            }
        } else {
            (self, Command::Idle)
        }
    }

    /// A spawn that was asked for has failed.
    pub open spec fn on_spawn_failed(self) -> (Supervisor, Command) {
        if self.state == (CompanionState::Starting { pid: None }) {
            (
                self.at(CompanionState::Failed { reason: FailureReason::SpawnFailed }),
                surfaced(self.window_open),
            )
        } else {
            (self, Command::Idle)
        }
    }

    /// The process that is starting has signalled readiness.
    pub open spec fn on_ready(self, port: Option<u16>) -> (Supervisor, Command) {
        match self.state {
            CompanionState::Starting { pid: Some(pid) } => (
                self.at(CompanionState::Running { pid, port }),
                surfaced(self.window_open),
            ),
            _ => (self, Command::Idle),
        }
    }

    /// The process was seen to exit: a failure unless it had been told to end.
    pub open spec fn on_exited(self, code: Option<i32>) -> (Supervisor, Command) {
        match self.state {
            CompanionState::Starting { pid: Some(_) } | CompanionState::Running { .. } => (
                self.at(CompanionState::Failed { reason: FailureReason::UnexpectedExit { code } }),
                surfaced(self.window_open),
            ),
            CompanionState::ShuttingDown { forced, .. } => (
                self.at(CompanionState::Stopped { code, forced }),
                Command::Quit,
            ),
            _ => (self, Command::Idle),
        }
    }

    /// The main window was closed: a process that exists is told to end and given until
    /// the deadline; without one the application is left at once, unless a spawn is
    /// still outstanding. A process that is shutting down already keeps its deadline.
    pub open spec fn on_window_closed(self, now_ms: u64) -> (Supervisor, Command) {
        if !self.window_open {
            (self, Command::Idle)
        } else {
            match self.state {
                CompanionState::Starting { pid: Some(pid) } | CompanionState::Running { pid, .. } => (
                    self.closed().at(
                        CompanionState::ShuttingDown {
                            pid,
                            deadline_ms: self.deadline(now_ms),
                            forced: false,
                        },
                    ),
                    Command::Terminate { pid },
                ),
                CompanionState::Starting { pid: None } | CompanionState::ShuttingDown { .. } => (
                    self.closed(),
                    Command::Idle,
                ),
                _ => (self.closed(), Command::Quit),
            }
        }
    }

    /// Time has passed: a process that has outstayed its deadline is killed, once.
    pub open spec fn on_tick(self, now_ms: u64) -> (Supervisor, Command) {
        match self.state {
            CompanionState::ShuttingDown { pid, deadline_ms, forced: false } => if now_ms
                >= deadline_ms {
                (
                    self.at(CompanionState::ShuttingDown { pid, deadline_ms, forced: true }),
                    Command::Kill { pid },
                )
            } else {
                (self, Command::Idle)
            },
            _ => (self, Command::Idle),
        }
    }

    /// The supervisor after `event`, reported at `now_ms`, and the command it answers with.
    pub open spec fn next(self, event: Event, now_ms: u64) -> (Supervisor, Command) {
        match event {
            Event::Spawned { pid } => self.on_spawned(pid, now_ms),
            Event::SpawnFailed => self.on_spawn_failed(),
            Event::Ready { port } => self.on_ready(port),
            Event::Exited { code } => self.on_exited(code),
            Event::WindowClosed => self.on_window_closed(now_ms),
            Event::Tick => self.on_tick(now_ms),
        }
    }

    /// A supervisor for an open window, with no process asked for.
    pub fn new(shutdown_timeout_ms: u64) -> (supervisor: Supervisor)
        ensures
            supervisor == (Supervisor {
                shutdown_timeout_ms,
                window_open: true,
                state: CompanionState::NotStarted,
            }),
    {
        Supervisor { shutdown_timeout_ms, window_open: true, state: CompanionState::NotStarted }
    }

    /// Asks for the companion process. The answer is `Spawn` the first time, while the
    /// window is open; a process that failed or stopped is not asked for again.
    pub fn start(self) -> (next: (Supervisor, Command))
        ensures
            next == self.started(),
    {
        match self.state {
            CompanionState::NotStarted => {
                if self.window_open {
                    (
                        Supervisor { state: CompanionState::Starting { pid: None }, ..self },
                        Command::Spawn,
                    )
                } else {
                    (self, Command::Idle)
                }
            },
            _ => (self, Command::Idle),
        }
    }

    /// Takes in `event`, reported at `now_ms` on a clock that counts milliseconds, and
    /// returns the supervisor after it with the command to carry out.
    pub fn step(self, event: Event, now_ms: u64) -> (next: (Supervisor, Command))
        ensures
            next == self.next(event, now_ms),
    {
        let stay = (self, Command::Idle);
        let surface = if self.window_open {
            Command::Notify
        } else {
            Command::Quit
        };
        match self.state {
            CompanionState::NotStarted => match event {
                Event::WindowClosed => if self.window_open {
                    (Supervisor { window_open: false, ..self }, Command::Quit)
                } else {
                    stay
                },
                _ => stay,
            },
            CompanionState::Starting { pid: None } => match event {
                Event::Spawned { pid } => if self.window_open {
                    (Supervisor { state: CompanionState::Starting { pid: Some(pid) }, ..self }, Command::Idle)
                } else {
                    (self.shutting_down(pid, now_ms), Command::Terminate { pid })
                },
                Event::SpawnFailed => (
                    Supervisor {
                        state: CompanionState::Failed { reason: FailureReason::SpawnFailed },
                        ..self
                    },
                    surface,
                ),
                Event::WindowClosed => (Supervisor { window_open: false, ..self }, Command::Idle),
                _ => stay,
            },
            CompanionState::Starting { pid: Some(pid) } => match event {
                Event::Ready { port } => (
                    Supervisor { state: CompanionState::Running { pid, port }, ..self },
                    surface,
                ),
                Event::Exited { code } => (self.failed_by_exit(code), surface),
                Event::WindowClosed => self.close_on(pid, now_ms),
                _ => stay,
            },
            CompanionState::Running { pid, .. } => match event {
                Event::Exited { code } => (self.failed_by_exit(code), surface),
                Event::WindowClosed => self.close_on(pid, now_ms),
                _ => stay,
            },
            CompanionState::ShuttingDown { pid, deadline_ms, forced } => match event {
                Event::Exited { code } => (
                    Supervisor { state: CompanionState::Stopped { code, forced }, ..self },
                    Command::Quit,
                ),
                Event::Tick => if !forced && now_ms >= deadline_ms {
                    (
                        Supervisor {
                            state: CompanionState::ShuttingDown { pid, deadline_ms, forced: true },
                            ..self
                        },
                        Command::Kill { pid },
                    )
                } else {
                    stay
                },
                Event::WindowClosed => if self.window_open {
                    (Supervisor { window_open: false, ..self }, Command::Idle)
                } else {
                    stay
                },
                _ => stay,
            },
            CompanionState::Stopped { .. } | CompanionState::Failed { .. } => match event {
                Event::WindowClosed => if self.window_open {
                    (Supervisor { window_open: false, ..self }, Command::Quit)
                } else {
                    stay
                },
                _ => stay,
            },
        }
    }

    /// The supervisor once process `pid` has been told, at `now_ms`, to end.
    fn shutting_down(self, pid: u32, now_ms: u64) -> (next: Supervisor)
        ensures
            next == self.at(
                CompanionState::ShuttingDown {
                    pid,
                    deadline_ms: self.deadline(now_ms),
                    forced: false,
                },
            ),
    {
        let deadline_ms: u64 = now_ms.saturating_add(self.shutdown_timeout_ms);
        Supervisor { state: CompanionState::ShuttingDown { pid, deadline_ms, forced: false }, ..self }
    }

    /// The supervisor after the process ended on its own.
    fn failed_by_exit(self, code: Option<i32>) -> (next: Supervisor)
        ensures
            next == self.at(
                CompanionState::Failed { reason: FailureReason::UnexpectedExit { code } },
            ),
    {
        Supervisor {
            state: CompanionState::Failed { reason: FailureReason::UnexpectedExit { code } },
            ..self
        }
    }

    /// Closing the window over process `pid`, which is starting or running.
    fn close_on(self, pid: u32, now_ms: u64) -> (next: (Supervisor, Command))
        requires
            self.state.spec_pid() == Some(pid),
            self.state is Starting || self.state is Running,
        ensures
            next == self.on_window_closed(now_ms),
    {
        if self.window_open {
            (
                Supervisor { window_open: false, ..self }.shutting_down(pid, now_ms),
                Command::Terminate { pid },
            )
        } else {
            (self, Command::Idle)
        }
    }
}

} // verus!
