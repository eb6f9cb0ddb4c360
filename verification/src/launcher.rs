//! The launcher: the startup sequence of the shell and the application context that
//! owns the capability set, the main window and the companion process.
//!
//! Startup runs in three steps, each of which consumes the value of the step before:
//! a [`LaunchPlan`] is built with the capability set, [`LaunchPlan::setup`] finds the
//! main window, and [`Setup::finish`] takes in whether the title could be set and
//! hands out the [`Launcher`]. A fatal error ends the sequence: no further step
//! can be taken, and no launcher comes to exist.

use crate::capability::{
    can_spawn, criticality_in, full_grants, lists, without, Capability, CapabilitySet,
    Criticality, Grant,
};
use crate::companion::{Command, CompanionState, Event, FailureReason, Supervisor};
use crate::laws::lemma_well_formed;
use crate::window::{declares, find_window, is_first, WindowDecl, MAIN_WINDOW_LABEL, PRODUCT_TITLE};
use vstd::prelude::*;

verus! {

/// What can go wrong while the shell starts.
#[derive(Clone, Copy, Debug, PartialEq, Eq, Structural)]
pub enum LaunchError {
    /// The static configuration declares no main window.
    WindowNotFound,
    /// A capability could not be initialised.
    CapabilityInitFailed { capability: Capability, criticality: Criticality },
    /// The companion process could not be started.
    CompanionSpawnFailed,
}

impl LaunchError {
    /// Whether startup ends on the error. A missing window always ends it, a
    /// capability only when it is required, the companion process never.
    pub open spec fn spec_is_fatal(self) -> bool {
        match self {
            LaunchError::WindowNotFound => true,
            LaunchError::CapabilityInitFailed { criticality, .. } => criticality
                == Criticality::Required,
            LaunchError::CompanionSpawnFailed => false,
        }
    }

    /// The text shown for the error.
    pub open spec fn spec_message(self) -> Seq<char> {
        match self {
            LaunchError::WindowNotFound => "main window is not declared"@,
            LaunchError::CapabilityInitFailed { capability, .. } => "capability failed to initialise: "@
                + capability.spec_name(),
            LaunchError::CompanionSpawnFailed => "companion process failed to start"@,
        }
    }

    /// Whether startup ends on the error.
    pub fn is_fatal(&self) -> (fatal: bool)
        ensures
            fatal == self.spec_is_fatal(),
    {
        match self {
            LaunchError::WindowNotFound => true,
            LaunchError::CapabilityInitFailed { criticality, .. } => match criticality {
                Criticality::Required => true,
                Criticality::Optional => false,
            },
            LaunchError::CompanionSpawnFailed => false,
        }
    }

    /// The text shown for the error.
    pub fn message(&self) -> (text: String)
        ensures
            text@ == self.spec_message(),
    {
        match self {
            LaunchError::WindowNotFound => "main window is not declared".to_owned(),
            LaunchError::CapabilityInitFailed { capability, .. } => {
                let mut text: String = "capability failed to initialise: ".to_owned();
                text.append(capability.name());
                text
            },
            LaunchError::CompanionSpawnFailed => "companion process failed to start".to_owned(),
        }
    }
}

/// How the companion process is run.
#[derive(Clone, Copy, Debug, PartialEq, Eq, Structural)]
pub struct CompanionConfig {
    /// How long the process gets to end after the window is closed, in milliseconds.
    pub shutdown_timeout_ms: u64,
}

/// What a launch plan holds.
pub struct PlanView {
    pub capabilities: Seq<Grant>,
    pub companion: Option<CompanionConfig>,
}

/// What a setup holds.
pub struct SetupView {
    pub plan: PlanView,
    pub window_index: int,
    pub declared_title: Seq<char>,
}

/// What a launcher holds.
pub struct LauncherView {
    pub capabilities: Seq<Grant>,
    pub title: Seq<char>,
    pub supervisor: Supervisor,
}

impl PlanView {
    /// The plan after `capability` failed to initialise: the error if the capability is
    /// required, the plan without it if it is optional, the plan as it is if it is not
    /// part of it.
    pub open spec fn after_failure(self, capability: Capability) -> Result<PlanView, LaunchError> {
        match criticality_in(self.capabilities, capability) {
            Some(Criticality::Required) => Err(
                LaunchError::CapabilityInitFailed { capability, criticality: Criticality::Required },
            ),
            Some(Criticality::Optional) => Ok(
                PlanView { capabilities: without(self.capabilities, capability), ..self },
            ),
            None => Ok(self),
        }
    }

    /// The supervisor that the launcher starts out with, and the command that goes with
    /// it. Without a companion nothing is asked for. With one, the spawn is commanded if
    /// a registered capability allows it, and has failed already if none does.
    pub open spec fn supervision(self) -> (Supervisor, Command) {
        match self.companion {
            None => (
                Supervisor {
                    shutdown_timeout_ms: 0,
                    window_open: true,
                    state: CompanionState::NotStarted,
                },
                Command::Idle,
            ),
            Some(config) => {
                let fresh = Supervisor {
                    shutdown_timeout_ms: config.shutdown_timeout_ms,
                    window_open: true,
                    state: CompanionState::NotStarted,
                };
                if can_spawn(self.capabilities) {
                    fresh.started()
                } else {
                    fresh.started().0.on_spawn_failed()
                }
            },
        }
    }
}

impl SetupView {
    /// The launcher that setup ends with, and the first command. The title is the
    /// product title if it could be set, and stays as declared if not.
    pub open spec fn finished(self, title_applied: bool) -> (LauncherView, Command) {
        let (supervisor, command) = self.plan.supervision();
        (
            LauncherView {
                capabilities: self.plan.capabilities,
                title: if title_applied {
                    PRODUCT_TITLE@
                } else {
                    self.declared_title
                },
                supervisor,
            },
            command,
        )
    }
}

impl LauncherView {
    /// The launcher after `event`: only the supervisor moves.
    pub open spec fn after(self, event: Event, now_ms: u64) -> LauncherView {
        LauncherView { supervisor: self.supervisor.next(event, now_ms).0, ..self }
    }

    /// The launcher after each of `events` in turn, every event with its time.
    pub open spec fn replay(self, events: Seq<(Event, u64)>) -> LauncherView
        decreases events.len(),
    {
        if events.len() == 0 {
            self
        } else {
            self.replay(events.drop_last()).after(events.last().0, events.last().1)
        }
    }

    /// Whether the UI layer can reach `capability`.
    pub open spec fn permits(self, capability: Capability) -> bool {
        lists(self.capabilities, capability)
    }

    /// The startup error that the companion state stands for.
    pub open spec fn companion_error(self) -> Option<LaunchError> {
        if self.supervisor.state == (CompanionState::Failed { reason: FailureReason::SpawnFailed }) {
            Some(LaunchError::CompanionSpawnFailed)
        } else {
            None
        }
    }
}

/// The first step of startup: the capability set to build the application with, and
/// the companion process to run beside it, if any.
#[derive(Debug)]
pub struct LaunchPlan {
    capabilities: CapabilitySet,
    companion: Option<CompanionConfig>,
}

impl View for LaunchPlan {
    type V = PlanView;

    closed spec fn view(&self) -> PlanView {
        PlanView { capabilities: self.capabilities@, companion: self.companion }
    }
}

/// The second step of startup: the main window has been found.
#[derive(Debug)]
pub struct Setup {
    plan: LaunchPlan,
    window_index: usize,
    declared_title: String,
}

impl View for Setup {
    type V = SetupView;

    closed spec fn view(&self) -> SetupView {
        SetupView {
            plan: self.plan@,
            window_index: self.window_index as int,
            declared_title: self.declared_title@,
        }
    }
}

/// The application context of a shell that has started: the registered capabilities,
/// the main window and the supervisor of the companion process. Nothing outside the
/// launcher can change any of them.
#[derive(Debug)]
pub struct Launcher {
    capabilities: CapabilitySet,
    title: String,
    supervisor: Supervisor,
}

impl View for Launcher {
    type V = LauncherView;

    closed spec fn view(&self) -> LauncherView {
        LauncherView {
            capabilities: self.capabilities@,
            title: self.title@,
            supervisor: self.supervisor,
        }
    }
}

impl LaunchPlan {
    /// A plan with the given capability set and companion.
    pub fn new(capabilities: CapabilitySet, companion: Option<CompanionConfig>) -> (plan: LaunchPlan)
        ensures
            plan@ == (PlanView { capabilities: capabilities@, companion }),
    {
        LaunchPlan { capabilities, companion }
    }

    /// The plan of the full desktop shell: all five capabilities and no companion.
    pub fn full() -> (plan: LaunchPlan)
        ensures
            plan@ == (PlanView { capabilities: full_grants(), companion: None }),
    {
        LaunchPlan { capabilities: CapabilitySet::full(), companion: None }
    }

    /// The capabilities to build the application with, in registration order.
    pub fn capabilities(&self) -> (set: &CapabilitySet)
        ensures
            set@ == self@.capabilities,
    {
        &self.capabilities
    }

    /// The companion to run, if any.
    pub fn companion(&self) -> (companion: Option<CompanionConfig>)
        ensures
            companion == self@.companion,
    {
        self.companion
    }

    /// Takes in that `capability` could not be initialised. A required capability ends
    /// startup with `CapabilityInitFailed`. An optional one is taken out of the set,
    /// and startup goes on without it. A capability that is not in the set changes
    /// nothing.
    pub fn capability_failed(self, capability: Capability) -> (outcome: Result<
        LaunchPlan,
        LaunchError,
    >)
        ensures
            match outcome {
                Ok(plan) => self@.after_failure(capability) == Ok::<PlanView, LaunchError>(plan@),
                Err(error) => self@.after_failure(capability) == Err::<PlanView, LaunchError>(
                    error,
                ),
            },
    {
        let LaunchPlan { mut capabilities, companion } = self;
        match capabilities.criticality_of(capability) {
            Some(Criticality::Required) => Err(
                LaunchError::CapabilityInitFailed { capability, criticality: Criticality::Required },
            ),
            Some(Criticality::Optional) => {
                capabilities.remove(capability);
                Ok(LaunchPlan { capabilities, companion })
            },
            None => Ok(LaunchPlan { capabilities, companion }),
        }
    }

    /// Looks for the main window among the windows that the static configuration
    /// declares. Without one startup ends with `WindowNotFound`.
    pub fn setup(self, windows: &Vec<WindowDecl>) -> (outcome: Result<Setup, LaunchError>)
        ensures
            match outcome {
                Ok(setup) => {
                    &&& setup@.plan == self@
                    &&& is_first(windows@, MAIN_WINDOW_LABEL@, setup@.window_index)
                    &&& setup@.declared_title == windows@[setup@.window_index].title@
                },
                Err(error) => error == LaunchError::WindowNotFound && !declares(
                    windows@,
                    MAIN_WINDOW_LABEL@,
                ),
            },
    {
        match find_window(windows, MAIN_WINDOW_LABEL) {
            Some(window_index) => Ok(
                Setup { plan: self, window_index, declared_title: windows[window_index].title.clone() },
            ),
            None => Err(LaunchError::WindowNotFound),
        }
    }
}

impl Setup {
    /// Where the main window stands among the declared windows.
    pub fn window_index(&self) -> (index: usize)
        ensures
            index == self@.window_index,
    {
        self.window_index
    }

    /// The title to give the main window: the product title, whatever the plan.
    pub fn requested_title(&self) -> (title: &'static str)
        ensures
            title@ == PRODUCT_TITLE@,
    {
        PRODUCT_TITLE
    }

    /// Ends setup. `title_applied` says whether the window took the requested title; if
    /// it did not, startup goes on with the declared title. The window is shown
    /// whatever becomes of the companion: the command that comes back asks for the spawn
    /// at most, and the companion is not yet running.
    pub fn finish(self, title_applied: bool) -> (started: (Launcher, Command))
        ensures
            (started.0@, started.1) == self@.finished(title_applied),
    {
        let Setup { plan, window_index: _, declared_title } = self;
        let LaunchPlan { capabilities, companion } = plan;
        let (supervisor, command) = match companion {
            None => (Supervisor::new(0), Command::Idle),
            Some(config) => {
                let (starting, spawn) = Supervisor::new(config.shutdown_timeout_ms).start();
                if capabilities.can_spawn() {
                    (starting, spawn)
                } else {
                    starting.step(Event::SpawnFailed, 0)
                }
            },
        };
        let title: String = if title_applied {
            PRODUCT_TITLE.to_owned()
        } else {
            declared_title
        };
        (Launcher { capabilities, title, supervisor }, command)
    }
}

impl Launcher {
    #[verifier::type_invariant]
    closed spec fn inv(&self) -> bool {
        self.supervisor.wf()
    }

    /// Takes in `event`, reported at `now_ms`, and returns the command to carry out.
    /// Only the supervisor moves: the capability set and the title stay as they are.
    pub fn handle(&mut self, event: Event, now_ms: u64) -> (command: Command)
        ensures
            final(self)@ == old(self)@.after(event, now_ms),
            command == old(self)@.supervisor.next(event, now_ms).1,
    {
        proof {
            use_type_invariant(&*self);
            lemma_well_formed(self.supervisor, 0, event, now_ms);
        }
        let (supervisor, command) = self.supervisor.step(event, now_ms);
        self.supervisor = supervisor;
        command
    }

    /// Whether the UI layer can reach `capability`: only if it was registered.
    pub fn permits(&self, capability: Capability) -> (permitted: bool)
        ensures
            permitted == self@.permits(capability),
    {
        self.capabilities.contains(capability)
    }

    /// The registered capabilities.
    pub fn capabilities(&self) -> (set: &CapabilitySet)
        ensures
            set@ == self@.capabilities,
    {
        &self.capabilities
    }

    /// The title of the main window.
    pub fn title(&self) -> (title: &str)
        ensures
            title@ == self@.title,
    {
        self.title.as_str()
    }

    /// Whether the main window is open.
    pub fn window_open(&self) -> (open: bool)
        ensures
            open == self@.supervisor.window_open,
    {
        self.supervisor.window_open
    }

    /// The state of the companion process, as the UI observes it.
    pub fn backend(&self) -> (state: CompanionState)
        ensures
            state == self@.supervisor.state,
    {
        self.supervisor.state
    }

    /// `CompanionSpawnFailed` once the companion could not be started, else nothing.
    pub fn companion_error(&self) -> (error: Option<LaunchError>)
        ensures
            error == self@.companion_error(),
    {
        match self.supervisor.state {
            CompanionState::Failed { reason: FailureReason::SpawnFailed } => Some(
                LaunchError::CompanionSpawnFailed,
            ),
            _ => None,
        }
    }
}

} // verus!
