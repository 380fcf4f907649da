//! The launch from start to hand-off: locate, spawn, probe.
//!
//! The supervisor decides what the launcher does next. The caller looks for
//! the executable, starts the process and probes the port, and reports what
//! came of each. A launch either reaches `Running`, with the backend up and
//! ready, or ends in `Failed`; nothing is tried twice.

use crate::error::{StartupError, StartupErrorModel};
use crate::launcher::{launch_args, launch_args_spec, LaunchError, LaunchErrorModel};
use crate::locator::{generic_file_name, generic_name};
use crate::platform::Platform;
use crate::prober::READINESS_TIMEOUT_SECS;
use vstd::prelude::*;

verus! {

/// How far the launch has come.
#[derive(Debug, PartialEq, Eq)]
pub enum Stage {
    /// The backend executable is being looked for.
    Locating,
    /// The executable at `path` is being started.
    Spawning { path: String },
    /// The backend runs and is being probed.
    Probing,
    /// The backend is ready and handed to the application.
    Running,
    /// The launch was given up.
    Failed,
}

/// A `Stage` as specifications see it.
pub enum StageModel {
    Locating,
    Spawning { path: Seq<char> },
    Probing,
    Running,
    Failed,
}

impl View for Stage {
    type V = StageModel;

    open spec fn view(&self) -> StageModel {
        match self {
            Stage::Locating => StageModel::Locating,
            Stage::Spawning { path } => StageModel::Spawning { path: path@ },
            Stage::Probing => StageModel::Probing,
            Stage::Running => StageModel::Running,
            Stage::Failed => StageModel::Failed,
        }
    }
}

/// What the caller observed.
#[derive(Debug, PartialEq, Eq)]
pub enum Event {
    /// The search ended: with the path of the executable, or without one.
    Located { path: Option<String> },
    /// The start ended: it succeeded, or the operating system gave a
    /// diagnostic.
    Spawned { outcome: Result<(), String> },
    /// Probing ended: the backend is ready, or the deadline passed.
    Probed { ready: bool },
}

/// An `Event` as specifications see it.
pub enum EventModel {
    Located { path: Option<Seq<char>> },
    Spawned { outcome: Result<(), Seq<char>> },
    Probed { ready: bool },
}

impl View for Event {
    type V = EventModel;

    open spec fn view(&self) -> EventModel {
        match self {
            Event::Located { path: Some(path) } => EventModel::Located { path: Some(path@) },
            Event::Located { path: None } => EventModel::Located { path: None },
            Event::Spawned { outcome: Ok(_) } => EventModel::Spawned { outcome: Ok(()) },
            Event::Spawned { outcome: Err(detail) } => EventModel::Spawned { outcome: Err(detail@) },
            Event::Probed { ready } => EventModel::Probed { ready: *ready },
        }
    }
}

/// What the caller is to do next.
#[derive(Debug, PartialEq, Eq)]
pub enum Command {
    /// Start the executable at `path` with `args`, and own the process.
    Spawn { path: String, args: Vec<String> },
    /// Probe the backend's port for up to `timeout_secs` seconds.
    AwaitReady { timeout_secs: u64 },
    /// Move the process handle into the application's slot and go on.
    HandOff,
    /// Show the error's message and exit with a failure status, after
    /// terminating the backend if `terminate_child` says that it runs.
    Abort { error: StartupError, terminate_child: bool },
    /// The event does not belong to this stage: do nothing.
    Nothing,
}

/// A `Command` as specifications see it.
pub enum CommandModel {
    Spawn { path: Seq<char>, args: Seq<Seq<char>> },
    AwaitReady { timeout_secs: u64 },
    HandOff,
    Abort { error: StartupErrorModel, terminate_child: bool },
    Nothing,
}

impl View for Command {
    type V = CommandModel;

    open spec fn view(&self) -> CommandModel {
        match self {
            Command::Spawn { path, args } => CommandModel::Spawn {
                path: path@,
                args: args.deep_view(),
            },
            Command::AwaitReady { timeout_secs } => CommandModel::AwaitReady {
                timeout_secs: *timeout_secs,
            },
            Command::HandOff => CommandModel::HandOff,
            Command::Abort { error, terminate_child } => CommandModel::Abort {
                error: error@,
                terminate_child: *terminate_child,
            },
            Command::Nothing => CommandModel::Nothing,
        }
    }
}

/// The decisions of one launch.
#[derive(Debug, PartialEq, Eq)]
pub struct Supervisor {
    /// The file name under which the backend is expected, for the message
    /// of a search that found nothing.
    pub binary: String,
    pub stage: Stage,
}

/// A `Supervisor` as specifications see it.
pub struct SupervisorModel {
    pub binary: Seq<char>,
    pub stage: StageModel,
}

impl View for Supervisor {
    type V = SupervisorModel;

    open spec fn view(&self) -> SupervisorModel {
        SupervisorModel { binary: self.binary@, stage: self.stage@ }
    }
}

impl SupervisorModel {
    /// A supervisor at the start of a launch.
    pub open spec fn start(name: Seq<char>, platform: Platform) -> SupervisorModel {
        SupervisorModel { binary: generic_file_name(name, platform), stage: StageModel::Locating }
    }

    /// The stage after `event`.
    ///
    /// Each stage waits for one kind of event. Its good outcome leads to the
    /// next stage, its bad outcome to `Failed`. Any other event, and every
    /// event in `Running` or `Failed`, changes nothing.
    pub open spec fn next(self, event: EventModel) -> SupervisorModel {
        let stage = match (self.stage, event) {
            (StageModel::Locating, EventModel::Located { path: Some(path) }) => StageModel::Spawning {
                path,
            },
            (StageModel::Locating, EventModel::Located { path: None }) => StageModel::Failed,
            (StageModel::Spawning { path }, EventModel::Spawned { outcome: Ok(_) }) =>
                StageModel::Probing,
            (StageModel::Spawning { path }, EventModel::Spawned { outcome: Err(_) }) =>
                StageModel::Failed,
            (StageModel::Probing, EventModel::Probed { ready }) => if ready {
                StageModel::Running
            } else {
                StageModel::Failed
            },
            _ => self.stage,
        };
        SupervisorModel { stage, ..self }
    }

    /// What the caller is told to do on `event`.
    ///
    /// A located executable is started with the backend's command line; a
    /// started backend is probed; a ready backend is handed off. A search
    /// without result, a rejected start and a missed deadline abort the
    /// launch, each with its own error. Only the missed deadline finds the
    /// backend running, so only then is it to be terminated.
    pub open spec fn command(self, event: EventModel) -> CommandModel {
        match (self.stage, event) {
            (StageModel::Locating, EventModel::Located { path: Some(path) }) => CommandModel::Spawn {
                path,
                args: launch_args_spec(),
            },
            (StageModel::Locating, EventModel::Located { path: None }) => CommandModel::Abort {
                error: StartupErrorModel::NotFound { binary: self.binary },
                terminate_child: false,
            },
            (StageModel::Spawning { path }, EventModel::Spawned { outcome: Ok(_) }) =>
                CommandModel::AwaitReady { timeout_secs: READINESS_TIMEOUT_SECS },
            (StageModel::Spawning { path }, EventModel::Spawned { outcome: Err(detail) }) =>
                CommandModel::Abort {
                    error: StartupErrorModel::SpawnFailed(LaunchErrorModel { path, detail }),
                    terminate_child: false,
                },
            (StageModel::Probing, EventModel::Probed { ready }) => if ready {
                CommandModel::HandOff
            } else {
                CommandModel::Abort {
                    error: StartupErrorModel::ReadinessTimeout,
                    terminate_child: true,
                }
            },
            _ => CommandModel::Nothing,
        }
    }
}

impl Supervisor {
    /// Begins a launch of the backend called `name` on `platform`.
    pub fn new(name: &str, platform: Platform) -> (supervisor: Supervisor)
        ensures
            supervisor@ == SupervisorModel::start(name@, platform),
    {
        Supervisor { binary: generic_name(name, platform), stage: Stage::Locating }
    }

    /// Takes in one observation and says what to do next.
    pub fn step(&mut self, event: Event) -> (command: Command)
        ensures
            final(self)@ == old(self)@.next(event@),
            command@ == old(self)@.command(event@),
    {
        match event {
            Event::Located { path } => {
                match &self.stage {
                    Stage::Locating => match path {
                        Some(path) => {
                            self.stage = Stage::Spawning { path: path.clone() };
                            Command::Spawn { path, args: launch_args() }
                        },
                        None => {
                            self.stage = Stage::Failed;
                            Command::Abort {
                                error: StartupError::NotFound { binary: self.binary.clone() },
                                terminate_child: false,
                            }
                        },
                    },
                    _ => Command::Nothing,
                }
            },
            Event::Spawned { outcome } => {
                match &self.stage {
                    Stage::Spawning { path } => match outcome {
                        Ok(_) => {
                            self.stage = Stage::Probing;
                            Command::AwaitReady { timeout_secs: READINESS_TIMEOUT_SECS }
                        },
                        Err(detail) => {
                            let error = LaunchError::new(path.clone(), detail);
                            self.stage = Stage::Failed;
                            Command::Abort {
                                error: StartupError::SpawnFailed(error),
                                terminate_child: false,
                            }
                        },
                    },
                    _ => Command::Nothing,
                }
            },
            Event::Probed { ready } => {
                match &self.stage {
                    Stage::Probing => if ready {
                        self.stage = Stage::Running;
                        Command::HandOff
                    } else {
                        self.stage = Stage::Failed;
                        Command::Abort {
                            error: StartupError::ReadinessTimeout,
                            terminate_child: true,
                        }
                    },
                    _ => Command::Nothing,
                }
            },
        }
    }
}

impl StageModel {
    /// How far along the launch a stage is: the stages in their order, with
    /// both outcomes last.
    pub open spec fn rank(self) -> nat {
        match self {
            StageModel::Locating => 0,
            StageModel::Spawning { .. } => 1,
            StageModel::Probing => 2,
            StageModel::Running => 3,
            StageModel::Failed => 3,
        }
    }
}

/// A launch only moves forward: no event takes the supervisor back to an
/// earlier stage, and every command but `Nothing` comes with a move to a
/// later one. So the search, the start and the probe each happen at most
/// once.
pub proof fn lemma_launch_only_advances(supervisor: SupervisorModel, event: EventModel)
    ensures
        supervisor.stage.rank() <= supervisor.next(event).stage.rank(),
        !(supervisor.command(event) is Nothing) <==> supervisor.stage.rank() < supervisor.next(
            event,
        ).stage.rank(),
        supervisor.next(event).binary == supervisor.binary,
{
}

/// An outcome is final: in `Running` and in `Failed` no event changes the
/// stage, and the caller is told to do nothing. So nothing is retried.
pub proof fn lemma_outcome_is_final(supervisor: SupervisorModel, event: EventModel)
    requires
        supervisor.stage is Running || supervisor.stage is Failed,
    ensures
        supervisor.next(event) == supervisor,
        supervisor.command(event) is Nothing,
{
}

/// The backend is handed off only when it is ready: a step enters `Running`
/// exactly when the supervisor was probing and the probe reported ready, and
/// exactly then the command is `HandOff`.
pub proof fn lemma_hand_off_only_when_ready(supervisor: SupervisorModel, event: EventModel)
    requires
        !(supervisor.stage is Running),
    ensures
        supervisor.next(event).stage is Running <==> supervisor.stage is Probing && event
            == (EventModel::Probed { ready: true }),
        supervisor.next(event).stage is Running <==> supervisor.command(event) is HandOff,
{
}

/// A launch fails exactly when the caller is told to abort, and the backend
/// is to be terminated exactly when the failure found it running, that is
/// when the probe missed the deadline.
pub proof fn lemma_failure_aborts(supervisor: SupervisorModel, event: EventModel)
    requires
        !(supervisor.stage is Failed),
    ensures
        supervisor.next(event).stage is Failed <==> supervisor.command(event) is Abort,
        supervisor.command(event) matches CommandModel::Abort { error, terminate_child } ==> (
        terminate_child <==> supervisor.stage is Probing) && (error is ReadinessTimeout
            <==> supervisor.stage is Probing) && (error is SpawnFailed <==> supervisor.stage
            is Spawning) && (error is NotFound <==> supervisor.stage is Locating),
{
}

/// A rejected start reports the path that was located: from the start of a
/// launch, locating `path` and then failing to start it with `detail` aborts
/// with a spawn failure that carries exactly `path` and `detail`.
pub proof fn lemma_spawn_failure_carries_path(
    name: Seq<char>,
    platform: Platform,
    path: Seq<char>,
    detail: Seq<char>,
)
    ensures
        ({
            let located = SupervisorModel::start(name, platform).next(
                EventModel::Located { path: Some(path) },
            );
            let failure = EventModel::Spawned { outcome: Err(detail) };
            &&& located.stage == (StageModel::Spawning { path })
            &&& located.command(failure) == (CommandModel::Abort {
                error: StartupErrorModel::SpawnFailed(LaunchErrorModel { path, detail }),
                terminate_child: false,
            })
            &&& located.next(failure).stage is Failed
        }),
{
}

} // verus!
