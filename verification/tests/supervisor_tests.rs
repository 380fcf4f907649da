use sidecar::error::StartupError;
use sidecar::launcher::LaunchError;
use sidecar::platform::{Arch, Os, Platform};
use sidecar::supervisor::{Command, Event, Stage, Supervisor};

fn linux() -> Platform {
    Platform::new(Arch::X86_64, Os::Linux)
}

fn located(path: &str) -> Event {
    Event::Located { path: Some(path.to_string()) }
}

fn spawn_args() -> Vec<String> {
    vec!["--port".to_string(), "13370".to_string()]
}

#[test]
fn a_new_supervisor_is_locating() {
    let supervisor = Supervisor::new("backend", linux());
    assert_eq!(supervisor.stage, Stage::Locating);
    assert_eq!(supervisor.binary, "backend");
    let supervisor = Supervisor::new("backend", Platform::new(Arch::X86_64, Os::Windows));
    assert_eq!(supervisor.binary, "backend.exe");
}

#[test]
fn a_launch_that_succeeds() {
    let mut supervisor = Supervisor::new("backend", linux());
    assert_eq!(
        supervisor.step(located("/opt/app/backend")),
        Command::Spawn { path: "/opt/app/backend".to_string(), args: spawn_args() }
    );
    assert_eq!(supervisor.stage, Stage::Spawning { path: "/opt/app/backend".to_string() });
    assert_eq!(
        supervisor.step(Event::Spawned { outcome: Ok(()) }),
        Command::AwaitReady { timeout_secs: 30 }
    );
    assert_eq!(supervisor.stage, Stage::Probing);
    assert_eq!(supervisor.step(Event::Probed { ready: true }), Command::HandOff);
    assert_eq!(supervisor.stage, Stage::Running);
}

#[test]
fn no_executable_is_not_found() {
    let mut supervisor = Supervisor::new("backend", Platform::new(Arch::X86_64, Os::Windows));
    assert_eq!(
        supervisor.step(Event::Located { path: None }),
        Command::Abort {
            error: StartupError::NotFound { binary: "backend.exe".to_string() },
            terminate_child: false,
        }
    );
    assert_eq!(supervisor.stage, Stage::Failed);
}

#[test]
fn a_rejected_start_carries_the_path() {
    let mut supervisor = Supervisor::new("backend", linux());
    supervisor.step(located("/opt/app/binaries/backend"));
    let command = supervisor.step(Event::Spawned {
        outcome: Err("Os { code: 13, kind: PermissionDenied, message: \"Permission denied\" }"
            .to_string()),
    });
    assert_eq!(
        command,
        Command::Abort {
            error: StartupError::SpawnFailed(LaunchError {
                path: "/opt/app/binaries/backend".to_string(),
                detail: "Os { code: 13, kind: PermissionDenied, message: \"Permission denied\" }"
                    .to_string(),
            }),
            terminate_child: false,
        }
    );
    assert_eq!(supervisor.stage, Stage::Failed);
}

#[test]
fn a_missed_deadline_terminates_the_backend() {
    let mut supervisor = Supervisor::new("backend", linux());
    supervisor.step(located("/opt/app/backend"));
    supervisor.step(Event::Spawned { outcome: Ok(()) });
    assert_eq!(
        supervisor.step(Event::Probed { ready: false }),
        Command::Abort { error: StartupError::ReadinessTimeout, terminate_child: true }
    );
    assert_eq!(supervisor.stage, Stage::Failed);
}

#[test]
fn an_outcome_is_final() {
    let mut failed = Supervisor::new("backend", linux());
    failed.step(Event::Located { path: None });
    let mut running = Supervisor::new("backend", linux());
    running.step(located("/opt/app/backend"));
    running.step(Event::Spawned { outcome: Ok(()) });
    running.step(Event::Probed { ready: true });
    for (supervisor, stage) in [(&mut failed, Stage::Failed), (&mut running, Stage::Running)] {
        assert_eq!(supervisor.step(located("/opt/app/backend")), Command::Nothing);
        assert_eq!(supervisor.step(Event::Located { path: None }), Command::Nothing);
        assert_eq!(supervisor.step(Event::Spawned { outcome: Ok(()) }), Command::Nothing);
        assert_eq!(
            supervisor.step(Event::Spawned { outcome: Err("x".to_string()) }),
            Command::Nothing
        );
        assert_eq!(supervisor.step(Event::Probed { ready: true }), Command::Nothing);
        assert_eq!(supervisor.step(Event::Probed { ready: false }), Command::Nothing);
        assert_eq!(supervisor.stage, stage);
    }
}

#[test]
fn an_event_of_another_stage_is_ignored() {
    let mut supervisor = Supervisor::new("backend", linux());
    assert_eq!(supervisor.step(Event::Spawned { outcome: Ok(()) }), Command::Nothing);
    assert_eq!(supervisor.step(Event::Probed { ready: true }), Command::Nothing);
    assert_eq!(supervisor.stage, Stage::Locating);

    supervisor.step(located("/a"));
    assert_eq!(supervisor.step(located("/b")), Command::Nothing);
    assert_eq!(supervisor.step(Event::Probed { ready: false }), Command::Nothing);
    assert_eq!(supervisor.stage, Stage::Spawning { path: "/a".to_string() });

    supervisor.step(Event::Spawned { outcome: Ok(()) });
    assert_eq!(supervisor.step(located("/b")), Command::Nothing);
    assert_eq!(supervisor.step(Event::Spawned { outcome: Err("x".to_string()) }), Command::Nothing);
    assert_eq!(supervisor.stage, Stage::Probing);
}

#[test]
fn the_message_of_a_rejected_start_names_the_located_path() {
    let mut supervisor = Supervisor::new("backend", linux());
    supervisor.step(located("/opt/app/backend"));
    match supervisor.step(Event::Spawned { outcome: Err("not executable".to_string()) }) {
        Command::Abort { error, terminate_child } => {
            assert!(!terminate_child);
            assert_eq!(
                error.message(),
                "Failed to start the backend server.\nPath: /opt/app/backend\n\n\
                 Details: not executable"
            );
        }
        other => panic!("expected an abort, got {:?}", other),
    }
}
