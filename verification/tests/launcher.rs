use root_exec::error::{ExecError, Failure, LaunchError, LoggerInitError, PathError};
use root_exec::launcher::{Launcher, LauncherState};
use root_exec::locator::ScriptPath;
use root_exec::model::{Action, Event, ExecutionResult, LauncherConfig, LogLevel, LogRecord};
use root_exec::privilege::PrivilegeError;

fn texts(items: &[&str]) -> Vec<String> {
    items.iter().map(|s| s.to_string()).collect()
}

fn default_config() -> LauncherConfig {
    LauncherConfig { log_config_path: None }
}

fn file_config() -> LauncherConfig {
    LauncherConfig { log_config_path: Some("/etc/root_exec/log.yml".to_string()) }
}

fn child(code: i32) -> ExecutionResult {
    ExecutionResult { stdout: b"hello\n".to_vec(), stderr: b"warn\n".to_vec(), status: Some(code) }
}

fn feed(config: LauncherConfig, events: Vec<Event>) -> (Launcher, Vec<LogRecord>) {
    let mut launcher = Launcher::new(config);
    let mut records = Vec::new();
    for event in events {
        let (next, record) = launcher.advance(event);
        launcher = next;
        if let Some(record) = record {
            records.push(record);
        }
    }
    (launcher, records)
}

fn served(code: i32) -> Vec<Event> {
    vec![
        Event::LoggerInitialized { outcome: Ok(()) },
        Event::ElevationAttempted { status: 0 },
        Event::SelfPathReported { outcome: Ok("/opt/tool/root_exec".to_string()) },
        Event::ScriptProbed { exists: true },
        Event::SpawnCompleted { outcome: Ok(child(code)) },
        Event::Concluded,
    ]
}

#[test]
fn fresh_run_waits_for_the_logger() {
    let launcher = Launcher::new(file_config());
    assert_eq!(launcher.state(), &LauncherState::Start);
    assert_eq!(launcher.config(), &file_config());
    assert_eq!(
        launcher.pending(),
        Action::InitLogger { config_path: Some("/etc/root_exec/log.yml".to_string()) }
    );
    assert!(!launcher.is_finished());
    assert_eq!(launcher.exit_code(), None);
    assert_eq!(Launcher::new(default_config()).pending(), Action::InitLogger { config_path: None });
}

#[test]
fn served_run_walks_every_state_in_order() {
    let launcher = Launcher::new(default_config());

    let (launcher, record) = launcher.advance(Event::LoggerInitialized { outcome: Ok(()) });
    assert_eq!(launcher.state(), &LauncherState::LoggingReady);
    assert_eq!(record, None);
    assert_eq!(launcher.pending(), Action::Elevate { uid: 0 });

    let (launcher, record) = launcher.advance(Event::ElevationAttempted { status: 0 });
    assert_eq!(launcher.state(), &LauncherState::PrivilegeElevated { candidate: None });
    assert_eq!(record, Some(LogRecord::Config { config: default_config() }));
    assert_eq!(launcher.pending(), Action::QuerySelfPath);

    let (launcher, record) =
        launcher.advance(Event::SelfPathReported { outcome: Ok("/opt/tool/root_exec".to_string()) });
    assert_eq!(
        launcher.state(),
        &LauncherState::PrivilegeElevated {
            candidate: Some(ScriptPath { path: "/opt/tool/root_exec.sh".to_string() })
        }
    );
    assert_eq!(record, None);
    assert_eq!(launcher.pending(), Action::ProbeScript { path: "/opt/tool/root_exec.sh".to_string() });

    let (launcher, record) = launcher.advance(Event::ScriptProbed { exists: true });
    assert_eq!(
        launcher.state(),
        &LauncherState::ScriptLocated { script: ScriptPath { path: "/opt/tool/root_exec.sh".to_string() } }
    );
    assert_eq!(record, None);
    assert_eq!(launcher.pending(), Action::Spawn { path: "/opt/tool/root_exec.sh".to_string() });

    let (launcher, record) = launcher.advance(Event::SpawnCompleted { outcome: Ok(child(0)) });
    assert_eq!(launcher.state(), &LauncherState::ScriptExecuted);
    assert_eq!(record, Some(LogRecord::Child { result: child(0) }));
    assert_eq!(launcher.pending(), Action::Conclude);
    assert!(!launcher.is_finished());

    let (launcher, record) = launcher.advance(Event::Concluded);
    assert_eq!(launcher.state(), &LauncherState::Done);
    assert_eq!(record, Some(LogRecord::Completed));
    assert_eq!(launcher.pending(), Action::Exit { code: 0 });
    assert!(launcher.is_finished());
    assert_eq!(launcher.exit_code(), Some(0));
}

#[test]
fn served_run_logs_config_child_and_completion() {
    let (launcher, records) = feed(file_config(), served(0));
    assert_eq!(launcher.exit_code(), Some(0));
    assert_eq!(
        records,
        vec![
            LogRecord::Config { config: file_config() },
            LogRecord::Child { result: child(0) },
            LogRecord::Completed,
        ]
    );
}

#[test]
fn child_failure_does_not_fail_the_launcher() {
    let (launcher, records) = feed(default_config(), served(3));
    assert_eq!(launcher.state(), &LauncherState::Done);
    assert_eq!(launcher.exit_code(), Some(0));
    assert_eq!(records[1], LogRecord::Child { result: child(3) });
}

#[test]
fn refused_elevation_fails_with_need_to_be_root() {
    let (launcher, records) = feed(
        default_config(),
        vec![Event::LoggerInitialized { outcome: Ok(()) }, Event::ElevationAttempted { status: -1 }],
    );
    assert_eq!(
        launcher.state(),
        &LauncherState::Failed { error: LaunchError::new(Failure::Privilege(PrivilegeError)) }
    );
    assert_eq!(launcher.exit_code(), Some(1));
    assert_eq!(launcher.pending(), Action::Exit { code: 1 });
    assert_eq!(records, vec![LogRecord::Failure { lines: texts(&["Error: Need to be root"]) }]);
}

#[test]
fn nothing_follows_a_refused_elevation() {
    let mut events = vec![
        Event::LoggerInitialized { outcome: Ok(()) },
        Event::ElevationAttempted { status: -1 },
    ];
    events.extend(served(0));
    let (launcher, records) = feed(default_config(), events);
    assert_eq!(
        launcher.state(),
        &LauncherState::Failed { error: LaunchError::new(Failure::Privilege(PrivilegeError)) }
    );
    assert_eq!(launcher.pending(), Action::Exit { code: 1 });
    assert_eq!(records.len(), 1);
}

#[test]
fn missing_config_file_fails_before_elevation() {
    let (launcher, records) = feed(
        file_config(),
        vec![Event::LoggerInitialized { outcome: Err(texts(&["No such file or directory (os error 2)"])) }],
    );
    assert_eq!(
        launcher.state(),
        &LauncherState::Failed {
            error: LaunchError::with_causes(
                Failure::Logger(LoggerInitError::ConfigFile { path: "/etc/root_exec/log.yml".to_string() }),
                texts(&["No such file or directory (os error 2)"]),
            )
        }
    );
    assert_eq!(launcher.exit_code(), Some(1));
    assert_eq!(launcher.pending(), Action::Exit { code: 1 });
    assert_eq!(
        records,
        vec![LogRecord::Failure {
            lines: texts(&[
                "Error: Unable to initialize log4rs logger with the given config file at '/etc/root_exec/log.yml'",
                "> Caused by: No such file or directory (os error 2)",
            ])
        }]
    );
}

#[test]
fn default_logger_failure() {
    let (launcher, records) = feed(
        default_config(),
        vec![Event::LoggerInitialized { outcome: Err(texts(&["already set"])) }],
    );
    assert_eq!(
        launcher.state(),
        &LauncherState::Failed {
            error: LaunchError::with_causes(
                Failure::Logger(LoggerInitError::DefaultSink),
                texts(&["already set"])
            )
        }
    );
    assert_eq!(
        records,
        vec![LogRecord::Failure {
            lines: texts(&["Error: Unable to initialize default logger", "> Caused by: already set"])
        }]
    );
}

#[test]
fn unavailable_self_path_fails() {
    let (launcher, records) = feed(
        default_config(),
        vec![
            Event::LoggerInitialized { outcome: Ok(()) },
            Event::ElevationAttempted { status: 0 },
            Event::SelfPathReported { outcome: Err(texts(&["os says no"])) },
        ],
    );
    assert_eq!(
        launcher.state(),
        &LauncherState::Failed {
            error: LaunchError::with_causes(
                Failure::Path(PathError::SelfPathUnavailable),
                texts(&["os says no"])
            )
        }
    );
    assert_eq!(launcher.exit_code(), Some(1));
    assert_eq!(
        records[1],
        LogRecord::Failure {
            lines: texts(&["Error: Unable to get current executable path", "> Caused by: os says no"])
        }
    );
}

#[test]
fn executable_without_directory_fails() {
    let (launcher, records) = feed(
        default_config(),
        vec![
            Event::LoggerInitialized { outcome: Ok(()) },
            Event::ElevationAttempted { status: 0 },
            Event::SelfPathReported { outcome: Ok("/".to_string()) },
        ],
    );
    assert_eq!(
        launcher.state(),
        &LauncherState::Failed { error: LaunchError::new(Failure::Path(PathError::NoParentDirectory)) }
    );
    assert_eq!(
        records[1],
        LogRecord::Failure { lines: texts(&["Error: Unable to get current executable directory"]) }
    );
}

#[test]
fn absent_script_fails_and_names_the_path() {
    let (launcher, records) = feed(
        default_config(),
        vec![
            Event::LoggerInitialized { outcome: Ok(()) },
            Event::ElevationAttempted { status: 0 },
            Event::SelfPathReported { outcome: Ok("/opt/tool/root_exec".to_string()) },
            Event::ScriptProbed { exists: false },
        ],
    );
    assert_eq!(
        launcher.state(),
        &LauncherState::Failed {
            error: LaunchError::new(Failure::Path(PathError::ScriptNotFound {
                path: "/opt/tool/root_exec.sh".to_string()
            }))
        }
    );
    assert_eq!(launcher.exit_code(), Some(1));
    assert_eq!(
        records,
        vec![
            LogRecord::Config { config: default_config() },
            LogRecord::Failure {
                lines: texts(&["Error: Unable to find \"/opt/tool/root_exec.sh\" for command execution"])
            },
        ]
    );
}

#[test]
fn unspawnable_script_fails() {
    let (launcher, records) = feed(
        default_config(),
        vec![
            Event::LoggerInitialized { outcome: Ok(()) },
            Event::ElevationAttempted { status: 0 },
            Event::SelfPathReported { outcome: Ok("/opt/tool/root_exec".to_string()) },
            Event::ScriptProbed { exists: true },
            Event::SpawnCompleted { outcome: Err(texts(&["Permission denied (os error 13)"])) },
        ],
    );
    assert_eq!(
        launcher.state(),
        &LauncherState::Failed {
            error: LaunchError::with_causes(
                Failure::Exec(ExecError::SpawnFailed),
                texts(&["Permission denied (os error 13)"])
            )
        }
    );
    assert_eq!(launcher.exit_code(), Some(1));
    assert_eq!(
        records[1],
        LogRecord::Failure {
            lines: texts(&["Error: Unable to run command", "> Caused by: Permission denied (os error 13)"])
        }
    );
}

#[test]
fn event_that_answers_nothing_is_ignored() {
    let (launcher, record) = Launcher::new(default_config()).advance(Event::ElevationAttempted { status: 0 });
    assert_eq!(launcher.state(), &LauncherState::Start);
    assert_eq!(record, None);

    let (launcher, record) = launcher.advance(Event::SpawnCompleted { outcome: Ok(child(0)) });
    assert_eq!(launcher.state(), &LauncherState::Start);
    assert_eq!(record, None);

    let (launcher, _) = launcher.advance(Event::LoggerInitialized { outcome: Ok(()) });
    let (launcher, record) = launcher.advance(Event::ScriptProbed { exists: true });
    assert_eq!(launcher.state(), &LauncherState::LoggingReady);
    assert_eq!(record, None);
    let (launcher, record) = launcher.advance(Event::Concluded);
    assert_eq!(launcher.state(), &LauncherState::LoggingReady);
    assert_eq!(record, None);
}

#[test]
fn finished_run_takes_no_more_events() {
    let mut events = served(0);
    events.extend(served(0));
    events.push(Event::ElevationAttempted { status: -1 });
    let (launcher, records) = feed(default_config(), events);
    assert_eq!(launcher.state(), &LauncherState::Done);
    assert_eq!(launcher.exit_code(), Some(0));
    assert_eq!(records.len(), 3);
}

#[test]
fn two_runs_in_succession_exit_alike() {
    let (first, first_records) = feed(default_config(), served(0));
    let (second, second_records) = feed(default_config(), served(0));
    assert_eq!(first.exit_code(), second.exit_code());
    assert_eq!(first, second);
    assert_eq!(first_records, second_records);

    let refused = || vec![Event::LoggerInitialized { outcome: Ok(()) }, Event::ElevationAttempted { status: 1 }];
    let (first, _) = feed(default_config(), refused());
    let (second, _) = feed(file_config(), refused());
    assert_eq!(first.exit_code(), Some(1));
    assert_eq!(first.exit_code(), second.exit_code());
}

#[test]
fn failures_are_logged_as_errors_and_the_rest_as_information() {
    assert_eq!(LogRecord::Failure { lines: texts(&["Error: x"]) }.level(), LogLevel::Error);
    assert_eq!(LogRecord::Completed.level(), LogLevel::Info);
    assert_eq!(LogRecord::Config { config: default_config() }.level(), LogLevel::Info);
    assert_eq!(LogRecord::Child { result: child(0) }.level(), LogLevel::Info);
}
