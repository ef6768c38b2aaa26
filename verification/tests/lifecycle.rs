use backend_supervisor::errors::SupervisorError;
use backend_supervisor::get_version;
use backend_supervisor::probe::check_external_tool;
use backend_supervisor::strategy::{CommandSpec, LaunchMode, LaunchStrategy};
use backend_supervisor::supervisor::{ProcessHandle, StartPlan, Status, Supervisor};

fn dev_supervisor() -> Supervisor {
    Supervisor::new(LaunchStrategy::new(LaunchMode::Development, None))
}

fn start_ok(sup: &mut Supervisor, pid: u64) -> Status {
    let plan = sup.prepare_start().expect("start must be plannable");
    match plan {
        StartPlan::AlreadyRunning => Status::AlreadyRunning,
        StartPlan::Spawn(_) => sup
            .complete_start(Ok(ProcessHandle { pid }))
            .expect("successful spawn must be recorded"),
    }
}

fn stop(sup: &mut Supervisor) -> Status {
    let taken = sup.prepare_stop();
    let outcome = taken.map(|_| Ok(()));
    Supervisor::conclude_stop(outcome).expect("accepted kill must be recorded")
}

#[test]
fn end_to_end_scenario() {
    let mut sup = dev_supervisor();
    assert!(!sup.running());

    let first = start_ok(&mut sup, 100);
    assert_eq!(first.message(), "started");
    assert!(sup.running());

    let second = start_ok(&mut sup, 101);
    assert_eq!(second.message(), "already running");
    assert!(sup.running());
    assert_eq!(sup.slot, Some(ProcessHandle { pid: 100 }));

    let third = stop(&mut sup);
    assert_eq!(third.message(), "stopped");
    assert!(!sup.running());

    let fourth = stop(&mut sup);
    assert_eq!(fourth.message(), "not running");
    assert!(!sup.running());
}

#[test]
fn second_start_is_idempotent() {
    let mut sup = dev_supervisor();
    assert_eq!(start_ok(&mut sup, 7), Status::Started);
    let plan = sup.prepare_start().expect("planning never fails while running");
    assert_eq!(plan, StartPlan::AlreadyRunning);
    assert_eq!(sup.slot, Some(ProcessHandle { pid: 7 }));
}

#[test]
fn stop_without_process_is_not_an_error() {
    let mut sup = dev_supervisor();
    let taken = sup.prepare_stop();
    assert_eq!(taken, None);
    let report = Supervisor::conclude_stop(None);
    assert_eq!(report, Ok(Status::NotRunning));
}

#[test]
fn slot_follows_last_state_changing_call() {
    let mut sup = dev_supervisor();

    // a failed spawn is not a state change: the slot stays empty
    let plan = sup.prepare_start().expect("start must be plannable");
    assert!(matches!(plan, StartPlan::Spawn(_)));
    let failed = sup.complete_start(Err("permission denied".to_string()));
    assert_eq!(
        failed,
        Err(SupervisorError::Spawn("permission denied".to_string()))
    );
    assert!(!sup.running());

    // a successful start occupies the slot
    assert_eq!(start_ok(&mut sup, 42), Status::Started);
    assert_eq!(sup.slot, Some(ProcessHandle { pid: 42 }));

    // a stop empties it even when the OS rejects the kill request
    let taken = sup.prepare_stop();
    assert_eq!(taken, Some(ProcessHandle { pid: 42 }));
    let report = Supervisor::conclude_stop(Some(Err("access denied".to_string())));
    assert_eq!(
        report,
        Err(SupervisorError::Kill("access denied".to_string()))
    );
    assert!(!sup.running());
}

#[test]
fn development_mode_resolves_to_interpreter_command() {
    let strategy = LaunchStrategy::new(LaunchMode::Development, None);
    let command = strategy.resolve().expect("development mode always resolves");
    assert_eq!(command.program, "python3");
    assert_eq!(
        command.args,
        vec![
            "-m",
            "uvicorn",
            "src.api.main:app",
            "--host",
            "127.0.0.1",
            "--port",
            "8000"
        ]
    );
}

#[test]
fn development_mode_ignores_any_sidecar() {
    let strategy = LaunchStrategy::new(
        LaunchMode::Development,
        Some("ignored-backend".to_string()),
    );
    let command = strategy.resolve().expect("development mode always resolves");
    assert_eq!(command.program, "python3");
}

#[test]
fn production_mode_resolves_to_bundled_executable() {
    let strategy = LaunchStrategy::new(
        LaunchMode::Production,
        Some("/opt/app/docuextract-backend".to_string()),
    );
    let command = strategy.resolve().expect("a located sidecar must resolve");
    assert_eq!(
        command,
        CommandSpec {
            program: "/opt/app/docuextract-backend".to_string(),
            args: vec![],
        }
    );
}

#[test]
fn production_mode_without_sidecar_is_a_resolution_error() {
    let strategy = LaunchStrategy::new(LaunchMode::Production, None);
    let result = strategy.resolve();
    let error = result.expect_err("a missing sidecar must not fall back to development");
    assert!(matches!(error, SupervisorError::Resolution(_)));
    assert_eq!(
        error.message(),
        "failed to resolve backend command: no bundled backend executable could be located"
    );
}

#[test]
fn probe_absent_tool_is_an_error_not_false() {
    let result = check_external_tool(Err("No such file or directory".to_string()));
    let error = result.expect_err("an unlaunchable tool must be an error");
    assert_eq!(
        error,
        SupervisorError::Probe("No such file or directory".to_string())
    );
    assert_eq!(
        error.message(),
        "failed to check external tool: No such file or directory"
    );
}

#[test]
fn probe_failing_tool_is_false_not_an_error() {
    assert_eq!(check_external_tool(Ok(false)), Ok(false));
}

#[test]
fn probe_succeeding_tool_is_true() {
    assert_eq!(check_external_tool(Ok(true)), Ok(true));
}

#[test]
fn spawn_error_message_carries_detail() {
    let error = SupervisorError::Spawn("missing executable".to_string());
    assert_eq!(
        error.message(),
        "failed to start backend: missing executable"
    );
}

#[test]
fn kill_error_message_carries_detail() {
    let error = SupervisorError::Kill("operation not permitted".to_string());
    assert_eq!(
        error.message(),
        "failed to stop backend: operation not permitted"
    );
}

#[test]
fn status_messages_are_the_four_fixed_strings() {
    assert_eq!(Status::Started.message(), "started");
    assert_eq!(Status::AlreadyRunning.message(), "already running");
    assert_eq!(Status::Stopped.message(), "stopped");
    assert_eq!(Status::NotRunning.message(), "not running");
}

#[test]
fn version_is_static_metadata() {
    assert_eq!(get_version(), "0.1.0");
}
