use kubernix::error::{Error, ErrorKind};
use kubernix::paths::join;
use kubernix::process::{
    line_has_marker, plan_launch, readiness_failure, readiness_verdict, run_script, LaunchStep,
    Readiness, DEFAULT_READINESS_TIMEOUT_SECS, RUN_RECORD_MODE,
};
use kubernix::shutdown::{classify_exit, ExitKind, StopAction, StopPhase};
use kubernix::Process;

fn args(a: &[&str]) -> Vec<String> {
    a.iter().map(|s| s.to_string()).collect()
}

#[test]
fn stopped() {
    assert!(Process::stopped().is_err())
}

#[test]
fn stopped_reports_stopped_kind() {
    match Process::stopped() {
        Err(e) => assert_eq!(e.kind(), ErrorKind::Stopped),
        Ok(_) => panic!("a stopped service has no process"),
    }
}

#[test]
fn plan_refuses_empty_command() {
    let r = plan_launch("/tmp/root", "/tmp/dir", "", &args(&[]));
    match r {
        Err(e) => {
            assert_eq!(e.kind, ErrorKind::InvalidCommand);
            assert_eq!(e.command, "");
        }
        Ok(_) => panic!("an empty command must be refused"),
    }
}

#[test]
fn plan_paths_and_run_record() {
    let p = plan_launch("/tmp/root", "/tmp/dir", "echo", &args(&["test"])).ok().unwrap();
    assert_eq!(p.command, "echo");
    assert_eq!(p.args, args(&["test"]));
    assert_eq!(p.log_dir, "/tmp/root/log");
    assert_eq!(p.log_file, "/tmp/root/log/echo.log");
    assert_eq!(p.work_dir, "/tmp/dir");
    assert_eq!(p.run_file, "/tmp/dir/run.sh");
    assert_eq!(p.run_script, "echo \\\n    test\n");
}

#[test]
fn run_record_one_argument_per_line() {
    let s = run_script("kube-proxy", &args(&["--a=1", "--b", "c"]));
    assert_eq!(s, "kube-proxy \\\n    --a=1 \\\n    --b \\\n    c\n");
    assert!(s.starts_with("kube-proxy"));
    let lines: Vec<&str> = s.lines().collect();
    assert_eq!(lines, vec!["kube-proxy \\", "    --a=1 \\", "    --b \\", "    c"]);
}

#[test]
fn run_record_without_arguments() {
    assert_eq!(run_script("echo", &args(&[])), "echo\n");
}

#[test]
fn run_record_is_executable() {
    assert_eq!(RUN_RECORD_MODE, 0o755);
    assert_eq!(RUN_RECORD_MODE & 0o100, 0o100);
}

#[test]
fn join_paths() {
    assert_eq!(join("/a", "b"), "/a/b");
    assert_eq!(join("/a/", "b"), "/a/b");
    assert_eq!(join("", "b"), "b");
    assert_eq!(join("/a", "/b"), "/b");
}

#[test]
fn marker_found_in_line() {
    assert!(line_has_marker("test\n", "test"));
    assert!(line_has_marker("etcd: ready to serve client requests", "ready to serve client requests"));
    assert!(line_has_marker("anything", ""));
    assert!(line_has_marker("grüße aus köln", "köln"));
}

#[test]
fn marker_missing_from_line() {
    assert!(!line_has_marker("test\n", "invalid"));
    assert!(!line_has_marker("", "test"));
    assert!(!line_has_marker("tes", "test"));
    assert!(!line_has_marker("Serving insecurely", "Serving securely"));
}

#[test]
fn ready_before_the_deadline() {
    assert_eq!(readiness_verdict("test\n", "test", 0, DEFAULT_READINESS_TIMEOUT_SECS), Readiness::Ready);
}

#[test]
fn timed_out_without_marker() {
    assert_eq!(readiness_verdict("test\n", "invalid", 1, 1), Readiness::TimedOut);
    assert_eq!(readiness_verdict("", "invalid", 0, 1), Readiness::Pending);
}

#[test]
fn timeout_error_names_marker() {
    let e = readiness_failure("echo", "invalid", Ok(()));
    assert_eq!(e.kind, ErrorKind::ReadinessTimeout);
    assert_eq!(e.command, "echo");
    assert_eq!(e.detail, "marker 'invalid' not found");
}

#[test]
fn timeout_keeps_stop_failure() {
    let stop = Err(Error::new(ErrorKind::SignalFailed, "echo", "no such process"));
    let e = readiness_failure("echo", "invalid", stop);
    assert_eq!(e.kind, ErrorKind::ReadinessTimeout);
    assert_eq!(e.command, "echo");
    assert_eq!(e.detail, "marker 'invalid' not found; stopping the process failed: no such process");
}

#[test]
fn error_message_text() {
    let e = Error::new(ErrorKind::SpawnFailed, "invalid_command", "not found");
    assert_eq!(e.message(), "unable to spawn process 'invalid_command': not found");
}

#[test]
fn launch_steps_in_order() {
    let mut steps = Vec::new();
    let mut s = Some(LaunchStep::first());
    while let Some(step) = s {
        steps.push(step);
        s = step.next();
    }
    assert_eq!(
        steps,
        vec![
            LaunchStep::CreateLogDir,
            LaunchStep::CreateLogFile,
            LaunchStep::Spawn,
            LaunchStep::CreateWorkDir,
            LaunchStep::WriteRunRecord,
            LaunchStep::SetRunRecordMode,
        ]
    );
}

#[test]
fn unwritable_root_is_an_io_failure() {
    let e = LaunchStep::CreateLogDir.failure("echo", "permission denied");
    assert_eq!(e.kind, ErrorKind::IoFailure);
    assert_eq!(LaunchStep::Spawn.failure("invalid_command", "not found").kind, ErrorKind::SpawnFailed);
    assert_eq!(LaunchStep::WriteRunRecord.failure("echo", "x").kind, ErrorKind::IoFailure);
}

fn sleeper() -> Process {
    let p = plan_launch("/tmp/root", "/tmp/dir", "sleep", &args(&["500"])).ok().unwrap();
    Process::new(&p, 4242)
}

#[test]
fn process_record_from_plan() {
    let mut p = sleeper();
    assert_eq!(p.command(), "sleep");
    assert_eq!(p.log_file(), "/tmp/root/log/sleep.log");
    assert_eq!(p.pid(), 4242);
    assert_eq!(p.readiness_timeout(), 30);
    p.set_readiness_timeout(1);
    assert_eq!(p.readiness_timeout(), 1);
    assert_eq!(p.stop_phase(), StopPhase::Running);
}

#[test]
fn stop_runs_intent_signal_join() {
    let mut p = sleeper();
    assert!(p.begin_stop().is_ok());
    assert!(!p.intent_recorded());
    assert_eq!(classify_exit(p.intent_recorded()), ExitKind::Unexpected);
    assert_eq!(p.next_stop_action(), StopAction::RecordIntent);
    assert!(p.finish_stop_action(true, "").is_ok());
    assert_eq!(p.next_stop_action(), StopAction::SendTerminate);
    assert!(p.intent_recorded());
    assert!(p.finish_stop_action(true, "").is_ok());
    assert_eq!(classify_exit(p.intent_recorded()), ExitKind::Intentional);
    assert_eq!(p.next_stop_action(), StopAction::JoinWatcher);
    assert!(p.finish_stop_action(true, "").is_ok());
    assert_eq!(p.next_stop_action(), StopAction::Done);
    assert_eq!(p.stop_phase(), StopPhase::Stopped);
}

#[test]
fn second_stop_is_refused() {
    let mut p = sleeper();
    for _ in 0..3 {
        p.finish_stop_action(true, "").ok().unwrap();
    }
    let e = p.begin_stop().err().unwrap();
    assert_eq!(e.kind, ErrorKind::SignalFailed);
    assert_eq!(e.command, "sleep");
}

#[test]
fn failed_signal_and_join() {
    let mut p = sleeper();
    p.finish_stop_action(true, "").ok().unwrap();
    let e = p.finish_stop_action(false, "ESRCH").err().unwrap();
    assert_eq!(e.kind, ErrorKind::SignalFailed);
    assert_eq!(e.detail, "ESRCH");
    assert_eq!(p.stop_phase(), StopPhase::IntentRecorded);
    p.finish_stop_action(true, "").ok().unwrap();
    let e = p.finish_stop_action(false, "panicked").err().unwrap();
    assert_eq!(e.kind, ErrorKind::WatcherJoinFailed);
    assert_eq!(p.stop_phase(), StopPhase::Stopped);
    assert_eq!(p.next_stop_action(), StopAction::Done);
    assert_eq!(p.begin_stop().err().unwrap().kind, ErrorKind::SignalFailed);
}

#[test]
fn absolute_command_logs_under_root() {
    let a = plan_launch("/r", "/d", "/usr/bin/etcd", &args(&[])).ok().unwrap();
    assert_eq!(a.log_file, "/r/log//usr/bin/etcd.log");
    let b = plan_launch("/r", "/d", "/r/log/x", &args(&[])).ok().unwrap();
    let c = plan_launch("/r", "/d", "x", &args(&[])).ok().unwrap();
    assert_ne!(b.log_file, c.log_file);
    assert_eq!(c.log_file, "/r/log/x.log");
}
