use fluffy_core::command::Command;
use fluffy_core::engine::{
    is_protected_process_name, normalize_result, parse_startup_name, result_after, startup_add_script,
    startup_remove_script, startup_toggle_script, ExecStatus, ExecutionEngine, FailureReport, HostAction,
    HostOutcome, KillGuard, KillVerdict, Plan, StartupSource, StepReport,
};

fn kill(engine: &mut ExecutionEngine, pid: u32, now: u64, name: &str) -> Plan {
    engine.plan_with_process_name(Command::KillProcess { pid }, now, Some(name.to_string()))
}

fn is_run_kill(p: &Plan, pid: u32) -> bool {
    matches!(p, Plan::Run { action: HostAction::Kill { pid: q }, .. } if *q == pid)
}

fn done_error(p: &Plan) -> Option<String> {
    match p {
        Plan::Done { result } if result.status == ExecStatus::Error => result.error.clone(),
        _ => None,
    }
}

#[test]
fn fourth_kill_in_window_is_rate_limited_and_window_recovers() {
    let mut e = ExecutionEngine::new();
    assert!(is_run_kill(&kill(&mut e, 1001, 0, "a.exe"), 1001));
    assert!(is_run_kill(&kill(&mut e, 1002, 2000, "b.exe"), 1002));
    assert!(is_run_kill(&kill(&mut e, 1003, 4000, "c.exe"), 1003));
    let fourth = kill(&mut e, 1004, 9000, "d.exe");
    assert_eq!(done_error(&fourth), Some("Rate limit exceeded: >3 kills in 10s".to_string()));
    if let Plan::Done { result } = &fourth {
        assert_eq!(result.pid, Some(1004));
        assert_eq!(result.command, "KillProcess");
    }
    assert!(is_run_kill(&kill(&mut e, 1005, 14001, "e.exe"), 1005));
}

#[test]
fn window_frees_one_slot_when_oldest_expires() {
    let mut g = KillGuard::new();
    let n = || Some("worker".to_string());
    assert!(matches!(g.decide(0, n()), KillVerdict::Proceed));
    assert!(matches!(g.decide(1, n()), KillVerdict::Proceed));
    assert!(matches!(g.decide(2, n()), KillVerdict::Proceed));
    assert!(matches!(g.decide(9999, n()), KillVerdict::RateLimited));
    assert!(matches!(g.decide(9999, None), KillVerdict::RateLimited));
    assert!(matches!(g.decide(10000, n()), KillVerdict::Proceed));
    assert!(matches!(g.decide(10000, n()), KillVerdict::RateLimited));
}

#[test]
fn protected_process_is_never_killed() {
    let mut e = ExecutionEngine::new();
    let p = kill(&mut e, 700, 0, "LSASS.EXE");
    assert_eq!(done_error(&p), Some("Protected system process: LSASS.EXE".to_string()));
    for _ in 0..5 {
        assert!(done_error(&kill(&mut e, 700, 1, "winlogon.exe")).is_some());
    }
    assert!(is_run_kill(&kill(&mut e, 701, 2, "notepad.exe"), 701));
    assert!(is_run_kill(&kill(&mut e, 702, 3, "notepad.exe"), 702));
    assert!(is_run_kill(&kill(&mut e, 703, 4, "notepad.exe"), 703));
    assert!(done_error(&kill(&mut e, 704, 5, "csrss.exe")).is_some());
}

#[test]
fn denylist_names() {
    for n in ["csrss.exe", "wininit.exe", "lsass.exe", "services.exe", "smss.exe", "winlogon.exe", "SmSs.ExE"] {
        assert!(is_protected_process_name(n));
    }
    for n in ["lsass", "lsass.exe ", "explorer.exe", ""] {
        assert!(!is_protected_process_name(n));
    }
}

#[test]
fn unknown_process_is_refused_and_not_recorded() {
    let mut e = ExecutionEngine::new();
    let p = e.plan_with_process_name(Command::KillProcess { pid: 900 }, 0, None);
    assert_eq!(done_error(&p), Some("Process not found".to_string()));
    assert!(is_run_kill(&kill(&mut e, 901, 1, "a.exe"), 901));
    assert!(is_run_kill(&kill(&mut e, 902, 2, "b.exe"), 902));
    assert!(is_run_kill(&kill(&mut e, 903, 3, "c.exe"), 903));
}

#[test]
fn startup_names_carry_their_store() {
    assert_eq!(parse_startup_name("My App (HKCU)"), (StartupSource::CurrentUser, "My App".to_string()));
    assert_eq!(parse_startup_name("Tool (HKLM)"), (StartupSource::LocalMachine, "Tool".to_string()));
    assert_eq!(parse_startup_name("script.bat (Folder)"), (StartupSource::Folder, "script.bat".to_string()));
    assert_eq!(parse_startup_name("Legacy"), (StartupSource::Unlabelled, "Legacy".to_string()));
    assert_eq!(parse_startup_name("(HKCU)"), (StartupSource::Unlabelled, "(HKCU)".to_string()));
    assert_eq!(parse_startup_name(" (HKCU)"), (StartupSource::CurrentUser, "".to_string()));
}

#[test]
fn scripts_quote_names_and_paths() {
    assert_eq!(
        startup_add_script("O'Brien", "C:\\it's\\a.exe"),
        "New-ItemProperty -Path 'HKCU:\\Software\\Microsoft\\Windows\\CurrentVersion\\Run' -Name 'O''Brien' -Value 'C:\\it''s\\a.exe' -PropertyType String -Force"
    );
    assert_eq!(
        startup_remove_script(true, "x'"),
        "Remove-ItemProperty -Path 'HKLM:\\Software\\Microsoft\\Windows\\CurrentVersion\\Run' -Name 'x''' -Force"
    );
    assert_eq!(
        startup_toggle_script(false, "App", false),
        "Set-ItemProperty -Path 'HKCU:\\Software\\Microsoft\\Windows\\CurrentVersion\\Explorer\\StartupApproved\\Run' -Name 'App' -Value ([byte[]](03,00,00,00,00,00,00,00,00,00,00,00)) -Type Binary -Force"
    );
    assert!(startup_toggle_script(true, "App", true).contains("HKLM:") && startup_toggle_script(true, "App", true).contains("(02,00"));
}

#[test]
fn startup_plans_follow_the_suffix() {
    let mut e = ExecutionEngine::new();
    match e.plan_with_process_name(Command::StartupRemove { name: "Tool (HKLM)".to_string() }, 0, None) {
        Plan::Run { command, action: HostAction::PowerShell { script, on_failure: FailureReport::Fixed { message } } } => {
            assert_eq!(command, "StartupRemove");
            assert!(script.contains("'HKLM:") && script.contains("-Name 'Tool'"));
            assert_eq!(message, "Failed to remove HKLM entry. Ensure Fluffy is running as Administrator.");
        }
        other => panic!("unexpected plan {:?}", other),
    }
    assert!(matches!(
        e.plan_with_process_name(Command::StartupRemove { name: "run.bat (Folder)".to_string() }, 0, None),
        Plan::Run { action: HostAction::RemoveStartupFile { ref file_name }, .. } if file_name == "run.bat"
    ));
    assert!(matches!(
        e.plan_with_process_name(Command::StartupRemove { name: "Legacy".to_string() }, 0, None),
        Plan::Run { action: HostAction::PowerShell { on_failure: FailureReport::Ignored, ref script }, .. } if script.contains("'HKCU:") && script.contains("-Name 'Legacy'")
    ));
    let toggle = e.plan_with_process_name(Command::StartupToggle { name: "run.bat (Folder)".to_string(), enabled: true }, 0, None);
    assert_eq!(done_error(&toggle), Some("Only registry startup items can be toggled currently.".to_string()));
    assert!(matches!(
        e.plan_with_process_name(Command::StartupToggle { name: "A (HKCU)".to_string(), enabled: true }, 0, None),
        Plan::Run { action: HostAction::PowerShell { on_failure: FailureReport::ToolOutput, .. }, .. }
    ));
}

#[test]
fn pass_through_and_unhandled_commands() {
    let mut e = ExecutionEngine::new();
    match e.plan(Command::RequestCleanup, 0) {
        Plan::Done { result } => {
            assert_eq!(result.command, "RequestCleanup");
            assert_eq!(result.status, ExecStatus::Success);
            assert!(result.error.is_none());
        }
        other => panic!("unexpected plan {:?}", other),
    }
    assert!(matches!(e.plan(Command::SetUiActive { active: true }, 0), Plan::Nothing));
    assert!(matches!(e.plan(Command::Confirm { command_id: "x".to_string() }, 0), Plan::Nothing));
    assert!(matches!(e.plan(Command::OpenPath { path: "/tmp/x".to_string() }, 0), Plan::Run { action: HostAction::Open { .. }, .. }));
    assert!(matches!(e.plan(Command::NormalizeSystem, 0), Plan::Run { action: HostAction::Normalize, .. }));
}

#[test]
fn kill_plan_looks_up_the_live_process() {
    let mut e = ExecutionEngine::new();
    let p = e.plan(Command::KillProcess { pid: 4_000_000_000 }, 0);
    assert_eq!(done_error(&p), Some("Process not found".to_string()));
}

#[test]
fn results_after_host_work() {
    let open = HostAction::Open { path: "/tmp/x".to_string() };
    let r = result_after("OpenPath".to_string(), &open, HostOutcome::Completed);
    assert_eq!(r.status, ExecStatus::Success);
    assert_eq!(r.status.as_text(), "success");
    assert!(r.error.is_none());
    let k = HostAction::Kill { pid: 321 };
    let r = result_after("KillProcess".to_string(), &k, HostOutcome::Failed { output: "access denied".to_string() });
    assert_eq!((r.status, r.error.as_deref(), r.pid), (ExecStatus::Error, Some("access denied"), Some(321)));
    let fixed = HostAction::PowerShell { script: "s".to_string(), on_failure: FailureReport::Fixed { message: "m".to_string() } };
    let r = result_after("StartupRemove".to_string(), &fixed, HostOutcome::Failed { output: "o".to_string() });
    assert_eq!(r.error.as_deref(), Some("m"));
    let r = result_after("StartupRemove".to_string(), &fixed, HostOutcome::Unavailable { error: "no shell".to_string() });
    assert_eq!(r.error.as_deref(), Some("no shell"));
    let ignored = HostAction::PowerShell { script: "s".to_string(), on_failure: FailureReport::Ignored };
    let r = result_after("StartupRemove".to_string(), &ignored, HostOutcome::Failed { output: "o".to_string() });
    assert_eq!(r.status, ExecStatus::Success);
    let folder = HostAction::RemoveStartupFile { file_name: "a.bat".to_string() };
    let r = result_after("StartupRemove".to_string(), &folder, HostOutcome::Missing);
    assert_eq!(r.error.as_deref(), Some("Startup file not found."));
    let r = result_after("StartupRemove".to_string(), &folder, HostOutcome::Failed { output: "busy".to_string() });
    assert_eq!(r.error.as_deref(), Some("Failed to delete file: busy"));
    assert_eq!(r.status.as_text(), "error");
}

#[test]
fn normalize_one_failure_is_partial() {
    let steps = vec![
        StepReport { label: "volume".to_string(), error: None },
        StepReport { label: "dns".to_string(), error: Some("ipconfig exited with 1".to_string()) },
        StepReport { label: "temp".to_string(), error: None },
    ];
    let r = normalize_result(&steps);
    assert_eq!(r.status, ExecStatus::PartialFailure);
    assert_eq!(r.status.as_text(), "partial_failure");
    assert_eq!(r.command, "NormalizeSystem");
    let details = r.details.unwrap();
    assert!(details.contains("ipconfig exited with 1"));
    assert_eq!(details, "System normalization finished with failed steps: [dns] ipconfig exited with 1");
}

#[test]
fn normalize_all_succeed() {
    let steps = vec![
        StepReport { label: "volume".to_string(), error: None },
        StepReport { label: "temp".to_string(), error: None },
    ];
    let r = normalize_result(&steps);
    assert_eq!(r.status, ExecStatus::Success);
    assert_eq!(r.details.as_deref(), Some("System normalization and optimization pulse complete."));
    assert_eq!(normalize_result(&Vec::new()).status, ExecStatus::Success);
}

#[test]
fn normalize_every_failure_is_reported() {
    let steps = vec![
        StepReport { label: "a".to_string(), error: Some("e1".to_string()) },
        StepReport { label: "b".to_string(), error: Some("e2".to_string()) },
    ];
    let r = normalize_result(&steps);
    assert_eq!(r.status, ExecStatus::PartialFailure);
    assert_eq!(r.details.as_deref(), Some("System normalization finished with failed steps: [a] e1 [b] e2"));
}
