use fluffy_core::command::Command;
use fluffy_core::policy::{evaluate, PermissionDecision};

fn is_deny(d: &PermissionDecision) -> bool {
    matches!(d, PermissionDecision::Deny { .. })
}

fn is_confirm(d: &PermissionDecision) -> bool {
    matches!(d, PermissionDecision::RequireConfirmation { .. })
}

#[test]
fn kill_below_reserved_range_is_denied() {
    for pid in [0u32, 1, 4, 99] {
        let d = evaluate(&Command::KillProcess { pid });
        assert!(is_deny(&d));
        if let PermissionDecision::Deny { reason } = d {
            assert_eq!(reason, "System process protection");
        }
    }
}

#[test]
fn kill_from_reserved_limit_up_needs_confirmation() {
    for pid in [100u32, 101, 4242, u32::MAX] {
        let d = evaluate(&Command::KillProcess { pid });
        assert!(is_confirm(&d));
        if let PermissionDecision::RequireConfirmation { reason } = d {
            assert_eq!(reason, "Killing a process may cause data loss");
        }
    }
}

#[test]
fn confirm_and_cancel_are_always_denied() {
    for id in ["", "abc", "0f8fad5b-d9cb-469f-a165-70867728950e"] {
        assert!(is_deny(&evaluate(&Command::Confirm { command_id: id.to_string() })));
        assert!(is_deny(&evaluate(&Command::Cancel { command_id: id.to_string() })));
    }
    if let PermissionDecision::Deny { reason } = evaluate(&Command::Confirm { command_id: "x".to_string() }) {
        assert_eq!(reason, "Confirmation commands are not executable actions");
    }
}

#[test]
fn classification_table() {
    assert!(is_confirm(&evaluate(&Command::RequestCleanup)));
    assert!(matches!(evaluate(&Command::OpenPath { path: "/tmp/x".to_string() }), PermissionDecision::Allow));
    assert!(matches!(evaluate(&Command::NormalizeSystem), PermissionDecision::Allow));
    assert!(is_confirm(&evaluate(&Command::StartupAdd { name: "a".to_string(), path: "b".to_string() })));
    assert!(is_confirm(&evaluate(&Command::StartupRemove { name: "a".to_string() })));
    assert!(is_confirm(&evaluate(&Command::StartupToggle { name: "a".to_string(), enabled: true })));
    assert!(matches!(evaluate(&Command::SetUiActive { active: false }), PermissionDecision::Allow));
    if let PermissionDecision::RequireConfirmation { reason } = evaluate(&Command::StartupRemove { name: "a".to_string() }) {
        assert_eq!(reason, "Modifying startup applications affects system boot");
    }
    if let PermissionDecision::RequireConfirmation { reason } = evaluate(&Command::RequestCleanup) {
        assert_eq!(reason, "Cleanup may close background applications");
    }
}

#[test]
fn command_names_and_copies() {
    let c = Command::StartupToggle { name: "App (HKCU)".to_string(), enabled: false };
    assert_eq!(c.name(), "StartupToggle");
    let d = c.duplicate();
    assert!(matches!(d, Command::StartupToggle { ref name, enabled: false } if name == "App (HKCU)"));
    assert_eq!(Command::KillProcess { pid: 7 }.name(), "KillProcess");
}
