//! Risk classification of commands: allow, ask the user first, or refuse.

use vstd::prelude::*;
use crate::command::Command;

verus! {

/// Process ids below this value are treated as the kernel and system range.
pub const RESERVED_PID_LIMIT: u32 = 100;

/// How a command is to be treated before anything is executed.
#[derive(Debug)]
pub enum PermissionDecision {
    Allow,
    RequireConfirmation { reason: String },
    Deny { reason: String },
}

/// The classification table. Reasons are fixed texts of the policy.
pub open spec fn decision_of(c: Command) -> PermissionDecisionKind {
    match c {
        Command::Confirm { .. } | Command::Cancel { .. } => PermissionDecisionKind::Deny(
            "Confirmation commands are not executable actions"@,
        ),
        Command::KillProcess { pid } => if pid < RESERVED_PID_LIMIT {
            PermissionDecisionKind::Deny("System process protection"@)
        } else {
            PermissionDecisionKind::RequireConfirmation("Killing a process may cause data loss"@)
        },
        Command::RequestCleanup => PermissionDecisionKind::RequireConfirmation(
            "Cleanup may close background applications"@,
        ),
        Command::OpenPath { .. } => PermissionDecisionKind::Allow,
        Command::NormalizeSystem => PermissionDecisionKind::Allow,
        Command::StartupAdd { .. } | Command::StartupRemove { .. } | Command::StartupToggle {
            ..
        } => PermissionDecisionKind::RequireConfirmation(
            "Modifying startup applications affects system boot"@,
        ),
        Command::SetUiActive { .. } => PermissionDecisionKind::Allow,
    }
}

/// The mathematical form of a decision: its kind and the reason's text.
pub ghost enum PermissionDecisionKind {
    Allow,
    RequireConfirmation(Seq<char>),
    Deny(Seq<char>),
}

impl PermissionDecision {
    pub open spec fn kind(self) -> PermissionDecisionKind {
        match self {
            PermissionDecision::Allow => PermissionDecisionKind::Allow,
            PermissionDecision::RequireConfirmation { reason } => PermissionDecisionKind::RequireConfirmation(reason@),
            PermissionDecision::Deny { reason } => PermissionDecisionKind::Deny(reason@),
        }
    }
}

/// Classifies a command. Total, and a function of the command alone.
pub fn evaluate(cmd: &Command) -> (r: PermissionDecision)
    ensures
        r.kind() == decision_of(*cmd),
{
    match cmd {
        Command::Confirm { .. } | Command::Cancel { .. } => PermissionDecision::Deny {
            reason: String::from_str("Confirmation commands are not executable actions"),
        },
        Command::KillProcess { pid } => {
            if *pid < RESERVED_PID_LIMIT {
                PermissionDecision::Deny { reason: String::from_str("System process protection") }
            } else {
                PermissionDecision::RequireConfirmation {
                    reason: String::from_str("Killing a process may cause data loss"),
                }
            }
        },
        Command::RequestCleanup => PermissionDecision::RequireConfirmation {
            reason: String::from_str("Cleanup may close background applications"),
        },
        Command::OpenPath { .. } => PermissionDecision::Allow,
        Command::NormalizeSystem => PermissionDecision::Allow,
        Command::StartupAdd { .. } | Command::StartupRemove { .. } | Command::StartupToggle {
            ..
        } => PermissionDecision::RequireConfirmation {
            reason: String::from_str("Modifying startup applications affects system boot"),
        },
        Command::SetUiActive { .. } => PermissionDecision::Allow,
    }
}

/// Killing a process in the reserved range is refused; any other process id
/// may be killed only after confirmation.
pub proof fn lemma_kill_classified_by_pid(pid: u32)
    ensures
        pid < 100 ==> decision_of(Command::KillProcess { pid }) is Deny,
        pid >= 100 ==> decision_of(Command::KillProcess { pid }) is RequireConfirmation,
{
}

/// Confirm and Cancel are protocol messages, never actions: the policy refuses
/// them whatever identifier they carry.
pub proof fn lemma_meta_commands_denied(command_id: String)
    ensures
        decision_of(Command::Confirm { command_id }) is Deny,
        decision_of(Command::Cancel { command_id }) is Deny,
{
}

} // verus!
