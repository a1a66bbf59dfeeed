//! The command protocol: what a caller may ask the agent to do.

use vstd::prelude::*;

verus! {

/// A request for one privileged action. Commands carry intent only, never a result.
#[derive(Debug)]
pub enum Command {
    KillProcess { pid: u32 },
    RequestCleanup,
    OpenPath { path: String },
    NormalizeSystem,
    StartupAdd { name: String, path: String },
    StartupRemove { name: String },
    StartupToggle { name: String, enabled: bool },
    Confirm { command_id: String },
    Cancel { command_id: String },
    SetUiActive { active: bool },
}

/// The name under which a command's variant is reported.
pub open spec fn command_name_of(c: Command) -> Seq<char> {
    match c {
        Command::KillProcess { .. } => "KillProcess"@,
        Command::RequestCleanup => "RequestCleanup"@,
        Command::OpenPath { .. } => "OpenPath"@,
        Command::NormalizeSystem => "NormalizeSystem"@,
        Command::StartupAdd { .. } => "StartupAdd"@,
        Command::StartupRemove { .. } => "StartupRemove"@,
        Command::StartupToggle { .. } => "StartupToggle"@,
        Command::Confirm { .. } => "Confirm"@,
        Command::Cancel { .. } => "Cancel"@,
        Command::SetUiActive { .. } => "SetUiActive"@,
    }
}

impl Command {
    /// A copy of this command, field for field.
    pub fn duplicate(&self) -> (r: Command)
        ensures
            r == *self,
    {
        match self {
            Command::KillProcess { pid } => Command::KillProcess { pid: *pid },
            Command::RequestCleanup => Command::RequestCleanup,
            Command::OpenPath { path } => Command::OpenPath { path: path.clone() },
            Command::NormalizeSystem => Command::NormalizeSystem,
            Command::StartupAdd { name, path } => Command::StartupAdd {
                name: name.clone(),
                path: path.clone(),
            },
            Command::StartupRemove { name } => Command::StartupRemove { name: name.clone() },
            Command::StartupToggle { name, enabled } => Command::StartupToggle {
                name: name.clone(),
                enabled: *enabled,
            },
            Command::Confirm { command_id } => Command::Confirm { command_id: command_id.clone() },
            Command::Cancel { command_id } => Command::Cancel { command_id: command_id.clone() },
            Command::SetUiActive { active } => Command::SetUiActive { active: *active },
        }
    }

    /// The variant's name, as it appears in execution results.
    pub fn name(&self) -> (r: String)
        ensures
            r@ == command_name_of(*self),
    {
        match self {
            Command::KillProcess { .. } => String::from_str("KillProcess"),
            Command::RequestCleanup => String::from_str("RequestCleanup"),
            Command::OpenPath { .. } => String::from_str("OpenPath"),
            Command::NormalizeSystem => String::from_str("NormalizeSystem"),
            Command::StartupAdd { .. } => String::from_str("StartupAdd"),
            Command::StartupRemove { .. } => String::from_str("StartupRemove"),
            Command::StartupToggle { .. } => String::from_str("StartupToggle"),
            Command::Confirm { .. } => String::from_str("Confirm"),
            Command::Cancel { .. } => String::from_str("Cancel"),
            Command::SetUiActive { .. } => String::from_str("SetUiActive"),
        }
    }
}

} // verus!
