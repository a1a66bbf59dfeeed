//! File-system actions: a target, an optional destination and content, and
//! the operation. An action is validated against the safety rules, planned
//! from what the target is on disk, and described by its messages; the host
//! performs the planned step.

use vstd::prelude::*;
use crate::safety::{SafetyLevel, SafetyValidator};
use crate::text::{concat2, concat3, contains_text};

verus! {

#[derive(Debug, Clone, Copy, PartialEq, Eq, Structural)]
pub enum ActionType {
    CreateFile,
    CreateFolder,
    DeleteFile,
    DeleteFolder,
    MoveFile,
    CopyFile,
}

/// What the target path currently is on disk.
#[derive(Debug, Clone, Copy, PartialEq, Eq, Structural)]
pub enum PathKind {
    Missing,
    File,
    Folder,
    Other,
}

/// The one host operation that an action performs.
#[derive(Debug)]
pub enum FsStep {
    /// Create the missing parent folders, then write the file.
    CreateFile { path: String, content: String },
    /// Create the folder and any missing parents.
    CreateFolder { path: String },
    RemoveFile { path: String },
    /// Remove the folder with everything in it.
    RemoveFolder { path: String },
    Rename { from: String, to: String },
    Copy { from: String, to: String },
}

pub ghost enum FsStepView {
    CreateFile(Seq<char>, Seq<char>),
    CreateFolder(Seq<char>),
    RemoveFile(Seq<char>),
    RemoveFolder(Seq<char>),
    Rename(Seq<char>, Seq<char>),
    Copy(Seq<char>, Seq<char>),
}

impl View for FsStep {
    type V = FsStepView;

    open spec fn view(&self) -> FsStepView {
        match self {
            FsStep::CreateFile { path, content } => FsStepView::CreateFile(path@, content@),
            FsStep::CreateFolder { path } => FsStepView::CreateFolder(path@),
            FsStep::RemoveFile { path } => FsStepView::RemoveFile(path@),
            FsStep::RemoveFolder { path } => FsStepView::RemoveFolder(path@),
            FsStep::Rename { from, to } => FsStepView::Rename(from@, to@),
            FsStep::Copy { from, to } => FsStepView::Copy(from@, to@),
        }
    }
}

/// One file-system operation with its target and, where it needs them, a
/// destination and content.
#[derive(Debug)]
pub struct FileSystemAction {
    pub action_type: ActionType,
    pub target_path: String,
    pub destination_path: Option<String>,
    pub content: Option<String>,
}

pub open spec fn blocked_message(path: Seq<char>) -> Seq<char> {
    "Operation blocked: "@ + path + " is a protected system path"@
}

/// The text form of a validation result.
pub open spec fn validation_text(r: Result<SafetyLevel, String>) -> Result<SafetyLevel, Seq<char>> {
    match r {
        Ok(level) => Ok(level),
        Err(e) => Err(e@),
    }
}

/// The text form of a plan.
pub open spec fn plan_text(r: Result<FsStep, String>) -> Result<FsStepView, Seq<char>> {
    match r {
        Ok(step) => Ok(step@),
        Err(e) => Err(e@),
    }
}

impl FileSystemAction {
    /// The verdict on an action whose target was classified `target` and whose
    /// destination, if it has one, `destination`: the first blocked path is
    /// named in the error, else the target's level stands.
    pub open spec fn verdict(&self, target: SafetyLevel, destination: Option<SafetyLevel>) -> Result<SafetyLevel, Seq<char>> {
        if target == SafetyLevel::Blocked {
            Err(blocked_message(self.target_path@))
        } else if self.destination_path is Some && destination == Some(SafetyLevel::Blocked) {
            Err(blocked_message(self.destination_path->0@))
        } else {
            Ok(target)
        }
    }

    /// The plan for this action when its target is of kind `kind`.
    pub open spec fn plan_for(&self, kind: PathKind) -> Result<FsStepView, Seq<char>> {
        let p = self.target_path@;
        match self.action_type {
            ActionType::CreateFile => Ok(FsStepView::CreateFile(p, match self.content {
                Some(c) => c@,
                None => Seq::empty(),
            })),
            ActionType::CreateFolder => Ok(FsStepView::CreateFolder(p)),
            ActionType::DeleteFile => match kind {
                PathKind::Missing => Err("File not found: "@ + p),
                PathKind::File => Ok(FsStepView::RemoveFile(p)),
                _ => Err("Not a file: "@ + p),
            },
            ActionType::DeleteFolder => match kind {
                PathKind::Missing => Err("Folder not found: "@ + p),
                PathKind::Folder => Ok(FsStepView::RemoveFolder(p)),
                _ => Err("Not a folder: "@ + p),
            },
            ActionType::MoveFile => match self.destination_path {
                None => Err("Destination path required for move operation"@),
                Some(d) => if kind == PathKind::Missing {
                    Err("Source file not found: "@ + p)
                } else {
                    Ok(FsStepView::Rename(p, d@))
                },
            },
            ActionType::CopyFile => match self.destination_path {
                None => Err("Destination path required for copy operation"@),
                Some(d) => if kind == PathKind::Missing {
                    Err("Source file not found: "@ + p)
                } else {
                    Ok(FsStepView::Copy(p, d@))
                },
            },
        }
    }

    pub fn new(action_type: ActionType, target_path: String) -> (r: Self)
        ensures
            r.action_type == action_type,
            r.target_path == target_path,
            r.destination_path is None,
            r.content is None,
    {
        FileSystemAction { action_type, target_path, destination_path: None, content: None }
    }

    pub fn with_destination(self, dest: String) -> (r: Self)
        ensures
            r.action_type == self.action_type,
            r.target_path == self.target_path,
            r.destination_path == Some(dest),
            r.content == self.content,
    {
        FileSystemAction { destination_path: Some(dest), ..self }
    }

    pub fn with_content(self, content: String) -> (r: Self)
        ensures
            r.action_type == self.action_type,
            r.target_path == self.target_path,
            r.destination_path == self.destination_path,
            r.content == Some(content),
    {
        FileSystemAction { content: Some(content), ..self }
    }

    /// Validates the target and, if there is one, the destination against the
    /// safety rules: an error names the first blocked path.
    pub fn validate(&self, validator: &SafetyValidator) -> (r: Result<SafetyLevel, String>)
        ensures
            exists|target: SafetyLevel, destination: Option<SafetyLevel>| {
                &&& validator.possible_level(self.target_path@, target)
                &&& (destination is Some ==> self.destination_path is Some
                    && validator.possible_level(self.destination_path->0@, destination->0))
                &&& validation_text(r) == self.verdict(target, destination)
            },
    {
        let target = validator.check_path(self.target_path.as_str());
        if target == SafetyLevel::Blocked {
            return self.judge(target, None);
        }
        match &self.destination_path {
            Some(dest) => {
                let d = validator.check_path(dest.as_str());
                self.judge(target, Some(d))
            },
            None => self.judge(target, None),
        }
    }

    /// The verdict on this action, given the level of its target and of its
    /// destination.
    pub fn judge(&self, target: SafetyLevel, destination: Option<SafetyLevel>) -> (r: Result<SafetyLevel, String>)
        ensures
            validation_text(r) == self.verdict(target, destination),
    {
        if target == SafetyLevel::Blocked {
            return Err(concat3("Operation blocked: ", self.target_path.as_str(), " is a protected system path"));
        }
        match (&self.destination_path, destination) {
            (Some(dest), Some(SafetyLevel::Blocked)) => Err(
                concat3("Operation blocked: ", dest.as_str(), " is a protected system path"),
            ),
            _ => Ok(target),
        }
    }

    /// The host step this action needs when its target is of kind `kind`, or
    /// the error that ends it first.
    pub fn plan(&self, kind: PathKind) -> (r: Result<FsStep, String>)
        ensures
            plan_text(r) == self.plan_for(kind),
    {
        let p = self.target_path.as_str();
        match self.action_type {
            ActionType::CreateFile => {
                let content = match &self.content {
                    Some(c) => c.clone(),
                    None => String::new(),
                };
                Ok(FsStep::CreateFile { path: self.target_path.clone(), content })
            },
            ActionType::CreateFolder => Ok(FsStep::CreateFolder { path: self.target_path.clone() }),
            ActionType::DeleteFile => match kind {
                PathKind::Missing => Err(concat2("File not found: ", p)),
                PathKind::File => Ok(FsStep::RemoveFile { path: self.target_path.clone() }),
                _ => Err(concat2("Not a file: ", p)),
            },
            ActionType::DeleteFolder => match kind {
                PathKind::Missing => Err(concat2("Folder not found: ", p)),
                PathKind::Folder => Ok(FsStep::RemoveFolder { path: self.target_path.clone() }),
                _ => Err(concat2("Not a folder: ", p)),
            },
            ActionType::MoveFile => match &self.destination_path {
                None => Err(String::from_str("Destination path required for move operation")),
                Some(d) => if kind == PathKind::Missing {
                    Err(concat2("Source file not found: ", p))
                } else {
                    Ok(FsStep::Rename { from: self.target_path.clone(), to: d.clone() })
                },
            },
            ActionType::CopyFile => match &self.destination_path {
                None => Err(String::from_str("Destination path required for copy operation")),
                Some(d) => if kind == PathKind::Missing {
                    Err(concat2("Source file not found: ", p))
                } else {
                    Ok(FsStep::Copy { from: self.target_path.clone(), to: d.clone() })
                },
            },
        }
    }

    /// The message reported once the step has been performed.
    pub fn success_message(&self) -> (r: String)
        requires
            self.action_type == ActionType::MoveFile || self.action_type == ActionType::CopyFile
                ==> self.destination_path is Some,
        ensures
            r@ == match self.action_type {
                ActionType::CreateFile => "Created file: "@ + self.target_path@,
                ActionType::CreateFolder => "Created folder: "@ + self.target_path@,
                ActionType::DeleteFile => "Deleted file: "@ + self.target_path@,
                ActionType::DeleteFolder => "Deleted folder: "@ + self.target_path@,
                ActionType::MoveFile => "Moved "@ + self.target_path@ + " to "@ + self.destination_path->0@,
                ActionType::CopyFile => "Copied "@ + self.target_path@ + " to "@ + self.destination_path->0@,
            },
    {
        let p = self.target_path.as_str();
        match self.action_type {
            ActionType::CreateFile => concat2("Created file: ", p),
            ActionType::CreateFolder => concat2("Created folder: ", p),
            ActionType::DeleteFile => concat2("Deleted file: ", p),
            ActionType::DeleteFolder => concat2("Deleted folder: ", p),
            ActionType::MoveFile => {
                let d = self.destination_path.as_ref().unwrap();
                let mut r = concat3("Moved ", p, " to ");
                r.append(d.as_str());
                r
            },
            ActionType::CopyFile => {
                let d = self.destination_path.as_ref().unwrap();
                let mut r = concat3("Copied ", p, " to ");
                r.append(d.as_str());
                r
            },
        }
    }

    /// The message reported when the host step failed with `os_error`.
    pub fn failure_message(&self, os_error: &str) -> (r: String)
        ensures
            r@ == match self.action_type {
                ActionType::CreateFile => "Failed to create file: "@ + os_error@,
                ActionType::CreateFolder => "Failed to create folder: "@ + os_error@,
                ActionType::DeleteFile => "Failed to delete file: "@ + os_error@,
                ActionType::DeleteFolder => "Failed to delete folder: "@ + os_error@,
                ActionType::MoveFile => "Failed to move file: "@ + os_error@,
                ActionType::CopyFile => "Failed to copy file: "@ + os_error@,
            },
    {
        match self.action_type {
            ActionType::CreateFile => concat2("Failed to create file: ", os_error),
            ActionType::CreateFolder => concat2("Failed to create folder: ", os_error),
            ActionType::DeleteFile => concat2("Failed to delete file: ", os_error),
            ActionType::DeleteFolder => concat2("Failed to delete folder: ", os_error),
            ActionType::MoveFile => concat2("Failed to move file: ", os_error),
            ActionType::CopyFile => concat2("Failed to copy file: ", os_error),
        }
    }
}

/// The message reported when the parent folders of a new file could not be created.
pub fn parent_failure_message(os_error: &str) -> (r: String)
    ensures
        r@ == "Failed to create parent directory: "@ + os_error@,
{
    concat2("Failed to create parent directory: ", os_error)
}

/// Creating a file is planned whatever the target is, and its step creates
/// the missing parent folders first; deleting a file that does not exist
/// fails with an error that says it was not found; copying without a
/// destination fails with an error that names the missing destination.
pub proof fn lemma_action_edge_cases(action: FileSystemAction, kind: PathKind)
    ensures
        action.action_type == ActionType::CreateFile ==> (action.plan_for(kind) matches Ok(
            FsStepView::CreateFile(p, _),
        ) && p == action.target_path@),
        action.action_type == ActionType::DeleteFile && kind == PathKind::Missing ==> (action.plan_for(
            kind,
        ) matches Err(e) && contains_text(e, "not found"@)),
        action.action_type == ActionType::CopyFile && action.destination_path is None ==> (action.plan_for(
            kind,
        ) matches Err(e) && contains_text(e, "Destination"@)),
{
    reveal_strlit("File not found: ");
    reveal_strlit("not found");
    reveal_strlit("Destination");
    reveal_strlit("Destination path required for copy operation");
    let p = action.target_path@;
    let e = "File not found: "@ + p;
    assert(e.subrange(5, 5 + "not found"@.len() as int) =~= "not found"@);
    assert(contains_text(e, "not found"@));
    let c = "Destination path required for copy operation"@;
    assert(c.subrange(0, 0 + "Destination"@.len() as int) =~= "Destination"@);
    assert(contains_text(c, "Destination"@));
}

} // verus!
