use fluffy_core::filesystem::{parent_failure_message, ActionType, FileSystemAction, FsStep, PathKind};
use fluffy_core::safety::{SafetyLevel, SafetyValidator};

fn validator() -> SafetyValidator {
    SafetyValidator::with_roots(vec!["/etc".to_string()], vec!["/tmp".to_string()])
}

#[test]
fn builders_set_fields() {
    let a = FileSystemAction::new(ActionType::CopyFile, "/tmp/a".to_string())
        .with_destination("/tmp/b".to_string())
        .with_content("hi".to_string());
    assert_eq!(a.action_type, ActionType::CopyFile);
    assert_eq!(a.target_path, "/tmp/a");
    assert_eq!(a.destination_path.as_deref(), Some("/tmp/b"));
    assert_eq!(a.content.as_deref(), Some("hi"));
}

#[test]
fn validate_names_first_blocked_path() {
    let v = validator();
    let a = FileSystemAction::new(ActionType::DeleteFile, "/etc".to_string());
    assert_eq!(a.validate(&v), Err("Operation blocked: /etc is a protected system path".to_string()));
    let b = FileSystemAction::new(ActionType::CopyFile, "/tmp".to_string()).with_destination("/etc".to_string());
    assert_eq!(b.validate(&v), Err("Operation blocked: /etc is a protected system path".to_string()));
    let c = FileSystemAction::new(ActionType::CreateFile, "/tmp/fluffy_absent_81.txt".to_string());
    assert_eq!(c.validate(&v), Ok(SafetyLevel::Safe));
}

#[test]
fn judge_uses_given_levels() {
    let a = FileSystemAction::new(ActionType::MoveFile, "/x".to_string()).with_destination("/y".to_string());
    assert_eq!(a.judge(SafetyLevel::NeedsConfirmation, Some(SafetyLevel::Safe)), Ok(SafetyLevel::NeedsConfirmation));
    assert_eq!(a.judge(SafetyLevel::Safe, Some(SafetyLevel::Blocked)), Err("Operation blocked: /y is a protected system path".to_string()));
    assert_eq!(a.judge(SafetyLevel::Blocked, Some(SafetyLevel::Blocked)), Err("Operation blocked: /x is a protected system path".to_string()));
}

#[test]
fn create_file_plans_write_with_parents() {
    let a = FileSystemAction::new(ActionType::CreateFile, "/tmp/new_dir_81/f.txt".to_string());
    match a.plan(PathKind::Missing) {
        Ok(FsStep::CreateFile { path, content }) => {
            assert_eq!(path, "/tmp/new_dir_81/f.txt");
            assert_eq!(content, "");
        }
        other => panic!("unexpected plan {:?}", other),
    }
    let b = a.with_content("Test content".to_string());
    assert!(matches!(b.plan(PathKind::File), Ok(FsStep::CreateFile { ref content, .. }) if content == "Test content"));
    assert_eq!(b.success_message(), "Created file: /tmp/new_dir_81/f.txt");
    assert_eq!(parent_failure_message("denied"), "Failed to create parent directory: denied");
}

#[test]
fn delete_missing_file_is_not_found() {
    let a = FileSystemAction::new(ActionType::DeleteFile, "/tmp/ghost.txt".to_string());
    let e = a.plan(PathKind::Missing).unwrap_err();
    assert_eq!(e, "File not found: /tmp/ghost.txt");
    assert!(e.contains("not found"));
    assert_eq!(a.plan(PathKind::Folder).unwrap_err(), "Not a file: /tmp/ghost.txt");
    assert!(matches!(a.plan(PathKind::File), Ok(FsStep::RemoveFile { .. })));
}

#[test]
fn delete_folder_checks_kind() {
    let a = FileSystemAction::new(ActionType::DeleteFolder, "/tmp/d".to_string());
    assert_eq!(a.plan(PathKind::Missing).unwrap_err(), "Folder not found: /tmp/d");
    assert_eq!(a.plan(PathKind::File).unwrap_err(), "Not a folder: /tmp/d");
    assert!(matches!(a.plan(PathKind::Folder), Ok(FsStep::RemoveFolder { .. })));
    assert_eq!(a.success_message(), "Deleted folder: /tmp/d");
    assert_eq!(a.failure_message("busy"), "Failed to delete folder: busy");
}

#[test]
fn copy_without_destination_names_it() {
    let a = FileSystemAction::new(ActionType::CopyFile, "/tmp/a".to_string());
    let e = a.plan(PathKind::File).unwrap_err();
    assert_eq!(e, "Destination path required for copy operation");
    let m = FileSystemAction::new(ActionType::MoveFile, "/tmp/a".to_string());
    assert_eq!(m.plan(PathKind::File).unwrap_err(), "Destination path required for move operation");
}

#[test]
fn move_and_copy_need_a_source() {
    let m = FileSystemAction::new(ActionType::MoveFile, "/tmp/a".to_string()).with_destination("/tmp/b".to_string());
    assert_eq!(m.plan(PathKind::Missing).unwrap_err(), "Source file not found: /tmp/a");
    assert!(matches!(m.plan(PathKind::File), Ok(FsStep::Rename { ref from, ref to }) if from == "/tmp/a" && to == "/tmp/b"));
    assert_eq!(m.success_message(), "Moved /tmp/a to /tmp/b");
    let c = FileSystemAction::new(ActionType::CopyFile, "/tmp/a".to_string()).with_destination("/tmp/b".to_string());
    assert!(matches!(c.plan(PathKind::File), Ok(FsStep::Copy { .. })));
    assert_eq!(c.success_message(), "Copied /tmp/a to /tmp/b");
    assert_eq!(c.failure_message("e"), "Failed to copy file: e");
}
