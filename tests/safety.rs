use fluffy_core::safety::{extension, path_is_under, plain_path, SafetyLevel, SafetyValidator};

fn strings(v: &[&str]) -> Vec<String> {
    v.iter().map(|s| s.to_string()).collect()
}

#[test]
fn test_protected_paths() {
    let validator = SafetyValidator::new();
    let windows_path = "C:\\Windows\\System32\\test.dll";
    assert!(matches!(validator.check_path(windows_path), SafetyLevel::Blocked));
}

#[test]
fn protected_root_wins_over_allowed_root() {
    let v = SafetyValidator::with_roots(strings(&["/home/u/Documents/secret"]), strings(&["/home/u/Documents"]));
    assert_eq!(v.level_for("/home/u/Documents/secret/a.txt", "/home/u/Documents/secret/a.txt"), SafetyLevel::Blocked);
    assert_eq!(v.level_for("/home/u/Documents/secret", "/home/u/Documents/secret"), SafetyLevel::Blocked);
    assert_eq!(v.level_for("/home/u/Documents/a.txt", "/home/u/Documents/a.txt"), SafetyLevel::Safe);
}

#[test]
fn system_extension_in_allowed_dir_needs_confirmation() {
    let v = SafetyValidator::with_roots(strings(&["/etc"]), strings(&["/home/u/Downloads"]));
    assert_eq!(v.level_for("/home/u/Downloads/setup.exe", "/home/u/Downloads/setup.exe"), SafetyLevel::NeedsConfirmation);
    assert_eq!(v.level_for("/home/u/Downloads/driver.SyS", "/home/u/Downloads/driver.SyS"), SafetyLevel::NeedsConfirmation);
    assert_eq!(v.level_for("/home/u/Downloads/lib.Dll", "/home/u/Downloads/lib.Dll"), SafetyLevel::NeedsConfirmation);
    assert_eq!(v.level_for("/home/u/Downloads/notes.txt", "/home/u/Downloads/notes.txt"), SafetyLevel::Safe);
    assert_eq!(v.level_for("/home/u/Downloads/exe", "/home/u/Downloads/exe"), SafetyLevel::Safe);
}

#[test]
fn path_outside_both_sets_needs_confirmation() {
    let v = SafetyValidator::with_roots(strings(&["/etc"]), strings(&["/home/u/Documents"]));
    assert_eq!(v.level_for("/opt/tool/readme", "/opt/tool/readme"), SafetyLevel::NeedsConfirmation);
    assert_eq!(v.level_for("/etcetera/x", "/etcetera/x"), SafetyLevel::NeedsConfirmation);
    assert_eq!(v.level_for("/home/u/Documents2/x", "/home/u/Documents2/x"), SafetyLevel::NeedsConfirmation);
}

#[test]
fn roots_compare_whole_components() {
    assert!(path_is_under("/bin", "/bin"));
    assert!(path_is_under("/bin/ls", "/bin"));
    assert!(!path_is_under("/binary", "/bin"));
    assert!(path_is_under("/x", "/"));
    assert!(path_is_under("C:\\Windows\\System32", "C:\\Windows"));
    assert!(!path_is_under("C:\\WindowsApps", "C:\\Windows"));
}

#[test]
fn extension_of_final_component() {
    assert_eq!(extension("/a/b.tar.gz"), Some("gz".to_string()));
    assert_eq!(extension("/home/u/.bashrc"), None);
    assert_eq!(extension("/a.d/file"), None);
    assert_eq!(extension("C:\\x\\Setup.EXE"), Some("EXE".to_string()));
    assert_eq!(extension("name."), Some("".to_string()));
    assert_eq!(extension(""), None);
}

#[test]
fn existing_protected_path_is_blocked() {
    let v = SafetyValidator::with_roots(strings(&["/etc"]), strings(&["/tmp"]));
    assert_eq!(v.check_path("/etc"), SafetyLevel::Blocked);
    assert!(v.is_system_critical("/etc"));
}

#[test]
fn canonical_form_resolves_dot_dot() {
    let v = SafetyValidator::with_roots(strings(&["/etc"]), strings(&["/tmp"]));
    assert_eq!(v.check_path("/tmp/../etc"), SafetyLevel::Blocked);
    assert_eq!(v.level_for("/tmp/../etc", "/tmp/../etc"), SafetyLevel::Safe);
}

#[test]
fn new_file_in_allowed_dir_is_judged_by_parent_and_extension() {
    let v = SafetyValidator::with_roots(strings(&["/etc"]), strings(&["/tmp"]));
    assert_eq!(v.check_path("/tmp/fluffy_absent_note_81.txt"), SafetyLevel::Safe);
    assert_eq!(v.check_path("/tmp/fluffy_absent_tool_81.exe"), SafetyLevel::NeedsConfirmation);
    assert!(!v.is_system_critical("/tmp/fluffy_absent_note_81.txt"));
}

#[test]
fn unresolvable_path_is_blocked() {
    let v = SafetyValidator::with_roots(strings(&["/etc"]), strings(&["/tmp"]));
    assert_eq!(v.check_path("/tmp/fluffy_absent_dir_81/inner/file.txt"), SafetyLevel::Blocked);
    assert_eq!(v.check_path(""), SafetyLevel::Blocked);
}

#[test]
fn platform_roots_and_user_dirs() {
    let unix = SafetyValidator::get_protected_paths('/');
    assert_eq!(unix.len(), 10);
    assert_eq!(unix[0], "/bin");
    assert_eq!(unix[9], "/lib64");
    let windows = SafetyValidator::get_protected_paths('\\');
    assert_eq!(windows, strings(&["C:\\Windows", "C:\\Program Files", "C:\\Program Files (x86)", "C:\\ProgramData"]));
    let allowed = SafetyValidator::get_allowed_paths("/home/u", '/');
    assert_eq!(allowed, strings(&[
        "/home/u/Documents", "/home/u/Desktop", "/home/u/Downloads",
        "/home/u/Pictures", "/home/u/Videos", "/home/u/Music",
    ]));
    let allowed = SafetyValidator::get_allowed_paths("/home/u/", '/');
    assert_eq!(allowed[0], "/home/u/Documents");
    let allowed = SafetyValidator::get_allowed_paths("C:\\Users\\A", '\\');
    assert_eq!(allowed[5], "C:\\Users\\A\\Music");
}

#[test]
fn default_validator_protects_system_dirs() {
    let v = SafetyValidator::new();
    assert_eq!(v.check_path("/etc"), SafetyLevel::Blocked);
    assert_eq!(v.check_path("/proc/self"), SafetyLevel::Blocked);
}

#[test]
fn verbatim_prefix_is_dropped_before_comparing() {
    assert_eq!(plain_path("\\\\?\\C:\\Windows\\System32"), "C:\\Windows\\System32");
    assert_eq!(plain_path("C:\\Windows"), "C:\\Windows");
    assert_eq!(plain_path("/etc"), "/etc");
    let v = SafetyValidator::with_roots(vec!["C:\\Windows".to_string()], vec![]);
    let c = plain_path("\\\\?\\C:\\Windows\\System32\\test.dll");
    assert_eq!(v.level_for(&c, &c), SafetyLevel::Blocked);
}

#[test]
fn level_follows_each_resolution_outcome() {
    let v = SafetyValidator::with_roots(strings(&["/etc"]), strings(&["/home/u/Documents"]));
    let s = |x: &str| Some(x.to_string());
    assert_eq!(v.level_after_resolution("/x/doc.txt", s("/home/u/Documents/doc.txt"), None), SafetyLevel::Safe);
    assert_eq!(v.level_after_resolution("/x/doc.txt", s("/etc/doc.txt"), s("/home/u/Documents")), SafetyLevel::Blocked);
    assert_eq!(v.level_after_resolution("/home/u/Documents/new.dll", None, s("/home/u/Documents")), SafetyLevel::NeedsConfirmation);
    assert_eq!(v.level_after_resolution("/home/u/Documents/new.txt", None, s("/home/u/Documents")), SafetyLevel::Safe);
    assert_eq!(v.level_after_resolution("/home/u/Documents/new.txt", None, None), SafetyLevel::Blocked);
    assert_eq!(v.level_after_resolution("/", None, s("/home/u/Documents")), SafetyLevel::Blocked);
    assert_eq!(v.level_after_resolution("/x", s("\\\\?\\C:\\Windows"), None), SafetyLevel::NeedsConfirmation);
}
