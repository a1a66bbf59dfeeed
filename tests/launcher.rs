use fluffy_core::launcher::{common_windows_apps, AppInfo, AppLauncher};

fn app(name: &str, display: &str) -> AppInfo {
    AppInfo { name: name.to_string(), path: format!("/usr/bin/{}", name), display_name: display.to_string() }
}

fn catalogue() -> AppLauncher {
    AppLauncher::with_apps(vec![
        app("firefox", "Mozilla Firefox"),
        app("code", "Visual Studio Code"),
        app("gimp", "GNU Image Manipulation Program"),
    ])
}

#[test]
fn exact_name_wins() {
    let l = catalogue();
    assert_eq!(l.find_app("code").unwrap().display_name, "Visual Studio Code");
    assert_eq!(l.find_app("GIMP").unwrap().name, "gimp");
}

#[test]
fn loose_match_by_display_name_in_lower_case() {
    let l = catalogue();
    assert_eq!(l.find_app("Studio").unwrap().name, "code");
    assert_eq!(l.find_app("MOZILLA").unwrap().name, "firefox");
    assert_eq!(l.find_app("fire").unwrap().name, "firefox");
    assert!(l.find_app("blender").is_none());
}

#[test]
fn launch_target_reports_unknown_app() {
    let l = catalogue();
    assert_eq!(l.launch_target("blender").unwrap_err(), "Application 'blender' not found");
    assert_eq!(l.launch_target("gimp").unwrap().path, "/usr/bin/gimp");
}

#[test]
fn later_app_replaces_same_name() {
    let mut l = AppLauncher::with_apps(vec![app("vim", "Vim"), app("vim", "Vi IMproved")]);
    assert_eq!(l.list_apps().len(), 1);
    assert_eq!(l.find_app("vim").unwrap().display_name, "Vi IMproved");
    l.add(app("nano", "GNU nano"));
    assert_eq!(l.list_apps().len(), 2);
    l.refresh(vec![app("ed", "ed")]);
    assert_eq!(l.list_apps().len(), 1);
    assert!(l.find_app("vim").is_none());
}

#[test]
fn well_known_windows_apps() {
    let apps = common_windows_apps();
    let names: Vec<&str> = apps.iter().map(|a| a.name.as_str()).collect();
    assert_eq!(names, vec!["chrome", "firefox", "edge", "vscode", "notepad", "calculator", "explorer"]);
    assert_eq!(apps[4].path, "C:\\Windows\\System32\\notepad.exe");
}
