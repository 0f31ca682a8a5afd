use std::path::PathBuf;
use vm_remoting_mcp::paths::{
    os_config_dir, pick_targets_file, targets_file, UserDirs, TARGETS_FILE_NAME,
};

fn dirs(windows: bool) -> UserDirs {
    UserDirs {
        windows,
        appdata: Some("roaming".into()),
        xdg_config_home: Some("xdg".into()),
        home: Some("home".into()),
        temp_dir: "tmp".into(),
    }
}

#[test]
fn pick_prefers_explicit_file_env() {
    let p = pick_targets_file(
        Some("X.json".into()),
        Some("dir".into()),
        Some("cwd.json".into()),
        &PathBuf::from("os"),
    );
    assert_eq!(p, PathBuf::from("X.json"));
}

#[test]
fn pick_uses_config_dir_when_no_file_env() {
    let p = pick_targets_file(
        None,
        Some(PathBuf::from("dir")),
        Some("cwd.json".into()),
        &PathBuf::from("os"),
    );
    assert_eq!(p, PathBuf::from("dir").join(".vm-targets.json"));
}

#[test]
fn pick_uses_cwd_config_when_present() {
    let cwd = PathBuf::from("cwd").join(".vm-targets.json");
    let p = pick_targets_file(None, None, Some(cwd.clone()), &PathBuf::from("os"));
    assert_eq!(p, cwd);
}

#[test]
fn pick_falls_back_to_os_dir() {
    let p = pick_targets_file(None, None, None, &PathBuf::from("os"));
    assert_eq!(p, PathBuf::from("os").join(".vm-targets.json"));
}

#[test]
fn targets_file_has_its_name() {
    assert_eq!(TARGETS_FILE_NAME, ".vm-targets.json");
}

#[test]
fn windows_uses_appdata() {
    let mut d = dirs(true);
    assert_eq!(
        os_config_dir(&d),
        PathBuf::from("roaming").join("vm-remoting")
    );
    d.appdata = None;
    assert_eq!(os_config_dir(&d), PathBuf::from("tmp").join("vm-remoting"));
}

#[test]
fn other_platforms_use_xdg_then_home() {
    let mut d = dirs(false);
    assert_eq!(os_config_dir(&d), PathBuf::from("xdg").join("vm-remoting"));
    d.xdg_config_home = None;
    assert_eq!(
        os_config_dir(&d),
        PathBuf::from("home").join(".config").join("vm-remoting")
    );
    d.home = None;
    assert_eq!(os_config_dir(&d), PathBuf::from("tmp").join("vm-remoting"));
}

#[test]
fn per_user_file_is_the_last_resort() {
    assert_eq!(
        targets_file(None, None, None, &dirs(false)),
        PathBuf::from("xdg")
            .join("vm-remoting")
            .join(".vm-targets.json")
    );
    assert_eq!(
        targets_file(None, Some("d".into()), None, &dirs(false)),
        PathBuf::from("d").join(".vm-targets.json")
    );
}
