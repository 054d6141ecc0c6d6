use mcpelauncher_core::paths;

const ROOT: &str = "/home/user/.local/share";

#[test]
fn data_dir_under_root() {
    assert_eq!(paths::data_dir(ROOT), "/home/user/.local/share/mcpelauncher");
}

#[test]
fn versions_dir_under_data_dir() {
    assert_eq!(
        paths::versions_dir(ROOT),
        "/home/user/.local/share/mcpelauncher/versions"
    );
}

#[test]
fn profiles_dir_under_data_dir() {
    assert_eq!(
        paths::profiles_dir(ROOT),
        "/home/user/.local/share/mcpelauncher/profiles"
    );
}

#[test]
fn apps_dir_under_data_dir() {
    assert_eq!(
        paths::apps_dir(ROOT),
        "/home/user/.local/share/mcpelauncher/applications/minecraft_iced"
    );
}

#[test]
fn logo_path_under_data_dir() {
    assert_eq!(
        paths::logo_path(ROOT),
        "/home/user/.local/share/mcpelauncher/logo.png"
    );
}

#[test]
fn version_and_profile_paths() {
    assert_eq!(
        paths::version_path(ROOT, "1.20.1"),
        "/home/user/.local/share/mcpelauncher/versions/1.20.1"
    );
    assert_eq!(
        paths::profile_path(ROOT, "1.20.1"),
        "/home/user/.local/share/mcpelauncher/profiles/1.20.1"
    );
}

#[test]
fn derive_profile_path_round_trip() {
    let vp = paths::version_path(ROOT, "1.20.1");
    let derived = paths::derive_profile_path(ROOT, &vp);
    assert_eq!(derived, Some(paths::profile_path(ROOT, "1.20.1")));
}

#[test]
fn derive_profile_path_other_version() {
    let vp = paths::version_path(ROOT, "1.21.0");
    let derived = paths::derive_profile_path(ROOT, &vp);
    assert_eq!(derived.as_deref(), Some("/home/user/.local/share/mcpelauncher/profiles/1.21.0"));
}

#[test]
fn derive_profile_path_outside_versions_root() {
    assert_eq!(paths::derive_profile_path(ROOT, "/tmp/elsewhere"), None);
    assert_eq!(
        paths::derive_profile_path(ROOT, "/home/user/.local/share/mcpelauncher/profiles/x"),
        None
    );
}

#[test]
fn join_path_inserts_separator() {
    assert_eq!(paths::join_path("/a/b", "c"), "/a/b/c");
}

#[test]
fn default_data_dir_ends_with_app_directory() {
    if let Some(d) = paths::default_data_dir() {
        assert!(d.ends_with("/mcpelauncher"));
        assert!(d.len() > "/mcpelauncher".len());
    }
}
