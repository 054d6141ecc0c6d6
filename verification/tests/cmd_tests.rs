use mcpelauncher_core::cmd;
use mcpelauncher_core::paths;

const ROOT: &str = "/home/user/.local/share";

#[test]
fn launch_args_shared_profile_no_addon() {
    let args = cmd::build_launch_args("/v/1.20.1", "/p/1.20.1", None, true);
    assert_eq!(
        args,
        vec![
            "/app/bin/mcpelauncher-client".to_string(),
            "-dg".to_string(),
            "/v/1.20.1".to_string(),
        ]
    );
}

#[test]
fn launch_args_shared_profile_never_has_data_dir_flag() {
    let args = cmd::build_launch_args("/v/1.20.1", "/p/1.20.1", Some("/a/pack.mcpack"), true);
    assert!(args.iter().all(|a| a != "-dd"));
    let args = cmd::build_launch_args("/v/1.20.1", "/p/1.20.1", None, true);
    assert!(args.iter().all(|a| a != "-dd"));
}

#[test]
fn launch_args_own_profile_has_data_dir_flag() {
    let args = cmd::build_launch_args("/v/1.20.1", "/p/1.20.1", None, false);
    assert_eq!(args[3], "-dd");
    assert_eq!(args[4], "/p/1.20.1");
    assert_eq!(args.len(), 5);
}

#[test]
fn launch_args_for_points_at_derived_profile() {
    let args = cmd::build_launch_args_for(ROOT, "1.20.1", None, false);
    assert_eq!(args[2], paths::version_path(ROOT, "1.20.1"));
    assert_eq!(args[3], "-dd");
    assert_eq!(args[4], paths::profile_path(ROOT, "1.20.1"));
}

#[test]
fn launch_args_addon_is_final_pair() {
    for shared in [true, false] {
        let args = cmd::build_launch_args("/v/x", "/p/x", Some("/a/map.mcworld"), shared);
        let n = args.len();
        assert_eq!(args[n - 2], "-ifp");
        assert_eq!(args[n - 1], "/a/map.mcworld");
    }
}

#[test]
fn extract_args_are_package_then_target() {
    let args = cmd::build_extract_args(ROOT, "/tmp/game.apk", "1.20.1");
    assert_eq!(
        args,
        vec![
            "/tmp/game.apk".to_string(),
            paths::version_path(ROOT, "1.20.1"),
        ]
    );
}

#[test]
fn install_command_requires_package_and_name() {
    assert!(cmd::install_command(ROOT, "", "1.20.1").is_none());
    assert!(cmd::install_command(ROOT, "/tmp/game.apk", "").is_none());
    assert!(cmd::install_command(ROOT, "", "").is_none());
    let c = cmd::install_command(ROOT, "/tmp/game.apk", "1.20.1").unwrap();
    assert_eq!(c.program, "/app/bin/mcpelauncher-extract");
    assert_eq!(
        c.args,
        vec![
            "/tmp/game.apk".to_string(),
            paths::version_path(ROOT, "1.20.1"),
        ]
    );
}
