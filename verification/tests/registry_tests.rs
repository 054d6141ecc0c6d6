use mcpelauncher_core::paths;
use mcpelauncher_core::registry::Registry;

const ROOT: &str = "/home/user/.local/share";

fn scan(versions: &[&str], profiles: &[&str]) -> Registry {
    Registry::from_scan(
        ROOT.to_string(),
        versions.iter().map(|s| s.to_string()).collect(),
        profiles.iter().map(|s| s.to_string()).collect(),
    )
}

#[test]
fn list_versions_returns_every_scanned_version() {
    let mut reg = scan(&["1.20.1", "1.21.0"], &[]);
    let (listed, created) = reg.list_versions();
    let names: Vec<&str> = listed.iter().map(|v| v.name.as_str()).collect();
    assert_eq!(listed.len(), 2);
    assert!(names.contains(&"1.20.1"));
    assert!(names.contains(&"1.21.0"));
    assert_eq!(created.len(), 2);
    assert!(created.iter().any(|n| n == "1.20.1"));
    assert!(created.iter().any(|n| n == "1.21.0"));
}

#[test]
fn list_versions_reports_paths_for_each_entry() {
    let mut reg = scan(&["1.20.1"], &[]);
    let (listed, _) = reg.list_versions();
    assert_eq!(listed[0].name, "1.20.1");
    assert_eq!(listed[0].install_path, paths::version_path(ROOT, "1.20.1"));
    assert_eq!(listed[0].profile_path, paths::profile_path(ROOT, "1.20.1"));
}

#[test]
fn listing_twice_creates_profiles_once() {
    let mut reg = scan(&["1.20.1", "1.21.0"], &[]);
    let (_, created_first) = reg.list_versions();
    assert_eq!(created_first.len(), 2);
    let (listed, created_again) = reg.list_versions();
    assert_eq!(listed.len(), 2);
    assert!(created_again.is_empty());
}

#[test]
fn existing_profiles_are_not_recreated() {
    let mut reg = scan(&["1.20.1", "1.21.0"], &["1.20.1"]);
    let (_, created) = reg.list_versions();
    assert_eq!(created, vec!["1.21.0".to_string()]);
}

#[test]
fn scan_drops_duplicate_entries() {
    let reg = scan(&["1.20.1", "1.20.1"], &[]);
    assert_eq!(reg.version_names().len(), 1);
}

#[test]
fn delete_missing_version_is_a_no_op() {
    let mut reg = scan(&["1.20.1"], &["1.20.1"]);
    let plan = reg.delete_version("9.9.9", false);
    assert_eq!(reg.version_names(), &vec!["1.20.1".to_string()]);
    assert_eq!(plan.version_dir, paths::version_path(ROOT, "9.9.9"));
    assert_eq!(plan.profile_dir, None);
}

#[test]
fn delete_removes_the_version() {
    let mut reg = scan(&["1.20.1", "1.21.0"], &["1.20.1", "1.21.0"]);
    let plan = reg.delete_version("1.20.1", false);
    assert_eq!(reg.version_names(), &vec!["1.21.0".to_string()]);
    assert_eq!(plan.version_dir, paths::version_path(ROOT, "1.20.1"));
    assert_eq!(plan.profile_dir, None);
}

#[test]
fn delete_with_profile_names_both_directories() {
    let mut reg = scan(&["1.20.1"], &["1.20.1"]);
    let plan = reg.delete_version("1.20.1", true);
    assert!(reg.version_names().is_empty());
    assert_eq!(plan.version_dir, paths::version_path(ROOT, "1.20.1"));
    assert_eq!(plan.profile_dir, Some(paths::profile_path(ROOT, "1.20.1")));
}
