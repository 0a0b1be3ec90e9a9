use core_providers::helper::staging::StagingGuard;
use core_providers::paths::FsPath;

fn path(parts: &[&str]) -> FsPath {
    FsPath::from_parts(parts.iter().map(|part| part.to_string()).collect())
}

#[test]
fn new_guard_is_bound_and_uncommitted() {
    let guard = StagingGuard::new(path(&["data", "theme.staging"]));
    assert!(!guard.is_committed());
    assert_eq!(guard.path().parts(), &vec!["data".to_string(), "theme.staging".to_string()]);
}

#[test]
fn uncommitted_guard_owes_the_removal_of_its_directory() {
    let guard = StagingGuard::new(path(&["data", "theme.staging"]));
    let owed = guard.release();
    assert!(owed.is_some());
    assert_eq!(owed.unwrap().parts(), &vec!["data".to_string(), "theme.staging".to_string()]);
}

#[test]
fn committed_guard_owes_nothing() {
    let guard = StagingGuard::new(path(&["data", "theme.staging"])).commit();
    assert!(guard.is_committed());
    assert!(guard.release().is_none());
}
