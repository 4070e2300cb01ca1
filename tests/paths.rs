use guarded_files::files::{join_path, parent_path, realize, PathProbe, RealizationError};

fn root() -> Result<String, String> {
    Ok(String::from("/srv/files"))
}

fn canonical(p: &str) -> PathProbe {
    PathProbe::Canonical(String::from(p))
}

#[test]
fn join_appends_relative_and_replaces_with_absolute() {
    assert_eq!(join_path("/srv/files", "a/b"), "/srv/files/a/b");
    assert_eq!(join_path("/srv/files/", "a"), "/srv/files/a");
    assert_eq!(join_path("/srv/files", "/etc/passwd"), "/etc/passwd");
    assert_eq!(join_path("/srv/files", ""), "/srv/files/");
    assert_eq!(join_path("", "a"), "a");
}

#[test]
fn parent_drops_the_last_segment() {
    assert_eq!(parent_path("/srv/files/reports/2024/q1.csv"), Some(String::from("/srv/files/reports/2024")));
    assert_eq!(parent_path("/srv//files/./a/"), Some(String::from("/srv/files")));
    assert_eq!(parent_path("/a"), Some(String::from("/")));
    assert_eq!(parent_path("/"), None);
}

#[test]
fn escaping_request_is_outside_base() {
    let joined = join_path("/srv/files", "../../etc/passwd");
    assert_eq!(parent_path(&joined), Some(String::from("/srv/files/../../etc")));
    // The target exists and canonicalizes outside the root.
    let r = realize(root(), "../../etc/passwd", canonical("/etc/passwd"), PathProbe::Missing, false);
    assert!(matches!(r, Err(RealizationError::OutsideBase)));
    // The target does not exist; its parent canonicalizes outside the root.
    let r = realize(root(), "../../etc/passwd", PathProbe::Missing, canonical("/etc"), false);
    assert!(matches!(r, Err(RealizationError::OutsideBase)));
}

#[test]
fn missing_file_in_existing_directory_resolves() {
    let joined = join_path("/srv/files", "reports/2024/q1.csv");
    assert_eq!(parent_path(&joined), Some(String::from("/srv/files/reports/2024")));
    let f = realize(root(), "reports/2024/q1.csv", PathProbe::Missing, canonical("/srv/files/reports/2024"), false)
        .ok()
        .unwrap();
    assert_eq!(f.logical_path, "reports/2024/q1.csv");
    assert_eq!(f.real_path, "/srv/files/reports/2024/q1.csv");
}

#[test]
fn existing_file_resolves_through_links() {
    let f = realize(root(), "docs/link", canonical("/srv/files/data/a.txt"), PathProbe::Missing, true).ok().unwrap();
    assert_eq!(f.real_path, "/srv/files/data/a.txt");
    assert_eq!(f.logical_path, "data/a.txt");
}

#[test]
fn root_itself_is_outside_base() {
    let r = realize(root(), "", canonical("/srv/files"), PathProbe::Missing, true);
    assert!(matches!(r, Err(RealizationError::OutsideBase)));
    let r = realize(root(), ".", canonical("/srv/files"), PathProbe::Missing, false);
    assert!(matches!(r, Err(RealizationError::OutsideBase)));
    let r = realize(root(), "a/..", canonical("/srv/files"), PathProbe::Missing, false);
    assert!(matches!(r, Err(RealizationError::OutsideBase)));
}

#[test]
fn top_level_entry_resolves() {
    let f = realize(root(), "a", PathProbe::Missing, canonical("/srv/files"), false).ok().unwrap();
    assert_eq!(f.real_path, "/srv/files/a");
    assert_eq!(f.logical_path, "a");
}

#[test]
fn prefix_of_a_segment_is_not_containment() {
    let r = realize(root(), "../files2/x", canonical("/srv/files2/x"), PathProbe::Missing, true);
    assert!(matches!(r, Err(RealizationError::OutsideBase)));
}

#[test]
fn root_failures_are_non_canonical_base() {
    let r = realize(Err(String::from("no such dir")), "a", canonical("/srv/files/a"), PathProbe::Missing, false);
    assert!(matches!(r, Err(RealizationError::NonCanonicalBase(ref e)) if e == "no such dir"));
    let r = realize(Ok(String::from("/srv/../files")), "a", canonical("/files/a"), PathProbe::Missing, false);
    assert!(matches!(r, Err(RealizationError::NonCanonicalBase(_))));
    let r = realize(Ok(String::from("srv/files")), "a", canonical("/srv/files/a"), PathProbe::Missing, false);
    assert!(matches!(r, Err(RealizationError::NonCanonicalBase(_))));
}

#[test]
fn target_failures_are_non_canonical_path() {
    let r = realize(root(), "a", PathProbe::Failed(String::from("denied")), PathProbe::Missing, false);
    assert!(matches!(r, Err(RealizationError::NonCanonicalPath(ref e)) if e == "denied"));
}

#[test]
fn required_file_must_exist() {
    let r = realize(root(), "a", PathProbe::Missing, canonical("/srv/files"), true);
    assert!(matches!(r, Err(RealizationError::FileNotFound)));
}

#[test]
fn missing_parent_is_parent_not_found() {
    let r = realize(root(), "no/such/file", PathProbe::Missing, PathProbe::Missing, false);
    assert!(matches!(r, Err(RealizationError::ParentNotFound)));
    let r = realize(Ok(String::from("/")), "", PathProbe::Missing, canonical("/"), false);
    assert!(matches!(r, Err(RealizationError::ParentNotFound)));
}

#[test]
fn parent_failure_is_non_canonical_parent() {
    let r = realize(root(), "a/b", PathProbe::Missing, PathProbe::Failed(String::from("loop")), false);
    assert!(matches!(r, Err(RealizationError::NonCanonicalParent(ref e)) if e == "loop"));
}

#[test]
fn missing_dot_dot_target_is_outside_base() {
    let r = realize(root(), "a/..", PathProbe::Missing, canonical("/srv/files/a"), false);
    assert!(matches!(r, Err(RealizationError::OutsideBase)));
}
