use guarded_files::hook::{exit_outcome, HookError};
use guarded_files::policy::{Effect, Group, PolicyStatement, User};
use guarded_files::session::SessionCookie;
use guarded_files::store::{
    authenticate, hash_password, record_access, record_names, FilePolicyStore, ListedFile, LockKind,
    OpenFailure, OpenMode, StoreError, StoredUser, printable_ascii,
};

fn alice() -> User {
    User {
        login_name: String::from("alice"),
        full_name: Some(String::from("Alice")),
        groups: vec![String::from("staff")],
        policy_statements: vec![PolicyStatement {
            effect: Effect::Allow,
            actions: vec![String::from("file:*")],
            resources: vec![String::from("*")],
        }],
    }
}

fn record(hash: Option<&str>) -> StoredUser {
    StoredUser::from_user(alice(), hash.map(String::from))
}

#[test]
fn record_files_are_named_after_principals() {
    let a = record_access("/var/store/users", "alice", OpenMode::Read).unwrap();
    assert_eq!(a.path, "/var/store/users/alice.json");
    assert!(a.flags.read && !a.flags.write);
    assert_eq!(a.lock, LockKind::Shared);
    let a = record_access("/var/store/users", "alice", OpenMode::Create).unwrap();
    assert!(a.flags.create_new && a.flags.write && !a.flags.truncate);
    assert_eq!(a.lock, LockKind::Exclusive);
    let a = record_access("/var/store/users", "alice", OpenMode::Update).unwrap();
    assert!(!a.flags.create_new && a.flags.truncate);
    assert_eq!(a.lock, LockKind::Exclusive);
}

#[test]
fn traversing_names_are_refused() {
    assert!(matches!(record_access("/s/users", "../groups/admins", OpenMode::Update), Err(StoreError::InvalidName)));
    assert!(matches!(record_access("/s/users", "/etc/passwd", OpenMode::Read), Err(StoreError::InvalidName)));
}

#[test]
fn store_directories() {
    let s = FilePolicyStore::new("/var/store");
    assert_eq!(s.user_dir(), "/var/store/users");
    assert_eq!(s.group_dir(), "/var/store/groups");
    assert_eq!(s.group_record("admins", OpenMode::Read).unwrap().path, "/var/store/groups/admins.json");
}

#[test]
fn listing_keeps_record_files_only() {
    let files = vec![
        ListedFile { file_name: String::from("alice.json"), is_file: true },
        ListedFile { file_name: String::from("notes.txt"), is_file: true },
        ListedFile { file_name: String::from("dir.json"), is_file: false },
        ListedFile { file_name: String::from("bob.json"), is_file: true },
        ListedFile { file_name: String::from("json"), is_file: true },
    ];
    assert_eq!(record_names(&files), vec![String::from("alice"), String::from("bob")]);
}

#[test]
fn create_writes_a_new_record_without_password() {
    let s = FilePolicyStore::new("/var/store");
    let w = s.create_user(alice()).unwrap();
    assert_eq!(w.access.path, "/var/store/users/alice.json");
    assert!(w.access.flags.create_new);
    assert_eq!(w.record.login_name, "alice");
    assert_eq!(w.record.password_hash, None);
}

#[test]
fn second_create_reports_existing_record() {
    assert_eq!(StoreError::from_open_failure(OpenFailure::AlreadyExists), StoreError::AlreadyExists);
    assert_eq!(StoreError::from_open_failure(OpenFailure::NotFound), StoreError::NotFound);
    assert_eq!(StoreError::from_open_failure(OpenFailure::Other), StoreError::Io);
}

#[test]
fn update_keeps_the_password_hash() {
    let s = FilePolicyStore::new("/var/store");
    let mut changed = alice();
    changed.full_name = Some(String::from("Alice B."));
    let w = s.update_user(changed, record(Some("$6$salt$hash"))).unwrap();
    assert_eq!(w.record.password_hash, Some(String::from("$6$salt$hash")));
    assert_eq!(w.record.full_name, Some(String::from("Alice B.")));
    assert!(w.access.flags.truncate && !w.access.flags.create_new);
}

#[test]
fn password_is_hashed_and_verified() {
    let hash = hash_password(Some("s3cret")).unwrap().unwrap();
    assert_ne!(hash, "s3cret");
    assert!(hash.starts_with("$6$"));
    assert!(printable_ascii(&hash));
    assert!(!printable_ascii("caf\u{e9}"));
    let s = FilePolicyStore::new("/var/store");
    let w = s.set_user_password(record(None), Some(hash.clone())).unwrap();
    assert_eq!(w.record.password_hash, Some(hash.clone()));
    let u = authenticate(Ok(w.record.clone()), "s3cret").unwrap();
    assert_eq!(u.login_name, "alice");
    assert_eq!(u.groups, vec![String::from("staff")]);
    assert!(matches!(authenticate(Ok(w.record), "wrong"), Err(StoreError::PasswordMismatch)));
}

#[test]
fn clearing_the_password_disables_login() {
    assert_eq!(hash_password(None), Ok(None));
    for pw in ["", "s3cret", "anything"] {
        assert!(matches!(authenticate(Ok(record(None)), pw), Err(StoreError::PasswordMismatch)));
    }
}

#[test]
fn malformed_hash_is_refused_without_panicking() {
    for bad in ["$6$\u{80}$", "$6$\u{1}$abc", "$6$s\u{e9}l$x"] {
        assert!(matches!(authenticate(Ok(record(Some(bad))), "pw"), Err(StoreError::PasswordMismatch)));
    }
}

#[test]
fn unknown_user_looks_like_wrong_password() {
    assert!(matches!(authenticate(Err(StoreError::NotFound), "pw"), Err(StoreError::PasswordMismatch)));
}

#[test]
fn groups_are_written_whole() {
    let s = FilePolicyStore::new("/var/store");
    let g = Group { name: String::from("staff"), description: None, policy_statements: Vec::new() };
    let w = s.store_group(true, g).unwrap();
    assert_eq!(w.access.path, "/var/store/groups/staff.json");
    assert_eq!(w.record.name, "staff");
    assert!(matches!(s.store_group(false, Group { name: String::from("a/b"), description: None, policy_statements: Vec::new() }), Err(StoreError::InvalidName)));
}

#[test]
fn sessions_expire_after_an_hour() {
    let c = SessionCookie::issue(String::from("alice"), 1000).unwrap();
    assert_eq!(c.expires, 4600);
    assert!(c.is_live(4599));
    assert!(!c.is_live(4600));
    assert!(SessionCookie::issue(String::from("alice"), u64::MAX - 10).is_none());
}

#[test]
fn hooks_succeed_only_on_status_zero() {
    assert!(exit_outcome(Some(0)).is_ok());
    assert!(matches!(exit_outcome(Some(1)), Err(HookError::BadExitStatus)));
    assert!(matches!(exit_outcome(None), Err(HookError::BadExitStatus)));
}
