use guarded_files::authorizor::{DeniedError, RequestAuthorizor};
use guarded_files::policy::{evaluate, glob_matches, Effect, Group, PolicyStatement, User};

fn statement(effect: Effect, actions: &[&str], resources: &[&str]) -> PolicyStatement {
    PolicyStatement {
        effect,
        actions: actions.iter().map(|s| s.to_string()).collect(),
        resources: resources.iter().map(|s| s.to_string()).collect(),
    }
}

fn user_with(statements: Vec<PolicyStatement>) -> User {
    User {
        login_name: String::from("username"),
        full_name: None,
        groups: Vec::new(),
        policy_statements: statements,
    }
}

fn authorizor(statements: Vec<PolicyStatement>) -> RequestAuthorizor {
    RequestAuthorizor::new(user_with(statements), Vec::new())
}

#[test]
fn test_user_may_perform_empty_denies() {
    let a = authorizor(Vec::new());
    assert_eq!(false, a.is_allowed("some:action", "some:resource"));
}

#[test]
fn star_matches_empty_and_any_string() {
    assert!(glob_matches("*", ""));
    assert!(glob_matches("*", "anything at all"));
    assert!(glob_matches("*", "docs/report.pdf"));
}

#[test]
fn inner_star_matches_middle() {
    assert!(glob_matches("a*c", "abc"));
    assert!(glob_matches("a*c", "ac"));
    assert!(!glob_matches("a*c", "abd"));
}

#[test]
fn glob_is_case_sensitive_and_exact() {
    assert!(glob_matches("abc", "abc"));
    assert!(!glob_matches("abc", "ABC"));
    assert!(!glob_matches("abc", "abcd"));
    assert!(!glob_matches("bc", "abc"));
}

#[test]
fn literal_with_trailing_star_matches_by_prefix() {
    assert!(glob_matches("docs/*", "docs/"));
    assert!(glob_matches("docs/*", "docs/a/b"));
    assert!(!glob_matches("docs/*", "doc"));
    assert!(!glob_matches("docs/*", "xdocs/a"));
}

#[test]
fn question_mark_matches_one_character() {
    assert!(glob_matches("a?c", "abc"));
    assert!(!glob_matches("a?c", "ac"));
    assert!(!glob_matches("a?c", "abbc"));
}

#[test]
fn effect_on_needs_action_and_resource() {
    let s = statement(Effect::Allow, &["file:*"], &["docs/*"]);
    assert_eq!(s.effect_on("file:Read", "docs/a"), Some(Effect::Allow));
    assert_eq!(s.effect_on("user:Read", "docs/a"), None);
    assert_eq!(s.effect_on("file:Read", "other/a"), None);
}

#[test]
fn empty_pattern_lists_never_match() {
    let s = statement(Effect::Allow, &[], &["*"]);
    assert_eq!(s.effect_on("file:Read", "x"), None);
    let s = statement(Effect::Allow, &["*"], &[]);
    assert_eq!(s.effect_on("file:Read", "x"), None);
}

#[test]
fn deny_wins_in_any_order() {
    let allow = statement(Effect::Allow, &["*"], &["*"]);
    let deny = statement(Effect::Deny, &["file:Read"], &["docs/*"]);
    let orders = vec![
        vec![allow.clone(), deny.clone(), allow.clone()],
        vec![deny.clone(), allow.clone(), allow.clone()],
        vec![allow.clone(), allow.clone(), deny.clone()],
    ];
    for stmts in orders {
        assert_eq!(evaluate(&stmts, "file:Read", "docs/x"), Some(Effect::Deny));
        assert_eq!(evaluate(&stmts, "file:Write", "docs/x"), Some(Effect::Allow));
    }
}

#[test]
fn no_applicable_statement_is_no_opinion() {
    let stmts = vec![statement(Effect::Allow, &["file:Read"], &["docs/*"])];
    assert_eq!(evaluate(&stmts, "file:Write", "docs/x"), None);
    assert_eq!(evaluate(&Vec::new(), "file:Read", "docs/x"), None);
    let a = authorizor(stmts);
    assert!(!a.is_allowed("file:Write", "docs/x"));
}

#[test]
fn allow_on_prefix_pattern() {
    let a = authorizor(vec![statement(Effect::Allow, &["file:*"], &["docs/*"])]);
    assert!(a.is_allowed("file:Read", "docs/report.pdf"));
    assert!(!a.is_allowed("file:Read", "secrets/key"));
}

#[test]
fn deny_before_broader_allow() {
    let a = authorizor(vec![
        statement(Effect::Deny, &["*"], &["docs/secret.txt"]),
        statement(Effect::Allow, &["*"], &["docs/*"]),
    ]);
    assert!(!a.is_allowed("file:Read", "docs/secret.txt"));
    assert!(a.is_allowed("file:Read", "docs/other.txt"));
}

#[test]
fn group_statements_count_and_missing_groups_are_skipped() {
    let mut user = user_with(vec![statement(Effect::Deny, &["file:Write"], &["*"])]);
    user.groups = vec![String::from("readers"), String::from("gone")];
    let readers = Group {
        name: String::from("readers"),
        description: None,
        policy_statements: vec![statement(Effect::Allow, &["file:*"], &["*"])],
    };
    let a = RequestAuthorizor::new(user, vec![Some(readers), None]);
    assert!(a.is_allowed("file:Read", "any/thing"));
    assert!(!a.is_allowed("file:Write", "any/thing"));
}

#[test]
fn require_chain_keeps_first_denial() {
    let a = authorizor(vec![statement(Effect::Allow, &["file:Read"], &["*"])]);
    let r = a.require("file:Read", "a").require("file:Write", "a").require("file:Read", "b");
    assert_eq!(r.ok(), Err(DeniedError::NotAllowed));

    let a = authorizor(vec![statement(Effect::Allow, &["file:Read"], &["*"])]);
    let r = a.require("file:Read", "a").require("file:Read", "b");
    assert_eq!(r.ok(), Ok(()));
}

#[test]
fn require_on_string_resource() {
    let a = authorizor(vec![statement(Effect::Allow, &["CreateUser"], &["user:*"])]);
    let id = format!("user:{}", "alice");
    assert_eq!(a.require("CreateUser", &id).ok(), Ok(()));
    let a = authorizor(Vec::new());
    assert_eq!(a.require("CreateUser", &id).ok(), Err(DeniedError::NotAllowed));
}
