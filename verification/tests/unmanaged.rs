use gitas::effects::{Answer, Request};
use gitas::identity::{knows, unmanaged_accounts, GitIdentity, Unmanaged};
use gitas::models::{Account, Config};
use gitas::utils::{ReadScope, Scope};

fn account(name: &str, email: &str, alias: Option<&str>) -> Account {
    Account {
        username: name.to_string(),
        email: email.to_string(),
        alias: alias.map(|a| a.to_string()),
        host: None,
    }
}

fn identity(global: Option<(&str, &str)>, local: Option<(&str, &str)>) -> GitIdentity {
    GitIdentity {
        global_name: global.map(|g| g.0.to_string()),
        global_email: global.map(|g| g.1.to_string()),
        global_alias: None,
        local_name: local.map(|l| l.0.to_string()),
        local_email: local.map(|l| l.1.to_string()),
        local_alias: None,
    }
}

fn unmanaged(name: &str, email: &str, scope: Scope) -> Unmanaged {
    Unmanaged { name: name.to_string(), email: email.to_string(), scope }
}

#[test]
fn identical_global_and_local_are_listed_once_as_global() {
    let config = Config { accounts: vec![] };
    let git = identity(Some(("A", "a@x")), Some(("A", "a@x")));
    assert_eq!(unmanaged_accounts(&config, &git), vec![unmanaged("A", "a@x", Scope::Global)]);
    assert_eq!(Scope::Global.name(), "global");
}

#[test]
fn local_alone_is_listed_when_global_is_managed() {
    let config = Config { accounts: vec![account("A", "a@x", None)] };
    let git = identity(Some(("A", "a@x")), Some(("B", "b@y")));
    assert_eq!(unmanaged_accounts(&config, &git), vec![unmanaged("B", "b@y", Scope::Local)]);
    assert_eq!(Scope::Local.name(), "local");
}

#[test]
fn different_global_and_local_are_both_listed_global_first() {
    let config = Config { accounts: vec![account("C", "c@z", None)] };
    let git = identity(Some(("A", "a@x")), Some(("B", "b@y")));
    assert_eq!(
        unmanaged_accounts(&config, &git),
        vec![unmanaged("A", "a@x", Scope::Global), unmanaged("B", "b@y", Scope::Local)]
    );
}

#[test]
fn managed_identities_are_not_listed() {
    let config = Config { accounts: vec![account("A", "a@x", None), account("B", "b@y", None)] };
    let git = identity(Some(("A", "a@x")), Some(("B", "b@y")));
    assert_eq!(unmanaged_accounts(&config, &git), Vec::new());
}

#[test]
fn identical_managed_global_and_local_list_nothing() {
    let config = Config { accounts: vec![account("A", "a@x", None)] };
    let git = identity(Some(("A", "a@x")), Some(("A", "a@x")));
    assert_eq!(unmanaged_accounts(&config, &git), Vec::new());
}

#[test]
fn an_identity_needs_both_name_and_email() {
    let config = Config { accounts: vec![] };
    let git = GitIdentity {
        global_name: Some("A".to_string()),
        local_email: Some("b@y".to_string()),
        ..GitIdentity::unset()
    };
    assert_eq!(unmanaged_accounts(&config, &git), Vec::new());
    assert!(git.has_local());
}

#[test]
fn same_name_with_another_email_is_unmanaged() {
    let config = Config { accounts: vec![account("A", "a@x", None)] };
    let git = identity(Some(("A", "other@x")), None);
    assert_eq!(
        unmanaged_accounts(&config, &git),
        vec![unmanaged("A", "other@x", Scope::Global)]
    );
}

#[test]
fn the_alias_plays_no_part_in_unmanaged_detection() {
    // Adding keys on (username, alias); this keys on (name, email).
    let config = Config { accounts: vec![account("A", "a@x", Some("work"))] };
    let git = identity(Some(("A", "a@x")), None);
    assert_eq!(unmanaged_accounts(&config, &git), Vec::new());
}

#[test]
fn knows_looks_at_name_and_email_together() {
    let config = Config { accounts: vec![account("A", "a@x", None), account("B", "b@y", None)] };
    assert!(knows(&config, &"B".to_string(), &"b@y".to_string()));
    assert!(!knows(&config, &"A".to_string(), &"b@y".to_string()));
    assert!(!knows(&config, &"Z".to_string(), &"a@x".to_string()));
}

#[test]
fn identity_is_asked_for_in_a_fixed_order() {
    let query =
        |key: &str, scope: ReadScope| Request::GitConfig { key: key.to_string(), scope };
    assert_eq!(
        GitIdentity::queries(),
        vec![
            query("user.name", ReadScope::Global),
            query("user.email", ReadScope::Global),
            query("gitas.alias", ReadScope::Global),
            query("user.name", ReadScope::Local),
            query("user.email", ReadScope::Local),
            query("gitas.alias", ReadScope::Local),
        ]
    );
}

#[test]
fn identity_is_made_of_the_answers_in_that_order() {
    let answer = |text: Option<&str>| Answer::Text(text.map(|t| t.to_string()));
    let git = GitIdentity::fetch(&vec![
        answer(Some("G")),
        answer(Some("g@x")),
        answer(None),
        answer(Some("L")),
        answer(None),
        answer(Some("work")),
    ]);
    assert_eq!(
        git,
        GitIdentity {
            global_name: Some("G".to_string()),
            global_email: Some("g@x".to_string()),
            global_alias: None,
            local_name: Some("L".to_string()),
            local_email: None,
            local_alias: Some("work".to_string()),
        }
    );
}

#[test]
fn missing_answers_count_as_not_configured() {
    assert_eq!(GitIdentity::fetch(&Vec::new()), GitIdentity::unset());
    let git = GitIdentity::fetch(&vec![
        Answer::Text(Some("G".to_string())),
        Answer::Flag(Some(true)),
        Answer::Index(Some(3)),
    ]);
    assert_eq!(git, GitIdentity { global_name: Some("G".to_string()), ..GitIdentity::unset() });
}

#[test]
fn has_local_needs_a_name_or_an_email() {
    assert!(!GitIdentity::unset().has_local());
    assert!(identity(None, Some(("l", "l@x"))).has_local());
    assert!(!identity(Some(("g", "g@x")), None).has_local());
    let alias_only = GitIdentity { local_alias: Some("w".to_string()), ..GitIdentity::unset() };
    assert!(!alias_only.has_local());
}

#[test]
fn an_account_is_current_only_with_matching_alias() {
    let plain = account("A", "a@x", None);
    let work = account("A", "a@x", Some("work"));
    let git = GitIdentity {
        global_name: Some("A".to_string()),
        global_email: Some("a@x".to_string()),
        global_alias: Some("work".to_string()),
        local_name: Some("A".to_string()),
        local_email: Some("a@x".to_string()),
        local_alias: None,
    };
    assert!(git.is_global(&work));
    assert!(!git.is_global(&plain));
    assert!(git.is_local(&plain));
    assert!(!git.is_local(&work));
}
