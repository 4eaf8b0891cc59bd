use gitas::commands::git::{
    exit_code, git_arguments, join_spaced, run, run_announcement, usage_message, GitFlow,
    GitOutcome, GitStage, Stop,
};
use gitas::effects::{Answer, Prompt, Request};
use gitas::models::{Account, Config};
use gitas::style::{paint_frame, paint_line, span, Hue, Style};
use gitas::utils::{
    git_config_get, git_config_set, git_config_unset, git_credential_approve,
    git_credential_reject, git_output_value, git_toplevel, goes_by, labels, no_accounts_message,
    no_match_message, resolve_account, value_of_output, ReadScope, Resolution, Scope,
};

fn plain_output() {
    colored::control::set_override(false);
}

fn account(name: &str, email: &str, alias: Option<&str>) -> Account {
    Account {
        username: name.to_string(),
        email: email.to_string(),
        alias: alias.map(|a| a.to_string()),
        host: None,
    }
}

fn strings(items: &[&str]) -> Vec<String> {
    items.iter().map(|s| s.to_string()).collect()
}

#[test]
fn config_commands_name_their_scope() {
    assert_eq!(
        git_config_set("user.name", "bob", Scope::Local),
        strings(&["config", "--local", "user.name", "bob"])
    );
    assert_eq!(
        git_config_set("user.name", "bob", Scope::Global),
        strings(&["config", "--global", "user.name", "bob"])
    );
    assert_eq!(
        git_config_unset("gitas.alias", Scope::Global),
        strings(&["config", "--global", "--unset", "gitas.alias"])
    );
    assert_eq!(
        git_config_unset("gitas.alias", Scope::Local),
        strings(&["config", "--local", "--unset", "gitas.alias"])
    );
    assert_eq!(
        git_config_get("user.email", ReadScope::Local),
        strings(&["config", "--local", "--get", "user.email"])
    );
    assert_eq!(
        git_config_get("user.email", ReadScope::Global),
        strings(&["config", "--global", "--get", "user.email"])
    );
    assert_eq!(
        git_config_get("credential.helper", ReadScope::Effective),
        strings(&["config", "--get", "credential.helper"])
    );
    assert_eq!(git_toplevel(), strings(&["rev-parse", "--show-toplevel"]));
    assert_eq!(Scope::Local.flag(), "--local");
    assert_eq!(Scope::Global.flag(), "--global");
}

#[test]
fn credential_input_ends_in_an_empty_line() {
    assert_eq!(
        git_credential_approve("bob", "tok", "github.com", None),
        "protocol=https\nhost=github.com\nusername=bob\npassword=tok\n\n"
    );
    assert_eq!(
        git_credential_approve("bob", "tok", "github.com", Some("https://h/r.git")),
        "url=https://h/r.git\nusername=bob\npassword=tok\n\n"
    );
    assert_eq!(git_credential_reject("git.example.com"), "protocol=https\nhost=git.example.com\n\n");
}

#[test]
fn git_output_is_trimmed_and_empty_means_none() {
    assert_eq!(git_output_value(true, "  bob \n"), Some("bob".to_string()));
    assert_eq!(git_output_value(true, "/home/bob/repo\n"), Some("/home/bob/repo".to_string()));
    assert_eq!(git_output_value(true, " \n\t"), None);
    assert_eq!(git_output_value(true, ""), None);
    assert_eq!(git_output_value(false, "bob\n"), None);
    assert_eq!(value_of_output(true, "x".to_string()), Some("x".to_string()));
    assert_eq!(value_of_output(true, String::new()), None);
    assert_eq!(value_of_output(false, "x".to_string()), None);
}

#[test]
fn the_host_defaults_to_github() {
    let mut a = account("bob", "b@x", None);
    assert_eq!(a.host_or_default(), "github.com");
    a.host = Some("git.example.com".to_string());
    assert_eq!(a.host_or_default(), "git.example.com");
}

#[test]
fn identity_goes_in_front_of_the_arguments() {
    let bob = account("bob", "b@x.com", None);
    assert_eq!(
        git_arguments(&bob, None, &strings(&["push", "-f"])),
        strings(&["-c", "user.name=bob", "-c", "user.email=b@x.com", "push", "-f"])
    );
    assert_eq!(
        git_arguments(&bob, Some(""), &strings(&["status"])),
        strings(&["-c", "user.name=bob", "-c", "user.email=b@x.com", "status"])
    );
}

#[test]
fn a_token_brings_an_inline_credential_helper() {
    let bob = account("bob", "b@x.com", None);
    assert_eq!(
        git_arguments(&bob, Some("tok"), &strings(&["pull"])),
        strings(&[
            "-c",
            "user.name=bob",
            "-c",
            "user.email=b@x.com",
            "-c",
            "credential.helper=",
            "-c",
            "credential.helper=!f() { echo \"username=bob\"; echo \"password=tok\"; }; f",
            "pull",
        ])
    );
}

#[test]
fn arguments_are_joined_by_single_spaces() {
    assert_eq!(join_spaced(&strings(&[])), "");
    assert_eq!(join_spaced(&strings(&["log"])), "log");
    assert_eq!(join_spaced(&strings(&["log", "--oneline", "-3"])), "log --oneline -3");
    assert_eq!(join_spaced(&strings(&["", ""])), " ");
}

#[test]
fn the_run_is_announced() {
    plain_output();
    let bob = account("bob", "b@x.com", None);
    let line = run_announcement(&bob, &strings(&["push", "-f"]));
    assert_eq!(paint_line(&line), "  \u{21b7} git push -f as bob <b@x.com>");
    assert_eq!(line[5], span("as bob <b@x.com>", Style::plain().dimmed()));
}

#[test]
fn a_missing_command_is_complained_about() {
    plain_output();
    let line = usage_message();
    assert_eq!(
        paint_line(&line),
        "\n  \u{2717} No git command provided. Usage: gitas git <args...>\n"
    );
    assert_eq!(line[1], span("\u{2717}", Style::hue(Hue::Red).bold()));
}

#[test]
fn the_exit_code_is_gits_own() {
    assert_eq!(exit_code(true, Some(0)), 0);
    assert_eq!(exit_code(true, None), 0);
    assert_eq!(exit_code(false, Some(128)), 128);
    assert_eq!(exit_code(false, Some(-1)), -1);
    assert_eq!(exit_code(false, None), 1);
}

#[test]
fn accounts_go_by_username_alias_or_both() {
    let work = account("bob", "b@x", Some("work"));
    assert!(goes_by(&work, &"bob".to_string()));
    assert!(goes_by(&work, &"work".to_string()));
    assert!(goes_by(&work, &"bob:work".to_string()));
    assert!(!goes_by(&work, &"bob:".to_string()));
    assert!(!goes_by(&work, &"b@x".to_string()));
    let plain = account("bob", "b@x", None);
    assert!(goes_by(&plain, &"bob".to_string()));
    assert!(!goes_by(&plain, &"work".to_string()));
}

#[test]
fn resolving_takes_the_first_account_that_goes_by_the_name() {
    let config = Config {
        accounts: vec![
            account("alice", "a@x", None),
            account("bob", "b@x", Some("work")),
            account("work", "w@x", None),
        ],
    };
    assert_eq!(resolve_account(&config, Some(&"work".to_string())), Resolution::Found(1));
    assert_eq!(resolve_account(&config, Some(&"alice".to_string())), Resolution::Found(0));
    assert_eq!(resolve_account(&config, Some(&"bob:work".to_string())), Resolution::Found(1));
    assert_eq!(resolve_account(&config, Some(&"carol".to_string())), Resolution::NoMatch);
    assert_eq!(resolve_account(&config, None), Resolution::Ask);
    assert_eq!(resolve_account(&Config::default(), None), Resolution::NoAccounts);
    assert_eq!(
        resolve_account(&Config::default(), Some(&"bob".to_string())),
        Resolution::NoAccounts
    );
}

#[test]
fn the_labels_follow_the_list() {
    let config = Config {
        accounts: vec![account("alice", "a@x", None), account("bob", "b@x", Some("work"))],
    };
    assert_eq!(labels(&config), strings(&["alice <a@x>", "bob:work <b@x>"]));
    assert_eq!(labels(&Config::default()), strings(&[]));
}

#[test]
fn failures_to_resolve_are_explained() {
    plain_output();
    assert_eq!(
        paint_frame(&no_accounts_message()),
        vec!["\n  No accounts configured.\n", "  Run gitas add to add one.\n"]
    );
    assert_eq!(paint_line(&no_match_message("carol")), "\n  \u{2717} No account matching 'carol'.\n");
    assert_eq!(no_match_message("carol")[3], span("carol", Style::hue(Hue::Yellow)));
}

fn two_accounts() -> Config {
    Config { accounts: vec![account("alice", "a@x", None), account("bob", "b@x", Some("work"))] }
}

fn stopped(flow: &GitFlow, id: Option<&String>, args: &Vec<String>) -> (Vec<String>, bool, i32) {
    match flow.outcome(id, args) {
        GitOutcome::Stop { lines, error, code } => (paint_frame(&lines), error, code),
        other => panic!("unexpected outcome {:?}", other),
    }
}

#[test]
fn a_run_without_a_command_stops_with_the_usage() {
    plain_output();
    let config = two_accounts();
    let flow = run(&config, Some(&"bob".to_string()), &Vec::new());
    assert_eq!(flow.stage, GitStage::Stopped);
    assert_eq!(flow.stop, Some(Stop::NoCommand));
    assert_eq!(flow.request(&config), None);
    assert_eq!(
        stopped(&flow, None, &Vec::new()),
        (
            vec!["\n  \u{2717} No git command provided. Usage: gitas git <args...>\n".to_string()],
            true,
            1
        )
    );
}

#[test]
fn a_run_without_accounts_stops() {
    plain_output();
    let config = Config::default();
    let args = strings(&["status"]);
    let flow = run(&config, None, &args);
    assert_eq!(flow.stop, Some(Stop::NoAccounts));
    assert_eq!(
        stopped(&flow, None, &args),
        (
            vec![
                "\n  No accounts configured.\n".to_string(),
                "  Run gitas add to add one.\n".to_string()
            ],
            false,
            1
        )
    );
}

#[test]
fn a_run_as_an_unknown_account_stops() {
    plain_output();
    let config = two_accounts();
    let args = strings(&["status"]);
    let id = "carol".to_string();
    let flow = run(&config, Some(&id), &args);
    assert_eq!(flow.stop, Some(Stop::NoMatch));
    assert_eq!(
        stopped(&flow, Some(&id), &args),
        (vec!["\n  \u{2717} No account matching 'carol'.\n".to_string()], true, 1)
    );
}

#[test]
fn a_run_as_a_named_account_needs_only_the_token() {
    plain_output();
    let config = two_accounts();
    let args = strings(&["push", "-f"]);
    let id = "work".to_string();
    let mut flow = run(&config, Some(&id), &args);
    assert_eq!(flow.stage, GitStage::Token);
    assert_eq!(flow.request(&config), Some(Request::Token { key: "bob::work".to_string() }));
    assert_eq!(flow.outcome(Some(&id), &args), GitOutcome::Pending);
    flow.answer(&config, Answer::Text(Some("tok".to_string())));
    assert_eq!(flow.request(&config), None);
    match flow.outcome(Some(&id), &args) {
        GitOutcome::Go { lines, args } => {
            assert_eq!(paint_frame(&lines), vec!["  \u{21b7} git push -f as bob <b@x>", ""]);
            assert_eq!(
                args,
                strings(&[
                    "-c",
                    "user.name=bob",
                    "-c",
                    "user.email=b@x",
                    "-c",
                    "credential.helper=",
                    "-c",
                    "credential.helper=!f() { echo \"username=bob\"; echo \"password=tok\"; }; f",
                    "push",
                    "-f",
                ])
            );
        }
        other => panic!("unexpected outcome {:?}", other),
    }
}

#[test]
fn a_run_without_a_token_warns() {
    plain_output();
    let config = two_accounts();
    let args = strings(&["status"]);
    let id = "alice".to_string();
    for token in [None, Some(String::new())] {
        let mut flow = run(&config, Some(&id), &args);
        flow.answer(&config, Answer::Text(token));
        match flow.outcome(Some(&id), &args) {
            GitOutcome::Go { lines, args } => {
                assert_eq!(
                    paint_frame(&lines),
                    vec![
                        "  \u{26a0} No token found for alice. Git may prompt for authentication.",
                        "  \u{21b7} git status as alice <a@x>",
                        "",
                    ]
                );
                assert_eq!(
                    args,
                    strings(&["-c", "user.name=alice", "-c", "user.email=a@x", "status"])
                );
            }
            other => panic!("unexpected outcome {:?}", other),
        }
    }
}

#[test]
fn a_run_without_a_name_lets_the_user_pick() {
    plain_output();
    let config = two_accounts();
    let args = strings(&["status"]);
    let mut flow = run(&config, None, &args);
    assert_eq!(flow.stage, GitStage::Pick);
    match flow.request(&config) {
        Some(Request::Ask(Prompt::Select { prompt, items, default })) => {
            assert_eq!(paint_line(&prompt), "  Run as");
            assert_eq!(paint_frame(&items), vec!["alice <a@x>", "bob:work <b@x>"]);
            assert_eq!(default, 0);
        }
        other => panic!("unexpected request {:?}", other),
    }
    flow.answer(&config, Answer::Index(Some(1)));
    assert_eq!(flow.stage, GitStage::Token);
    assert_eq!(flow.account, Some(account("bob", "b@x", Some("work"))));
}

#[test]
fn leaving_the_menu_of_accounts_is_no_failure() {
    let config = two_accounts();
    let args = strings(&["status"]);
    for way_out in [Answer::Index(None), Answer::Index(Some(2)), Answer::Done] {
        let mut flow = run(&config, None, &args);
        flow.answer(&config, way_out);
        assert_eq!(flow.stop, Some(Stop::Cancelled));
        assert_eq!(flow.request(&config), None);
        assert_eq!(stopped(&flow, None, &args), (Vec::new(), false, 0));
    }
}
