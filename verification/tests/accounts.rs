use gitas::commands::add::{
    add_header, method_choice, method_prompt, run, upsert_account_raw, AddFlow, AddMethod,
    AddStage,
};
use gitas::effects::{Answer, Effect, Login, Prompt, Request};
use gitas::models::{make_key, Account, Config};
use gitas::style::{paint_frame, paint_line, plain, span, Hue, Style};
use gitas::utils::format_account_label;

fn plain_output() {
    colored::control::set_override(false);
}

fn account(name: &str, email: &str, alias: Option<&str>, host: Option<&str>) -> Account {
    Account {
        username: name.to_string(),
        email: email.to_string(),
        alias: alias.map(|a| a.to_string()),
        host: host.map(|h| h.to_string()),
    }
}

fn text(s: &str) -> Answer {
    Answer::Text(Some(s.to_string()))
}

/// Runs a manual add with the given answers and writes the account.
fn add_manually(config: &mut Config, answers: Vec<Answer>) -> (AddStage, Vec<Effect>) {
    let mut flow = AddFlow::manual();
    for answer in answers {
        assert!(flow.request().is_some());
        flow.answer(config, answer);
    }
    let stage = flow.stage;
    assert_eq!(flow.request().is_none(), stage == AddStage::Ready || stage == AddStage::Aborted);
    match flow.finish(config) {
        Some(outcome) => {
            assert_eq!(stage, AddStage::Ready);
            (stage, outcome.effects)
        }
        None => {
            assert_ne!(stage, AddStage::Ready);
            (stage, Vec::new())
        }
    }
}

#[test]
fn key_is_the_username_or_username_and_alias() {
    assert_eq!(make_key("bob", None), "bob");
    assert_eq!(make_key("bob", Some("work")), "bob::work");
    assert_eq!(make_key("", Some("")), "::");
    assert_eq!(account("bob", "b@x", Some("w"), None).key(), "bob::w");
    assert_eq!(account("bob", "b@x", None, None).key(), "bob");
}

#[test]
fn label_shows_alias_behind_a_colon() {
    assert_eq!(format_account_label(&account("bob", "b@x.com", None, None)), "bob <b@x.com>");
    assert_eq!(
        format_account_label(&account("bob", "b@x.com", Some("work"), None)),
        "bob:work <b@x.com>"
    );
}

#[test]
fn position_finds_the_first_entry_with_the_key() {
    let config = Config {
        accounts: vec![
            account("bob", "1@x", Some("a"), None),
            account("bob", "2@x", None, None),
            account("bob", "3@x", None, None),
        ],
    };
    assert_eq!(config.position(&"bob".to_string(), &None), Some(1));
    assert_eq!(config.position(&"bob".to_string(), &Some("a".to_string())), Some(0));
    assert_eq!(config.position(&"bob".to_string(), &Some("b".to_string())), None);
    assert_eq!(config.position(&"rob".to_string(), &None), None);
}

#[test]
fn upsert_writes_in_place_or_appends() {
    let mut config = Config { accounts: vec![account("a", "a@x", None, None)] };
    config.upsert(account("b", "b@x", None, None), None);
    assert_eq!(config.accounts.len(), 2);
    assert_eq!(config.accounts[1], account("b", "b@x", None, None));
    config.upsert(account("c", "c@x", None, None), Some(0));
    assert_eq!(
        config.accounts,
        vec![account("c", "c@x", None, None), account("b", "b@x", None, None)]
    );
}

#[test]
fn remove_takes_one_entry_out() {
    let mut config = Config {
        accounts: vec![
            account("a", "a@x", None, None),
            account("b", "b@x", None, None),
            account("c", "c@x", None, None),
        ],
    };
    let gone = config.remove(1);
    assert_eq!(gone, account("b", "b@x", None, None));
    assert_eq!(
        config.accounts,
        vec![account("a", "a@x", None, None), account("c", "c@x", None, None)]
    );
}

#[test]
fn default_config_is_empty() {
    assert!(Config::default().accounts.is_empty());
}

#[test]
fn upsert_account_raw_reports_what_it_did() {
    plain_output();
    let mut config = Config::default();
    let message = upsert_account_raw(&mut config, account("bob", "b@x", None, None), None);
    assert_eq!(paint_line(&message), "\n  \u{2713} Account 'bob' added successfully.\n");
    let message = upsert_account_raw(&mut config, account("bob", "c@x", None, None), Some(0));
    assert_eq!(paint_line(&message), "\n  \u{2713} Account 'bob' updated successfully.\n");
    assert_eq!(config.accounts, vec![account("bob", "c@x", None, None)]);
    assert_eq!(message[1], span("\u{2713}", Style::hue(Hue::Green).bold()));
    assert_eq!(message[3], span("bob", Style::hue(Hue::Cyan)));
}

#[test]
fn adding_bob_twice_with_consent_leaves_one_bob_with_the_latest_values() {
    let mut config = Config::default();
    let (stage, effects) = add_manually(
        &mut config,
        vec![text("bob"), text("old@x.com"), text(""), text("t1"), text("github.com")],
    );
    assert_eq!(stage, AddStage::Ready);
    assert_eq!(
        effects,
        vec![
            Effect::StoreToken { key: "bob".to_string(), secret: "t1".to_string() },
            Effect::SaveConfig
        ]
    );
    assert_eq!(config.accounts, vec![account("bob", "old@x.com", None, None)]);

    let (stage, effects) = add_manually(
        &mut config,
        vec![
            text("bob"),
            text("new@x.com"),
            text(""),
            Answer::Flag(Some(true)),
            text(""),
            text("git.example.com"),
        ],
    );
    assert_eq!(stage, AddStage::Ready);
    assert_eq!(
        effects,
        vec![Effect::DeleteToken { key: "bob".to_string() }, Effect::SaveConfig]
    );
    assert_eq!(
        config.accounts,
        vec![account("bob", "new@x.com", None, Some("git.example.com"))]
    );
}

#[test]
fn declining_to_overwrite_leaves_the_entry_and_appends_nothing() {
    plain_output();
    let before = account("bob", "old@x.com", None, None);
    let mut config = Config { accounts: vec![account("bob", "old@x.com", None, None)] };
    for refusal in [Answer::Flag(Some(false)), Answer::Flag(None)] {
        let mut flow = AddFlow::manual();
        flow.answer(&config, text("bob"));
        flow.answer(&config, text("new@x.com"));
        assert_eq!(flow.answer(&config, text("")), None);
        assert_eq!(flow.stage, AddStage::Overwrite);
        assert_eq!(flow.existing, Some(0));
        let notice = flow.answer(&config, refusal).expect("a notice");
        assert_eq!(paint_line(&notice), "\n  Cancelled.\n");
        assert_eq!(flow.stage, AddStage::Aborted);
        assert!(flow.request().is_none());
    }
    let (stage, effects) = add_manually(
        &mut config,
        vec![text("bob"), text("new@x.com"), text(""), Answer::Flag(Some(false))],
    );
    assert_eq!(stage, AddStage::Aborted);
    assert!(effects.is_empty());
    assert_eq!(config.accounts, vec![before]);
}

#[test]
fn the_alias_tells_two_bobs_apart() {
    let mut config = Config { accounts: vec![account("bob", "b@x.com", None, None)] };
    let (stage, effects) = add_manually(
        &mut config,
        vec![text("bob"), text("b@work.com"), text("work"), text("tok"), Answer::Text(None)],
    );
    assert_eq!(stage, AddStage::Ready);
    assert_eq!(
        effects,
        vec![
            Effect::StoreToken { key: "bob::work".to_string(), secret: "tok".to_string() },
            Effect::SaveConfig
        ]
    );
    assert_eq!(
        config.accounts,
        vec![
            account("bob", "b@x.com", None, None),
            account("bob", "b@work.com", Some("work"), None)
        ]
    );
}

#[test]
fn manual_add_asks_its_questions_in_order() {
    let config = Config::default();
    let mut flow = AddFlow::manual();
    let input = |prompt: &str, default: &str| {
        Some(Request::Ask(Prompt::Input {
            prompt: prompt.to_string(),
            default: default.to_string(),
        }))
    };
    assert_eq!(flow.request(), input("Username", ""));
    flow.answer(&config, text("bob"));
    assert_eq!(flow.request(), input("Email", ""));
    flow.answer(&config, text("b@x.com"));
    assert_eq!(flow.request(), input("Alias (optional)", ""));
    flow.answer(&config, text("w"));
    assert_eq!(
        flow.request(),
        Some(Request::Ask(Prompt::Password { prompt: "Token/PAT (optional)".to_string() }))
    );
    flow.answer(&config, text("tok"));
    assert_eq!(flow.request(), input("Host", "github.com"));
    flow.answer(&config, text("github.com"));
    assert_eq!(flow.request(), None);
    assert_eq!(flow.stage, AddStage::Ready);
    assert_eq!(flow.host, None);
}

#[test]
fn manual_add_needs_username_and_email() {
    let config = Config::default();
    for answer in [text(""), Answer::Text(None), Answer::Flag(Some(true))] {
        let mut flow = AddFlow::manual();
        flow.answer(&config, answer);
        assert_eq!(flow.stage, AddStage::Aborted);
    }
    for answer in [text(""), Answer::Text(None)] {
        let mut flow = AddFlow::manual();
        flow.answer(&config, text("bob"));
        flow.answer(&config, answer);
        assert_eq!(flow.stage, AddStage::Aborted);
    }
}

#[test]
fn an_aborted_flow_stays_aborted() {
    let config = Config::default();
    let mut flow = AddFlow::manual();
    flow.answer(&config, Answer::Text(None));
    flow.answer(&config, text("bob"));
    assert_eq!(flow.stage, AddStage::Aborted);
    assert_eq!(flow.username, "");
}

#[test]
fn the_default_host_is_not_stored() {
    for (given, stored) in [
        (text("github.com"), None),
        (text(""), None),
        (Answer::Text(None), None),
        (text("git.example.com"), Some("git.example.com")),
    ] {
        let mut config = Config::default();
        add_manually(&mut config, vec![text("bob"), text("b@x"), text(""), text(""), given]);
        assert_eq!(config.accounts[0].host.as_deref(), stored);
    }
}

#[test]
fn overwrite_question_names_the_account() {
    plain_output();
    let config = Config { accounts: vec![account("bob", "b@x", Some("w"), None)] };
    let mut flow = AddFlow::manual();
    flow.answer(&config, text("bob"));
    flow.answer(&config, text("b@x"));
    flow.answer(&config, text("w"));
    match flow.request() {
        Some(Request::Ask(Prompt::Confirm { prompt, default })) => {
            assert!(!default);
            assert_eq!(
                paint_line(&prompt),
                "Account 'bob' (alias: w) already exists. Overwrite?"
            );
            assert_eq!(prompt[1], span("bob", Style::hue(Hue::Yellow)));
        }
        other => panic!("unexpected prompt {:?}", other),
    }

    let config = Config { accounts: vec![account("bob", "b@x", None, None)] };
    let mut flow = AddFlow::manual();
    flow.answer(&config, text("bob"));
    flow.answer(&config, text("b@x"));
    flow.answer(&config, Answer::Text(None));
    match flow.request() {
        Some(Request::Ask(Prompt::Confirm { prompt, .. })) => assert_eq!(
            paint_line(&prompt),
            "Account 'bob' (alias: none) already exists. Overwrite?"
        ),
        other => panic!("unexpected prompt {:?}", other),
    }
}

#[test]
fn a_login_only_asks_for_the_alias() {
    let mut config = Config::default();
    let mut flow =
        AddFlow::github("octo".to_string(), "o@users.noreply.github.com".to_string(), "gho".to_string());
    assert_eq!(flow.method, AddMethod::Github);
    assert_eq!(flow.stage, AddStage::Alias);
    flow.answer(&config, text(""));
    assert_eq!(flow.stage, AddStage::Ready);
    let outcome = flow.finish(&mut config).expect("an outcome");
    assert_eq!(
        outcome.effects,
        vec![
            Effect::StoreToken { key: "octo".to_string(), secret: "gho".to_string() },
            Effect::SaveConfig
        ]
    );
    assert_eq!(
        config.accounts,
        vec![account("octo", "o@users.noreply.github.com", None, None)]
    );
}

#[test]
fn a_login_stores_even_an_empty_token() {
    let mut config = Config::default();
    let mut flow = AddFlow::github("octo".to_string(), "o@x".to_string(), String::new());
    flow.answer(&config, text("w"));
    let outcome = flow.finish(&mut config).expect("an outcome");
    assert_eq!(
        outcome.effects[0],
        Effect::StoreToken { key: "octo::w".to_string(), secret: String::new() }
    );
}

#[test]
fn a_login_asks_before_it_overwrites() {
    let mut config = Config { accounts: vec![account("octo", "old@x", None, Some("h"))] };
    let mut flow = AddFlow::github("octo".to_string(), "new@x".to_string(), "gho".to_string());
    flow.answer(&config, Answer::Text(None));
    assert_eq!(flow.stage, AddStage::Overwrite);
    flow.answer(&config, Answer::Flag(Some(true)));
    assert_eq!(flow.stage, AddStage::Ready);
    flow.finish(&mut config);
    assert_eq!(config.accounts, vec![account("octo", "new@x", None, None)]);
}

#[test]
fn an_unfinished_flow_writes_nothing() {
    let mut config = Config { accounts: vec![account("bob", "b@x", None, None)] };
    let mut flow = AddFlow::manual();
    flow.answer(&config, text("rob"));
    assert_eq!(flow.finish(&mut config), None);
    assert_eq!(config.accounts, vec![account("bob", "b@x", None, None)]);
}

#[test]
fn an_entry_that_has_gone_is_not_overwritten() {
    let mut config = Config { accounts: vec![account("bob", "b@x", None, None)] };
    let mut flow = AddFlow::github("bob".to_string(), "n@x".to_string(), "t".to_string());
    flow.answer(&config, text(""));
    flow.answer(&config, Answer::Flag(Some(true)));
    assert_eq!(flow.existing, Some(0));
    config.accounts.clear();
    assert_eq!(flow.finish(&mut config), None);
    assert!(config.accounts.is_empty());
}

#[test]
fn the_command_asks_for_the_method_first() {
    let config = Config::default();
    let mut flow = run();
    assert_eq!(flow.stage, AddStage::Method);
    assert_eq!(flow.request(), Some(Request::Ask(method_prompt())));
    flow.answer(&config, Answer::Index(Some(0)));
    assert_eq!(flow, AddFlow::manual());

    for way_out in [Answer::Index(None), Answer::Index(Some(2)), Answer::Text(None)] {
        let mut flow = run();
        assert_eq!(flow.answer(&config, way_out), None);
        assert_eq!(flow.stage, AddStage::Aborted);
        assert_eq!(flow.request(), None);
    }
}

#[test]
fn a_login_fills_in_what_github_knows() {
    plain_output();
    let config = Config::default();
    let mut flow = run();
    flow.answer(&config, Answer::Index(Some(1)));
    assert_eq!(flow.stage, AddStage::Login);
    assert_eq!(flow.request(), Some(Request::Login));
    let notice = flow
        .answer(
            &config,
            Answer::Login(Some(Login {
                username: "octo".to_string(),
                email: "o@x.com".to_string(),
                token: "gho".to_string(),
            })),
        )
        .expect("a notice");
    assert_eq!(paint_line(&notice), "  Authenticated as: octo <o@x.com>");
    assert_eq!(
        flow,
        AddFlow::github("octo".to_string(), "o@x.com".to_string(), "gho".to_string())
    );
}

#[test]
fn a_failed_login_ends_the_command() {
    let config = Config::default();
    for failure in [Answer::Login(None), Answer::Done] {
        let mut flow = run();
        flow.answer(&config, Answer::Index(Some(1)));
        assert_eq!(flow.answer(&config, failure), None);
        assert_eq!(flow.stage, AddStage::Aborted);
        assert_eq!(flow.request(), None);
    }
}

#[test]
fn add_begins_with_a_heading_and_the_method() {
    plain_output();
    let heading = paint_frame(&add_header());
    assert_eq!(
        heading,
        vec!["".to_string(), "  Add Git Account".to_string(), format!("  {}", "\u{2500}".repeat(48)), "".to_string()]
    );
    assert_eq!(
        method_prompt(),
        Prompt::Select {
            prompt: vec![plain("Authentication Method")],
            items: vec![vec![plain("Manual Input")], vec![plain("GitHub Browser Login")]],
            default: 0,
        }
    );
    assert_eq!(method_choice(Some(0)), Some(AddMethod::Manual));
    assert_eq!(method_choice(Some(1)), Some(AddMethod::Github));
    assert_eq!(method_choice(Some(2)), None);
    assert_eq!(method_choice(None), None);
}
