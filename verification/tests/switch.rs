use gitas::commands::list::ListState;
use gitas::commands::switch::{
    identity_effects, no_token_warning, status_duration, status_lines, switch_prompt,
    switch_scope, token_present, SwitchFlow, SwitchStage,
};
use gitas::effects::{Answer, Effect, Prompt, Request};
use gitas::identity::GitIdentity;
use gitas::models::{Account, Config};
use gitas::style::{paint_frame, paint_line, plain, span, Hue, Style};
use gitas::utils::{check_credential_helper, ReadScope, Scope};

fn plain_output() {
    colored::control::set_override(false);
}

fn alice() -> Account {
    Account {
        username: "alice".to_string(),
        email: "a@x.com".to_string(),
        alias: None,
        host: None,
    }
}

fn set(key: &str, value: &str, scope: Scope) -> Effect {
    Effect::GitSet { key: key.to_string(), value: value.to_string(), scope }
}

fn value(text: Option<&str>) -> Answer {
    Answer::Text(text.map(|t| t.to_string()))
}

/// Runs a switch to its end.  The answers are given in the order in which
/// the switch asks; every request must be of the kind expected.
fn run(account: &Account, answers: Vec<(&str, Answer)>) -> (SwitchFlow, Vec<Effect>) {
    let mut flow = SwitchFlow::new(account);
    let mut done = Vec::new();
    for (kind, answer) in answers {
        let request = flow.request().expect("a request");
        let asked = match request {
            Request::Toplevel => "toplevel",
            Request::Ask(_) => "menu",
            Request::Token { .. } => "token",
            Request::GitConfig { scope: ReadScope::Local, .. } => "url",
            Request::GitConfig { .. } => "helper",
            other => panic!("unexpected request {:?}", other),
        };
        assert_eq!(asked, kind);
        done.extend(flow.answer(answer));
    }
    assert_eq!(flow.request(), None);
    (flow, done)
}

#[test]
fn switching_alice_globally_without_a_token() {
    plain_output();
    let state = ListState::new(Config { accounts: vec![alice()] }, GitIdentity::unset());
    let mut flow = state.begin_switch().expect("a switch");

    assert_eq!(flow.request(), Some(Request::Toplevel));
    assert_eq!(flow.answer(value(None)), Vec::new());
    assert!(matches!(flow.request(), Some(Request::Ask(Prompt::Select { .. }))));
    let written = flow.answer(Answer::Index(Some(0)));
    assert_eq!(
        written,
        vec![
            set("user.name", "alice", Scope::Global),
            set("user.email", "a@x.com", Scope::Global),
            Effect::GitUnset { key: "gitas.alias".to_string(), scope: Scope::Global },
            set("credential.https://github.com.username", "alice", Scope::Global),
        ]
    );
    assert_eq!(flow.request(), Some(Request::Token { key: "alice".to_string() }));
    assert_eq!(flow.answer(value(None)), Vec::new());
    assert_eq!(flow.request(), None);
    assert_eq!(flow.stage, SwitchStage::Done);

    let report = flow.report().expect("a report");
    assert_eq!(
        paint_frame(&report.lines),
        vec![
            "  \u{26a0} No token found for alice. Git may prompt for authentication.",
            "",
            "\u{2714}   Switched to 'alice' (global)",
        ]
    );
    assert_eq!(report.hold_ms, 1500);
}

#[test]
fn an_empty_token_counts_as_none() {
    let (flow, done) = run(
        &alice(),
        vec![
            ("toplevel", value(None)),
            ("menu", Answer::Index(Some(0))),
            ("token", value(Some(""))),
        ],
    );
    assert_eq!(done.len(), 4);
    assert_eq!(flow.report().expect("a report").lines.len(), 3);
    assert!(!token_present(&Some(String::new())));
    assert!(!token_present(&None));
    assert!(token_present(&Some("t".to_string())));
}

#[test]
fn with_a_token_the_old_credential_is_rejected_before_the_new_is_approved() {
    let (flow, done) = run(
        &alice(),
        vec![
            ("toplevel", value(None)),
            ("menu", Answer::Index(Some(0))),
            ("token", value(Some("tok"))),
            ("helper", value(Some("osxkeychain"))),
        ],
    );
    assert_eq!(done.len(), 6);
    assert_eq!(
        done[4..],
        [
            Effect::CredentialReject { input: "protocol=https\nhost=github.com\n\n".to_string() },
            Effect::CredentialApprove {
                input: "protocol=https\nhost=github.com\nusername=alice\npassword=tok\n\n"
                    .to_string()
            },
        ]
    );
    assert_eq!(flow.report().expect("a report").lines.len(), 2);
}

#[test]
fn a_local_switch_with_a_remote_stores_the_credential_by_url() {
    let work = Account {
        username: "alice".to_string(),
        email: "a@corp.com".to_string(),
        alias: Some("work".to_string()),
        host: Some("git.corp.com".to_string()),
    };
    let mut flow = SwitchFlow::new(&work);
    flow.answer(value(Some("/home/alice/repo")));
    let written = flow.answer(Answer::Index(Some(1)));
    assert_eq!(
        written,
        vec![
            set("user.name", "alice", Scope::Local),
            set("user.email", "a@corp.com", Scope::Local),
            set("gitas.alias", "work", Scope::Local),
            set("credential.https://git.corp.com.username", "alice", Scope::Local),
        ]
    );
    assert_eq!(flow.request(), Some(Request::Token { key: "alice::work".to_string() }));
    assert_eq!(flow.answer(value(Some("tok"))), Vec::new());
    assert_eq!(
        flow.request(),
        Some(Request::GitConfig { key: "remote.origin.url".to_string(), scope: ReadScope::Local })
    );
    assert_eq!(
        flow.answer(value(Some("https://git.corp.com/team/repo.git"))),
        vec![set("credential.useHttpPath", "true", Scope::Local)]
    );
    assert_eq!(
        flow.request(),
        Some(Request::GitConfig {
            key: "credential.helper".to_string(),
            scope: ReadScope::Effective
        })
    );
    assert_eq!(
        flow.answer(value(Some("store"))),
        vec![
            Effect::CredentialReject { input: "protocol=https\nhost=git.corp.com\n\n".to_string() },
            Effect::CredentialApprove {
                input: "url=https://git.corp.com/team/repo.git\nusername=alice\npassword=tok\n\n"
                    .to_string()
            },
        ]
    );
    assert_eq!(flow.request(), None);
}

#[test]
fn a_local_switch_without_a_remote_stores_the_credential_by_host() {
    let (_, done) = run(
        &alice(),
        vec![
            ("toplevel", value(None)),
            ("menu", Answer::Index(Some(1))),
            ("token", value(Some("tok"))),
            ("url", value(None)),
            ("helper", value(Some("store"))),
        ],
    );
    assert_eq!(done.len(), 6);
    assert_eq!(
        done[5],
        Effect::CredentialApprove {
            input: "protocol=https\nhost=github.com\nusername=alice\npassword=tok\n\n"
                .to_string()
        }
    );
}

#[test]
fn the_remote_url_is_asked_for_only_locally_and_with_a_token() {
    // Global with a token: the helper is asked for next, not the URL.
    run(
        &alice(),
        vec![
            ("toplevel", value(None)),
            ("menu", Answer::Index(Some(0))),
            ("token", value(Some("tok"))),
            ("helper", value(None)),
        ],
    );
    // Local without a token: nothing more is asked.
    run(
        &alice(),
        vec![("toplevel", value(None)), ("menu", Answer::Index(Some(1))), ("token", value(None))],
    );
}

#[test]
fn the_helper_warning_is_shown_with_a_token() {
    plain_output();
    let (flow, _) = run(
        &alice(),
        vec![
            ("toplevel", value(None)),
            ("menu", Answer::Index(Some(1))),
            ("token", value(Some("tok"))),
            ("url", value(None)),
            ("helper", value(Some("cache --timeout=60"))),
        ],
    );
    let report = flow.report().expect("a report");
    assert_eq!(
        paint_frame(&report.lines),
        vec![
            "  \u{26a0} credential.helper is set to 'cache --timeout=60'. Tokens may not persist.",
            "",
            "\u{2714}   Switched to 'alice' (local)",
        ]
    );
    assert_eq!(report.hold_ms, 1500);

    let lines = status_lines(&alice(), Scope::Local, &Some("tok".to_string()), &None);
    assert_eq!(
        paint_line(&lines[0]),
        "  \u{26a0} No credential.helper set. Git may not store your tokens."
    );
    assert_eq!(lines.len(), 3);
}

#[test]
fn credential_helper_is_checked_for_caching() {
    plain_output();
    assert_eq!(check_credential_helper(Some("osxkeychain")), None);
    assert_eq!(check_credential_helper(Some("store")), None);
    assert_eq!(
        check_credential_helper(Some("cache")),
        Some("  \u{26a0} credential.helper is set to 'cache'. Tokens may not persist.".to_string())
    );
    assert_eq!(
        check_credential_helper(Some("my-cache-helper")),
        Some(
            "  \u{26a0} credential.helper is set to 'my-cache-helper'. Tokens may not persist."
                .to_string()
        )
    );
    assert_eq!(check_credential_helper(Some("cach")), None);
    assert_eq!(
        check_credential_helper(None),
        Some("  \u{26a0} No credential.helper set. Git may not store your tokens.".to_string())
    );
}

#[test]
fn status_stays_longer_with_more_than_three_lines() {
    assert_eq!(status_duration(0), 1500);
    assert_eq!(status_duration(3), 1500);
    assert_eq!(status_duration(4), 2500);
}

#[test]
fn the_menu_offers_global_local_and_cancel() {
    plain_output();
    match switch_prompt(&alice(), &Some("/home/a/repo".to_string())) {
        Prompt::Select { prompt, items, default } => {
            assert_eq!(paint_line(&prompt), "Switch to 'alice'. Apply to");
            assert_eq!(prompt[1], span("alice", Style::hue(Hue::Cyan)));
            assert_eq!(paint_frame(&items), vec!["global", "local (/home/a/repo)", "Cancel"]);
            assert_eq!(items[1][1], span("(/home/a/repo)", Style::plain().dimmed()));
            assert_eq!(items[2], vec![span("Cancel", Style::plain().dimmed())]);
            assert_eq!(default, 0);
        }
        other => panic!("unexpected prompt {:?}", other),
    }
    match switch_prompt(&alice(), &None) {
        Prompt::Select { items, .. } => assert_eq!(items[1], vec![plain("local")]),
        other => panic!("unexpected prompt {:?}", other),
    }
    let mut flow = SwitchFlow::new(&alice());
    flow.answer(value(Some("/home/a/repo")));
    assert_eq!(
        flow.request(),
        Some(Request::Ask(switch_prompt(&alice(), &Some("/home/a/repo".to_string()))))
    );
}

#[test]
fn cancel_and_escape_switch_nothing() {
    assert_eq!(switch_scope(Some(0)), Some(Scope::Global));
    assert_eq!(switch_scope(Some(1)), Some(Scope::Local));
    assert_eq!(switch_scope(Some(2)), None);
    assert_eq!(switch_scope(None), None);
    for refusal in [Answer::Index(Some(2)), Answer::Index(None), Answer::Flag(Some(true))] {
        let (flow, done) = run(&alice(), vec![("toplevel", value(None)), ("menu", refusal)]);
        assert!(done.is_empty());
        assert_eq!(flow.stage, SwitchStage::Cancelled);
        assert_eq!(flow.report(), None);
    }
}

#[test]
fn a_switch_that_has_not_ended_has_no_report() {
    let mut flow = SwitchFlow::new(&alice());
    assert_eq!(flow.report(), None);
    flow.answer(value(None));
    flow.answer(Answer::Index(Some(0)));
    assert_eq!(flow.report(), None);
}

#[test]
fn an_ended_switch_takes_no_more_answers() {
    let (mut flow, _) = run(
        &alice(),
        vec![("toplevel", value(None)), ("menu", Answer::Index(Some(0))), ("token", value(None))],
    );
    assert_eq!(flow.answer(value(Some("late"))), Vec::new());
    assert_eq!(flow.stage, SwitchStage::Done);
    assert_eq!(flow.token, None);
}

#[test]
fn the_identity_is_written_in_a_fixed_order() {
    assert_eq!(
        identity_effects(&alice(), Scope::Local),
        vec![
            set("user.name", "alice", Scope::Local),
            set("user.email", "a@x.com", Scope::Local),
            Effect::GitUnset { key: "gitas.alias".to_string(), scope: Scope::Local },
            set("credential.https://github.com.username", "alice", Scope::Local),
        ]
    );
}

#[test]
fn the_no_token_warning_names_the_user() {
    plain_output();
    assert_eq!(
        paint_line(&no_token_warning("bob")),
        "  \u{26a0} No token found for bob. Git may prompt for authentication."
    );
}
