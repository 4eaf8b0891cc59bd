use std::collections::HashMap;

use gitas::commands::edit::{
    edit_pick, host_to_store, non_empty_text, EditChoice, EditDraft, EditField, EditFlow,
    EditStage,
};
use gitas::commands::list::ListState;
use gitas::effects::{Answer, Effect, Prompt, Request};
use gitas::identity::GitIdentity;
use gitas::models::{make_key, Account, Config};
use gitas::style::{paint_frame, paint_line, plain, span, Hue, Style};

fn plain_output() {
    colored::control::set_override(false);
}

fn account(name: &str, alias: Option<&str>) -> Account {
    Account {
        username: name.to_string(),
        email: format!("{}@x.com", name),
        alias: alias.map(|a| a.to_string()),
        host: None,
    }
}

fn state_with(accounts: Vec<Account>) -> ListState {
    ListState::new(Config { accounts }, GitIdentity::unset())
}

/// A secret store that does what the effects say.
fn carry_out(store: &mut HashMap<String, String>, effects: &[Effect]) {
    for effect in effects {
        match effect {
            Effect::StoreToken { key, secret } => {
                store.insert(key.clone(), secret.clone());
            }
            Effect::DeleteToken { key } => {
                store.remove(key);
            }
            _ => {}
        }
    }
}

fn answer(text: &str) -> Option<String> {
    Some(text.to_string())
}

fn typed(text: &str) -> Answer {
    Answer::Text(Some(text.to_string()))
}

/// An edit of the account under the cursor that has got its token and has
/// changed the fields given, and in which the user then picked "Save
/// Changes".
fn edited(state: &ListState, token: Option<&str>, changes: Vec<(usize, &str)>) -> EditFlow {
    let mut flow = state.begin_edit().expect("an edit");
    assert!(matches!(flow.request(), Some(Request::Token { .. })));
    flow.answer(Answer::Text(token.map(|t| t.to_string())));
    for (row, text) in changes {
        assert!(matches!(flow.request(), Some(Request::Ask(Prompt::Select { .. }))));
        flow.answer(Answer::Index(Some(row)));
        flow.answer(typed(text));
    }
    flow.answer(Answer::Index(Some(5)));
    assert_eq!(flow.stage, EditStage::Save);
    assert_eq!(flow.request(), None);
    flow
}

// ── delete ──────────────────────────────────────────────────────────────

#[test]
fn deleting_removes_the_account_and_its_secret() {
    let mut store = HashMap::new();
    store.insert(make_key("u", Some("a")), "secret".to_string());
    store.insert(make_key("v", None), "other".to_string());
    let mut state = state_with(vec![account("v", None), account("u", Some("a"))]);
    state.cursor = 1;

    let effects = state.handle_delete(Some(true)).expect("a deletion");
    assert_eq!(
        effects,
        vec![Effect::DeleteToken { key: "u::a".to_string() }, Effect::SaveConfig]
    );
    carry_out(&mut store, &effects);

    assert_eq!(store.get(&make_key("u", Some("a"))), None);
    assert_eq!(store.get("v"), Some(&"other".to_string()));
    assert_eq!(state.config.accounts, vec![account("v", None)]);
    assert_eq!(state.cursor, 0);
    assert!(state.is_well_formed());
}

#[test]
fn deleting_needs_a_yes() {
    for refusal in [Some(false), None] {
        let mut state = state_with(vec![account("u", None)]);
        assert_eq!(state.handle_delete(refusal), None);
        assert_eq!(state.config.accounts, vec![account("u", None)]);
        assert_eq!(state.cursor, 0);
    }
}

#[test]
fn the_cursor_steps_back_only_from_the_end() {
    let three = || vec![account("a", None), account("b", None), account("c", None)];
    let mut state = state_with(three());
    state.cursor = 2;
    state.handle_delete(Some(true));
    assert_eq!(state.cursor, 1);

    let mut state = state_with(three());
    state.cursor = 1;
    state.handle_delete(Some(true));
    assert_eq!(state.cursor, 1);
    assert_eq!(state.config.accounts[1], account("c", None));

    let mut state = state_with(three());
    state.handle_delete(Some(true));
    assert_eq!(state.cursor, 0);
    assert_eq!(state.config.accounts[0], account("b", None));

    let mut state = state_with(vec![account("a", None)]);
    state.handle_delete(Some(true));
    assert_eq!(state.cursor, 0);
    assert!(state.config.accounts.is_empty());
    assert!(state.is_well_formed());
}

#[test]
fn the_delete_question_names_the_account_and_defaults_to_no() {
    plain_output();
    let state = state_with(vec![account("bob", None)]);
    match state.delete_prompt() {
        Some(Prompt::Confirm { prompt, default }) => {
            assert_eq!(paint_line(&prompt), "Remove account 'bob'?");
            assert_eq!(prompt[1], span("bob", Style::hue(Hue::Yellow)));
            assert!(!default);
        }
        other => panic!("unexpected prompt {:?}", other),
    }
}

// ── edit ────────────────────────────────────────────────────────────────

#[test]
fn renaming_bob_moves_the_secret_to_the_new_key() {
    let mut store = HashMap::new();
    store.insert("bob".to_string(), "s3cret".to_string());
    let mut state = state_with(vec![account("bob", None)]);

    let mut flow = state.begin_edit().expect("an edit");
    let token = match flow.request() {
        Some(Request::Token { key }) => store.get(&key).cloned(),
        other => panic!("unexpected request {:?}", other),
    };
    flow.answer(Answer::Text(token));
    flow.answer(Answer::Index(Some(0)));
    assert_eq!(
        flow.request(),
        Some(Request::Ask(Prompt::Input {
            prompt: "New Username".to_string(),
            default: "bob".to_string()
        }))
    );
    flow.answer(typed("rob"));
    flow.answer(Answer::Index(Some(5)));
    let effects = state.handle_edit(flow).expect("a save");
    assert_eq!(
        effects,
        vec![
            Effect::DeleteToken { key: "bob".to_string() },
            Effect::StoreToken { key: "rob".to_string(), secret: "s3cret".to_string() },
            Effect::SaveConfig,
        ]
    );
    carry_out(&mut store, &effects);

    assert_eq!(store.get("bob"), None);
    assert_eq!(store.get("rob"), Some(&"s3cret".to_string()));
    assert_eq!(state.config.accounts[0].username, "rob");
    assert_eq!(state.config.accounts[0].email, "bob@x.com");
}

#[test]
fn changing_the_alias_moves_the_secret_too() {
    let mut store = HashMap::new();
    store.insert("bob".to_string(), "s".to_string());
    let mut state = state_with(vec![account("bob", None)]);
    let flow = edited(&state, Some("s"), vec![(2, "work")]);
    let effects = state.handle_edit(flow).expect("a save");
    carry_out(&mut store, &effects);
    assert_eq!(store.get("bob"), None);
    assert_eq!(store.get("bob::work"), Some(&"s".to_string()));
}

#[test]
fn saving_without_a_key_change_rewrites_the_secret_in_place() {
    let mut state = state_with(vec![account("bob", None)]);
    let flow = edited(&state, Some("old"), vec![(1, "new@x.com"), (4, "new")]);
    let effects = state.handle_edit(flow).expect("a save");
    assert_eq!(
        effects,
        vec![
            Effect::StoreToken { key: "bob".to_string(), secret: "new".to_string() },
            Effect::SaveConfig
        ]
    );
    assert_eq!(state.config.accounts[0].email, "new@x.com");
}

#[test]
fn saving_without_a_token_deletes_what_is_under_the_new_key() {
    let mut state = state_with(vec![account("bob", None)]);
    let flow = edited(&state, Some("old"), vec![(4, ""), (0, "rob")]);
    assert_eq!(
        state.handle_edit(flow),
        Some(vec![
            Effect::DeleteToken { key: "bob".to_string() },
            Effect::DeleteToken { key: "rob".to_string() },
            Effect::SaveConfig,
        ])
    );
}

#[test]
fn nothing_is_touched_until_the_draft_is_saved() {
    let mut state = state_with(vec![account("bob", None)]);
    for way_out in [Answer::Index(Some(6)), Answer::Index(None)] {
        let mut flow = state.begin_edit().expect("an edit");
        flow.answer(Answer::Text(Some("tok".to_string())));
        flow.answer(Answer::Index(Some(0)));
        flow.answer(typed("rob"));
        assert_eq!(flow.draft.original_username, "bob");
        assert_eq!(flow.draft.account.username, "rob");
        assert_eq!(state.config.accounts, vec![account("bob", None)]);
        flow.answer(way_out);
        assert_eq!(flow.stage, EditStage::Cancel);
        assert_eq!(flow.request(), None);
        assert_eq!(state.handle_edit(flow), None);
        assert_eq!(state.config.accounts, vec![account("bob", None)]);
    }
}

#[test]
fn an_edit_that_has_not_ended_saves_nothing() {
    let mut state = state_with(vec![account("bob", None)]);
    let mut flow = state.begin_edit().expect("an edit");
    flow.answer(Answer::Text(None));
    flow.answer(Answer::Index(Some(0)));
    assert_eq!(flow.stage, EditStage::Field(EditField::Username));
    assert_eq!(state.handle_edit(flow), None);
    assert_eq!(state.config.accounts, vec![account("bob", None)]);
}

#[test]
fn the_menu_returns_after_every_field() {
    let state = state_with(vec![account("bob", None)]);
    let mut flow = state.begin_edit().expect("an edit");
    assert_eq!(flow.request(), Some(Request::Token { key: "bob".to_string() }));
    flow.answer(Answer::Text(None));
    assert_eq!(flow.stage, EditStage::Menu);
    flow.answer(Answer::Index(Some(9)));
    assert_eq!(flow.stage, EditStage::Menu);
    flow.answer(Answer::Index(Some(3)));
    assert_eq!(flow.stage, EditStage::Field(EditField::Host));
    flow.answer(Answer::Text(None));
    assert_eq!(flow.stage, EditStage::Menu);
    assert_eq!(flow.draft.account.host, None);
    flow.answer(Answer::Index(Some(4)));
    assert_eq!(
        flow.request(),
        Some(Request::Ask(Prompt::Password { prompt: "New Token/PAT".to_string() }))
    );
    flow.answer(typed("tok"));
    assert_eq!(flow.request(), Some(Request::Ask(flow.draft.menu())));
    assert_eq!(flow.draft.token.as_deref(), Some("tok"));
}

#[test]
fn the_edit_replaces_the_account_under_the_cursor() {
    let mut state = state_with(vec![account("a", None), account("b", None), account("c", None)]);
    state.cursor = 1;
    let flow = edited(&state, None, vec![(3, "git.example.com")]);
    state.handle_edit(flow);
    assert_eq!(state.config.accounts[0], account("a", None));
    assert_eq!(state.config.accounts[2], account("c", None));
    assert_eq!(state.config.accounts[1].host.as_deref(), Some("git.example.com"));
    assert_eq!(state.cursor, 1);
}

#[test]
fn fields_are_normalised_when_they_are_taken() {
    let base = account("bob", Some("w"));
    let mut draft = EditDraft::new(&base, Some("t".to_string()));

    draft.apply(EditField::Username, answer(""));
    assert_eq!(draft.account.username, "bob");
    draft.apply(EditField::Email, answer(""));
    assert_eq!(draft.account.email, "bob@x.com");
    draft.apply(EditField::Alias, answer(""));
    assert_eq!(draft.account.alias, None);
    draft.apply(EditField::Alias, answer("x"));
    assert_eq!(draft.account.alias.as_deref(), Some("x"));
    draft.apply(EditField::Host, answer("h.example"));
    assert_eq!(draft.account.host.as_deref(), Some("h.example"));
    draft.apply(EditField::Host, answer("github.com"));
    assert_eq!(draft.account.host, None);
    draft.apply(EditField::Host, answer("h.example"));
    draft.apply(EditField::Host, answer(""));
    assert_eq!(draft.account.host, None);
    draft.apply(EditField::Token, answer(""));
    assert_eq!(draft.token, None);
    draft.apply(EditField::Token, answer("n"));
    assert_eq!(draft.token.as_deref(), Some("n"));
}

#[test]
fn a_cancelled_input_changes_nothing() {
    let base = account("bob", Some("w"));
    let mut draft = EditDraft::new(&base, Some("t".to_string()));
    for field in [
        EditField::Username,
        EditField::Email,
        EditField::Alias,
        EditField::Host,
        EditField::Token,
    ] {
        draft.apply(field, None);
    }
    assert_eq!(draft, EditDraft::new(&base, Some("t".to_string())));
}

#[test]
fn the_menu_shows_the_draft_and_hides_the_token() {
    plain_output();
    let mut draft = EditDraft::new(&account("bob", None), None);
    match draft.menu() {
        Prompt::Select { prompt, items, default } => {
            assert_eq!(prompt, vec![plain("Edit Account")]);
            assert_eq!(default, 0);
            assert_eq!(
                paint_frame(&items),
                vec![
                    "Username:       bob",
                    "Email:          bob@x.com",
                    "Alias:          none",
                    "Host:           github.com",
                    "Token:          none",
                    "Save Changes",
                    "Cancel",
                ]
            );
            assert_eq!(items[0][0], span("Username:      ", Style::plain().dimmed()));
            assert_eq!(items[5], vec![span("Save Changes", Style::hue(Hue::Green))]);
        }
        other => panic!("unexpected prompt {:?}", other),
    }
    draft.apply(EditField::Alias, answer("w"));
    draft.apply(EditField::Host, answer("h"));
    draft.apply(EditField::Token, answer("secret"));
    match draft.menu() {
        Prompt::Select { items, .. } => assert_eq!(
            paint_frame(&items)[2..5],
            ["Alias:          w", "Host:           h", "Token:          *******"]
        ),
        other => panic!("unexpected prompt {:?}", other),
    }
}

#[test]
fn each_field_has_its_question() {
    let mut draft = EditDraft::new(&account("bob", None), Some("t".to_string()));
    let input = |prompt: &str, default: &str| Prompt::Input {
        prompt: prompt.to_string(),
        default: default.to_string(),
    };
    assert_eq!(draft.field_prompt(EditField::Username), input("New Username", "bob"));
    assert_eq!(draft.field_prompt(EditField::Email), input("New Email", "bob@x.com"));
    assert_eq!(draft.field_prompt(EditField::Alias), input("New Alias", ""));
    assert_eq!(draft.field_prompt(EditField::Host), input("New Host", "github.com"));
    assert_eq!(
        draft.field_prompt(EditField::Token),
        Prompt::Password { prompt: "New Token/PAT".to_string() }
    );
    draft.apply(EditField::Alias, answer("w"));
    draft.apply(EditField::Host, answer("h"));
    assert_eq!(draft.field_prompt(EditField::Alias), input("New Alias", "w"));
    assert_eq!(draft.field_prompt(EditField::Host), input("New Host", "h"));
}

#[test]
fn menu_picks_map_to_fields_save_and_cancel() {
    assert_eq!(edit_pick(Some(0)), EditChoice::Field(EditField::Username));
    assert_eq!(edit_pick(Some(1)), EditChoice::Field(EditField::Email));
    assert_eq!(edit_pick(Some(2)), EditChoice::Field(EditField::Alias));
    assert_eq!(edit_pick(Some(3)), EditChoice::Field(EditField::Host));
    assert_eq!(edit_pick(Some(4)), EditChoice::Field(EditField::Token));
    assert_eq!(edit_pick(Some(5)), EditChoice::Save);
    assert_eq!(edit_pick(Some(6)), EditChoice::Cancel);
    assert_eq!(edit_pick(None), EditChoice::Cancel);
    assert_eq!(edit_pick(Some(7)), EditChoice::Again);
}

#[test]
fn empty_text_and_default_host_are_stored_as_nothing() {
    assert_eq!(non_empty_text(String::new()), None);
    assert_eq!(non_empty_text("x".to_string()), Some("x".to_string()));
    assert_eq!(host_to_store(String::new()), None);
    assert_eq!(host_to_store("github.com".to_string()), None);
    assert_eq!(host_to_store("github.com ".to_string()), Some("github.com ".to_string()));
}
