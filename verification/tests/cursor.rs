use gitas::commands::list::{wrap_cursor, ListAction, ListState};
use gitas::identity::GitIdentity;
use gitas::models::{Account, Config};
use gitas::term::{KeyCode, KeyEvent};

fn account(name: &str) -> Account {
    Account {
        username: name.to_string(),
        email: format!("{}@x.com", name),
        alias: None,
        host: None,
    }
}

fn state_with(names: &[&str]) -> ListState {
    let config = Config { accounts: names.iter().map(|n| account(n)).collect() };
    ListState::new(config, GitIdentity::unset())
}

fn identity(global: Option<(&str, &str)>, local: Option<(&str, &str)>) -> GitIdentity {
    GitIdentity {
        global_name: global.map(|g| g.0.to_string()),
        global_email: global.map(|g| g.1.to_string()),
        global_alias: None,
        local_name: local.map(|l| l.0.to_string()),
        local_email: local.map(|l| l.1.to_string()),
        local_alias: None,
    }
}

#[test]
fn up_from_the_first_row_goes_to_the_last() {
    let mut state = state_with(&["a", "b", "c"]);
    assert_eq!(state.on_key(KeyEvent::press(KeyCode::Up)), ListAction::Render);
    assert_eq!(state.cursor, 2);
}

#[test]
fn down_from_the_last_row_goes_to_the_first() {
    let mut state = state_with(&["a", "b", "c"]);
    state.cursor = 2;
    assert_eq!(state.on_key(KeyEvent::press(KeyCode::Down)), ListAction::Render);
    assert_eq!(state.cursor, 0);
}

#[test]
fn k_and_j_move_like_the_arrows() {
    let mut state = state_with(&["a", "b", "c"]);
    assert_eq!(state.on_key(KeyEvent::press(KeyCode::Char('j'))), ListAction::Render);
    assert_eq!(state.cursor, 1);
    assert_eq!(state.on_key(KeyEvent::press(KeyCode::Char('k'))), ListAction::Render);
    assert_eq!(state.cursor, 0);
}

#[test]
fn cursor_stays_in_range_over_any_presses() {
    let mut state = state_with(&["a", "b", "c", "d", "e"]);
    let presses = [1, 1, -1, 1, 1, 1, 1, 1, -1, -1, -1, -1, -1, -1, -1, 1, -1, 1, 1];
    let mut expected: i64 = 0;
    for step in presses {
        let key = if step > 0 { KeyCode::Down } else { KeyCode::Up };
        state.on_key(KeyEvent::press(key));
        expected = (expected + step).rem_euclid(5);
        assert!(state.cursor < 5);
        assert_eq!(state.cursor as i64, expected);
        assert!(state.is_well_formed());
    }
}

#[test]
fn unmanaged_rows_count_for_the_cursor() {
    let config = Config { accounts: vec![account("a")] };
    let git = identity(Some(("g", "g@x.com")), Some(("l", "l@x.com")));
    let mut state = ListState::new(config, git);
    assert_eq!(state.row_count(), 3);
    state.on_key(KeyEvent::press(KeyCode::Up));
    assert_eq!(state.cursor, 2);
    state.on_key(KeyEvent::press(KeyCode::Down));
    assert_eq!(state.cursor, 0);
}

#[test]
fn move_cursor_takes_steps_of_any_size() {
    let mut state = state_with(&["a", "b", "c"]);
    state.move_cursor(-4);
    assert_eq!(state.cursor, 2);
    state.move_cursor(7);
    assert_eq!(state.cursor, 0);
    state.move_cursor(0);
    assert_eq!(state.cursor, 0);
}

#[test]
fn wrap_cursor_is_the_euclidean_remainder() {
    assert_eq!(wrap_cursor(0, -1, 4), 3);
    assert_eq!(wrap_cursor(3, 1, 4), 0);
    assert_eq!(wrap_cursor(1, -6, 4), 3);
    assert_eq!(wrap_cursor(2, isize::MAX, 1), 0);
    assert_eq!(wrap_cursor(2, isize::MIN, 3), (2i128 + isize::MIN as i128).rem_euclid(3) as usize);
    assert_eq!(wrap_cursor(9, 5, 0), 0);
}

#[test]
fn empty_list_keeps_the_cursor_at_zero() {
    let mut state = state_with(&[]);
    for key in [KeyCode::Up, KeyCode::Down, KeyCode::Char('k'), KeyCode::Char('j')] {
        assert_eq!(state.on_key(KeyEvent::press(key)), ListAction::Render);
        assert_eq!(state.cursor, 0);
    }
}

#[test]
fn empty_list_starts_no_action() {
    let mut state = state_with(&[]);
    assert!(state.get_unmanaged_accounts().is_empty());
    for key in [KeyCode::Enter, KeyCode::Backspace, KeyCode::Delete, KeyCode::Char('e')] {
        assert_eq!(state.on_key(KeyEvent::press(key)), ListAction::Render);
        assert_eq!(state.cursor, 0);
        assert!(state.config.accounts.is_empty());
    }
    assert!(state.begin_switch().is_none());
    assert!(state.delete_prompt().is_none());
    assert!(state.begin_edit().is_none());
    assert_eq!(state.handle_delete(Some(true)), None);
}

#[test]
fn actions_need_the_cursor_on_an_account() {
    let config = Config { accounts: vec![account("a")] };
    let git = identity(Some(("g", "g@x.com")), None);
    let mut state = ListState::new(config, git);

    assert_eq!(state.on_key(KeyEvent::press(KeyCode::Enter)), ListAction::Switch(0));
    assert_eq!(state.on_key(KeyEvent::press(KeyCode::Backspace)), ListAction::Delete(0));
    assert_eq!(state.on_key(KeyEvent::press(KeyCode::Delete)), ListAction::Delete(0));
    assert_eq!(state.on_key(KeyEvent::press(KeyCode::Char('e'))), ListAction::Edit(0));

    state.on_key(KeyEvent::press(KeyCode::Down));
    assert_eq!(state.cursor, 1);
    assert_eq!(state.on_key(KeyEvent::press(KeyCode::Enter)), ListAction::Render);
    assert_eq!(state.on_key(KeyEvent::press(KeyCode::Backspace)), ListAction::Render);
    assert_eq!(state.on_key(KeyEvent::press(KeyCode::Char('e'))), ListAction::Render);
    assert!(state.begin_switch().is_none());
    assert!(state.begin_edit().is_none());
    assert!(state.delete_prompt().is_none());
    assert_eq!(state.handle_delete(Some(true)), None);
    assert_eq!(state.config.accounts.len(), 1);
}

#[test]
fn quit_keys_leave_the_list() {
    let mut state = state_with(&["a"]);
    assert_eq!(state.on_key(KeyEvent::press(KeyCode::Char('q'))), ListAction::Quit);
    assert_eq!(state.on_key(KeyEvent::press(KeyCode::Esc)), ListAction::Quit);
    assert_eq!(state.on_key(KeyEvent::ctrl('c')), ListAction::Quit);
}

#[test]
fn other_keys_and_releases_are_ignored() {
    let mut state = state_with(&["a", "b"]);
    assert_eq!(state.on_key(KeyEvent::press(KeyCode::Char('x'))), ListAction::Ignore);
    assert_eq!(state.on_key(KeyEvent::press(KeyCode::Char('c'))), ListAction::Ignore);
    assert_eq!(state.on_key(KeyEvent::press(KeyCode::Other)), ListAction::Ignore);
    let release = KeyEvent { code: KeyCode::Down, ctrl: false, press: false };
    assert_eq!(state.on_key(release), ListAction::Ignore);
    assert_eq!(state.cursor, 0);
}

#[test]
fn refresh_keeps_a_cursor_on_an_account() {
    let config = Config { accounts: vec![account("a"), account("b")] };
    let mut state = ListState::new(config, identity(Some(("g", "g@x.com")), None));
    state.cursor = 1;
    state.refresh_git(GitIdentity::unset());
    assert_eq!(state.cursor, 1);
    assert!(state.is_well_formed());
}

#[test]
fn refresh_brings_a_stranded_cursor_back() {
    let config = Config { accounts: vec![account("a")] };
    let mut state = ListState::new(config, identity(Some(("g", "g@x.com")), None));
    state.cursor = 1;
    assert!(state.is_well_formed());
    state.refresh_git(GitIdentity::unset());
    assert_eq!(state.cursor, 0);
    assert!(state.is_well_formed());
}

#[test]
fn a_cursor_that_left_the_list_is_told() {
    let mut state = state_with(&["a"]);
    assert!(state.is_well_formed());
    state.cursor = 1;
    assert!(!state.is_well_formed());
}
