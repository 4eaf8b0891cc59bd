use gitas::commands::frame::{account_name_len, column_widths, rule_length};
use gitas::commands::list::ListState;
use gitas::identity::{GitIdentity, Unmanaged};
use gitas::models::{Account, Config};
use gitas::style::{span, Hue, Style};
use gitas::term::TermOp;
use gitas::utils::Scope;

fn plain_output() {
    colored::control::set_override(false);
}

fn account(name: &str, email: &str, alias: Option<&str>) -> Account {
    Account {
        username: name.to_string(),
        email: email.to_string(),
        alias: alias.map(|a| a.to_string()),
        host: None,
    }
}

fn identity(global: Option<(&str, &str)>, local: Option<(&str, &str)>) -> GitIdentity {
    GitIdentity {
        global_name: global.map(|g| g.0.to_string()),
        global_email: global.map(|g| g.1.to_string()),
        global_alias: None,
        local_name: local.map(|l| l.0.to_string()),
        local_email: local.map(|l| l.1.to_string()),
        local_alias: None,
    }
}

const HELP: &str = "  \u{2191}\u{2193} select \u{b7} Enter switch \u{b7} e edit \u{b7} Backspace remove \u{b7} q quit";

fn rule(n: usize) -> String {
    format!("  {}", "\u{2500}".repeat(n))
}

#[test]
fn an_empty_list_says_so() {
    plain_output();
    let state = ListState::new(Config::default(), GitIdentity::unset());
    let unmanaged = state.get_unmanaged_accounts();
    assert!(unmanaged.is_empty());
    let frame = state.build_frame(&unmanaged, 80, "1.2.3");
    assert_eq!(
        frame,
        vec![
            "".to_string(),
            "  GITAS (GitHub Account Switch) v1.2.3".to_string(),
            HELP.to_string(),
            "".to_string(),
            "    Username  Email  Scope".to_string(),
            rule(8 + 5 + 10),
            "  No accounts found.".to_string(),
            rule(8 + 5 + 10),
            "".to_string(),
        ]
    );
}

#[test]
fn rows_are_padded_to_the_widest_name_and_email() {
    plain_output();
    let config = Config {
        accounts: vec![
            account("alice", "a@x.com", None),
            account("bob", "bob@example.com", Some("work")),
        ],
    };
    let git = identity(Some(("alice", "a@x.com")), Some(("zed", "z@z.org")));
    let mut state = ListState::new(config, git);
    state.cursor = 1;
    let unmanaged = state.get_unmanaged_accounts();
    let frame = state.build_frame(&unmanaged, 120, "0.1.0");
    // Names: alice (5), bob:work (8), zed (3); heading 8.  Emails with
    // brackets: 9, 17, 9.
    assert_eq!(frame.len(), 8 + 3);
    assert_eq!(frame[4], "    Username  Email              Scope");
    assert_eq!(frame[5], rule(8 + 17 + 10));
    assert_eq!(frame[6], "  \u{25cf} alice     <a@x.com>          global");
    assert_eq!(frame[7], "> \u{25cb} bob:work  <bob@example.com>  ");
    assert_eq!(frame[8], "  \u{25cf} zed       <z@z.org>          local (unmanaged)");
    assert_eq!(frame[9], rule(8 + 17 + 10));
    assert_eq!(frame[10], "");
}

#[test]
fn the_local_identity_wins_over_the_global_one() {
    let alice = account("alice", "a@x.com", None);
    let git = identity(Some(("alice", "a@x.com")), Some(("alice", "a@x.com")));
    let state = ListState::new(Config { accounts: vec![account("alice", "a@x.com", None)] }, git);
    let line = state.account_line(0, &alice, 8, 9);
    assert_eq!(line[0], span(">", Style::hue(Hue::Yellow).bold()));
    assert_eq!(line[2], span("\u{25cf}", Style::hue(Hue::Green).bold()));
    assert_eq!(line[4], span("alice", Style::hue(Hue::Green).bold()));
    assert_eq!(line[11], span("local", Style::hue(Hue::Green)));
}

#[test]
fn a_global_account_is_cyan_and_an_idle_one_white() {
    let alice = account("alice", "a@x.com", Some("w"));
    let git = GitIdentity {
        global_name: Some("alice".to_string()),
        global_email: Some("a@x.com".to_string()),
        global_alias: Some("w".to_string()),
        ..GitIdentity::unset()
    };
    let state = ListState::new(Config::default(), git);
    let line = state.account_line(3, &alice, 8, 9);
    assert_eq!(line[0], span(" ", Style::plain()));
    assert_eq!(line[2], span("\u{25cf}", Style::hue(Hue::Cyan).bold()));
    assert_eq!(line[4], span("alice", Style::hue(Hue::Cyan).bold()));
    assert_eq!(line[5], span(":w", Style::plain().dimmed()));
    assert_eq!(line[8], span("<a@x.com>", Style::plain().dimmed()));
    assert_eq!(line[11], span("global", Style::hue(Hue::Cyan)));

    let idle = account("bob", "b@x.com", None);
    let line = state.account_line(3, &idle, 8, 9);
    assert_eq!(line[2], span("\u{25cb}", Style::plain().dimmed()));
    assert_eq!(line[4], span("bob", Style::hue(Hue::White)));
    assert_eq!(line[5], span("", Style::plain()));
    assert_eq!(line[11], span("", Style::plain()));
}

#[test]
fn format_account_line_is_the_painted_row() {
    plain_output();
    let state = ListState::new(Config::default(), GitIdentity::unset());
    let bob = account("bob", "b@x.com", Some("w"));
    assert_eq!(state.format_account_line(0, &bob, 8, 10), "> \u{25cb} bob:w     <b@x.com>   ");
    assert_eq!(state.format_account_line(1, &bob, 0, 0), "  \u{25cb} bob:w  <b@x.com>  ");
}

#[test]
fn format_unmanaged_line_is_the_painted_row() {
    plain_output();
    let mut state = ListState::new(Config::default(), GitIdentity::unset());
    let entry =
        Unmanaged { name: "zed".to_string(), email: "z@z.org".to_string(), scope: Scope::Global };
    state.cursor = 3;
    assert_eq!(
        state.format_unmanaged_line(1, 2, &entry, 5, 10),
        "> \u{25cf} zed    <z@z.org>   global (unmanaged)"
    );
    assert_eq!(
        state.format_unmanaged_line(0, 2, &entry, 5, 10),
        "  \u{25cf} zed    <z@z.org>   global (unmanaged)"
    );
    let line = state.unmanaged_line(0, 2, &entry, 5, 10);
    assert_eq!(line[4], span("zed", Style::hue(Hue::Yellow)));
    assert_eq!(line[12], span("(unmanaged)", Style::plain().dimmed().italic()));
}

#[test]
fn widths_are_counted_in_bytes() {
    let a = account("zo\u{eb}", "z@x", Some("w"));
    assert_eq!(account_name_len(&a), 4 + 2);
    assert_eq!(account_name_len(&account("bob", "b@x", None)), 3);
    let config = Config { accounts: vec![a] };
    assert_eq!(column_widths(&config, &Vec::new()), (8, 5));
    let wide = Config { accounts: vec![account("a-very-long-name", "somebody@example.com", None)] };
    assert_eq!(column_widths(&wide, &Vec::new()), (16, 22));
    let unmanaged = vec![Unmanaged {
        name: "an-even-longer-name".to_string(),
        email: "x@y".to_string(),
        scope: Scope::Local,
    }];
    assert_eq!(column_widths(&wide, &unmanaged), (19, 22));
}

#[test]
fn the_rule_never_exceeds_the_terminal() {
    assert_eq!(rule_length(8, 5, 80), 23);
    assert_eq!(rule_length(8, 5, 27), 23);
    assert_eq!(rule_length(8, 5, 26), 22);
    assert_eq!(rule_length(8, 5, 4), 0);
    assert_eq!(rule_length(8, 5, 0), 0);
    assert_eq!(rule_length(usize::MAX, usize::MAX, 100), 96);
}

#[test]
fn render_paints_the_frame_and_remembers_its_height() {
    plain_output();
    let mut state =
        ListState::new(Config { accounts: vec![account("a", "a@x", None)] }, GitIdentity::unset());
    let ops = state.render(80, "0.1.0");
    assert_eq!(state.renderer.previous_line_count, 9);
    assert_eq!(ops.iter().filter(|op| matches!(op, TermOp::ClearLine)).count(), 9);
    assert!(ops.contains(&TermOp::Print("> \u{25cb} a         <a@x>  ".to_string())));
    let again = state.render(80, "0.1.0");
    assert_eq!(again[0], TermOp::MoveUp(9));
}

#[test]
fn leaving_clears_the_frame_and_restores_the_terminal() {
    let mut state = ListState::new(Config::default(), GitIdentity::unset());
    state.render(80, "0.1.0");
    assert_eq!(
        state.exit_cleanup(),
        vec![
            TermOp::MoveUp(9),
            TermOp::ClearBelow,
            TermOp::Flush,
            TermOp::ShowCursor,
            TermOp::Flush,
            TermOp::DisableRawMode,
        ]
    );
    assert_eq!(state.renderer.previous_line_count, 0);
    assert_eq!(
        state.exit_cleanup(),
        vec![TermOp::ShowCursor, TermOp::Flush, TermOp::DisableRawMode]
    );
    let mut state = ListState::new(Config::default(), GitIdentity::unset());
    state.render(80, "0.1.0");
    assert_eq!(state.clear_frame(), vec![TermOp::MoveUp(9), TermOp::ClearBelow, TermOp::Flush]);
}
