//! What is said to git and about git: the arguments of its configuration
//! commands, the input of its credential commands, and the lines that
//! describe an account.
//!
//! Running git is the caller's part.  The functions here build what git is
//! given and read what it answered.

use vstd::prelude::*;
use crate::models::{Account, AccountView, Config};
use crate::style::{
    Hue, Span, SpanView, Style, frame_view, is_painting, line_view, paint_line, plain,
    push_line, push_span, span, span_of,
};
use crate::text::{occurs_in, opt_view, push_text, str_contains, texts};

verus! {

/// A tier of git's configuration that can be written.
#[derive(Clone, Copy, Debug, PartialEq, Eq, Structural)]
pub enum Scope {
    /// The repository's own configuration.
    Local,
    /// The user's configuration.
    Global,
}

/// Where a configuration value is read from.
#[derive(Clone, Copy, Debug, PartialEq, Eq, Structural)]
pub enum ReadScope {
    Local,
    Global,
    /// The value git would use: the local one where there is one.
    Effective,
}

/// The host that an account without a host of its own belongs to.  It is
/// never stored with an account.
pub const DEFAULT_HOST: &'static str = "github.com";

/// The key under which an account's alias is kept in git's configuration,
/// beside the name and the email that git itself knows.
pub const ALIAS_KEY: &'static str = "gitas.alias";

/// The host that an account without a host of its own belongs to.
pub open spec fn default_host() -> Seq<char> {
    DEFAULT_HOST@
}

/// The host of an account.
pub open spec fn host_of(account: AccountView) -> Seq<char> {
    match account.host {
        Some(h) => h,
        None => default_host(),
    }
}

/// The name of a scope, as it is shown.
pub open spec fn scope_name(scope: Scope) -> Seq<char> {
    match scope {
        Scope::Local => "local"@,
        Scope::Global => "global"@,
    }
}

/// The flag that selects a scope on git's command line.
pub open spec fn scope_flag(scope: Scope) -> Seq<char> {
    match scope {
        Scope::Local => "--local"@,
        Scope::Global => "--global"@,
    }
}

/// The label of an account in a list: `name <email>`, with `:alias` behind
/// the name where the account has one.
pub open spec fn account_label(account: AccountView) -> Seq<char> {
    match account.alias {
        Some(alias) => account.username + ":"@ + alias + " <"@ + account.email + ">"@,
        None => account.username + " <"@ + account.email + ">"@,
    }
}

/// The arguments of `git config` that set `key` to `value`.
pub open spec fn config_set_args(key: Seq<char>, value: Seq<char>, scope: Scope) -> Seq<
    Seq<char>,
> {
    seq!["config"@, scope_flag(scope), key, value]
}

/// The arguments of `git config` that remove `key`.
pub open spec fn config_unset_args(key: Seq<char>, scope: Scope) -> Seq<Seq<char>> {
    seq!["config"@, scope_flag(scope), "--unset"@, key]
}

/// The arguments of `git config` that read `key`.
pub open spec fn config_get_args(key: Seq<char>, scope: ReadScope) -> Seq<Seq<char>> {
    match scope {
        ReadScope::Local => seq!["config"@, "--local"@, "--get"@, key],
        ReadScope::Global => seq!["config"@, "--global"@, "--get"@, key],
        ReadScope::Effective => seq!["config"@, "--get"@, key],
    }
}

/// What `git credential approve` is fed: the URL where one is known, else
/// the host, then the username and the password, and an empty line that
/// ends the input.
pub open spec fn approve_input(
    username: Seq<char>,
    token: Seq<char>,
    host: Seq<char>,
    url: Option<Seq<char>>,
) -> Seq<char> {
    match url {
        Some(u) => "url="@ + u + "\nusername="@ + username + "\npassword="@ + token + "\n\n"@,
        None => "protocol=https\nhost="@ + host + "\nusername="@ + username + "\npassword="@
            + token + "\n\n"@,
    }
}

/// What `git credential reject` is fed: the host, and an empty line that
/// ends the input.
pub open spec fn reject_input(host: Seq<char>) -> Seq<char> {
    "protocol=https\nhost="@ + host + "\n\n"@
}

/// The configuration key that fixes the username git offers to `host`.
pub open spec fn credential_username_key(host: Seq<char>) -> Seq<char> {
    "credential.https://"@ + host + ".username"@
}

/// The warning about the credential helper: one where git has none, one
/// where it only caches, none otherwise.
pub open spec fn helper_warning(helper: Option<Seq<char>>) -> Option<Seq<SpanView>> {
    match helper {
        Some(h) => if occurs_in("cache"@, h) {
            Some(
                seq![
                    span_of("  "@, Style::plain()),
                    span_of("\u{26a0}"@, Style::hue(Hue::Yellow)),
                    span_of(" credential.helper is set to '"@, Style::plain()),
                    span_of(h, Style::plain()),
                    span_of("'. Tokens may not persist."@, Style::plain()),
                ],
            )
        } else {
            None
        },
        None => Some(
            seq![
                span_of("  "@, Style::plain()),
                span_of("\u{26a0}"@, Style::hue(Hue::Yellow)),
                span_of(
                    " No credential.helper set. Git may not store your tokens."@,
                    Style::plain(),
                ),
            ],
        ),
    }
}

impl Scope {
    /// The scope's name: `local` or `global`.
    pub fn name(self) -> (r: &'static str)
        ensures
            r@ == scope_name(self),
    {
        match self {
            Scope::Local => "local",
            Scope::Global => "global",
        }
    }

    /// The flag that selects the scope: `--local` or `--global`.
    pub fn flag(self) -> (r: &'static str)
        ensures
            r@ == scope_flag(self),
    {
        match self {
            Scope::Local => "--local",
            Scope::Global => "--global",
        }
    }
}

impl Account {
    /// The account's host: its own, or `github.com`.
    pub fn host_or_default(&self) -> (r: String)
        ensures
            r@ == host_of(self@),
    {
        match &self.host {
            Some(h) => h.clone(),
            None => String::from_str(DEFAULT_HOST),
        }
    }
}

/// The arguments of `git config` that set `key` to `value` in `scope`.
pub fn git_config_set(key: &str, value: &str, scope: Scope) -> (args: Vec<String>)
    ensures
        texts(args@) == config_set_args(key@, value@, scope),
{
    let mut args: Vec<String> = Vec::new();
    push_text(&mut args, String::from_str("config"));
    push_text(&mut args, String::from_str(scope.flag()));
    push_text(&mut args, String::from_str(key));
    push_text(&mut args, String::from_str(value));
    assert(texts(args@) =~= config_set_args(key@, value@, scope));
    args
}

/// The arguments of `git config` that remove `key` from `scope`.
pub fn git_config_unset(key: &str, scope: Scope) -> (args: Vec<String>)
    ensures
        texts(args@) == config_unset_args(key@, scope),
{
    let mut args: Vec<String> = Vec::new();
    push_text(&mut args, String::from_str("config"));
    push_text(&mut args, String::from_str(scope.flag()));
    push_text(&mut args, String::from_str("--unset"));
    push_text(&mut args, String::from_str(key));
    assert(texts(args@) =~= config_unset_args(key@, scope));
    args
}

/// The arguments of `git config` that read `key` from `scope`.
pub fn git_config_get(key: &str, scope: ReadScope) -> (args: Vec<String>)
    ensures
        texts(args@) == config_get_args(key@, scope),
{
    let mut args: Vec<String> = Vec::new();
    push_text(&mut args, String::from_str("config"));
    match scope {
        ReadScope::Local => {
            push_text(&mut args, String::from_str("--local"));
        },
        ReadScope::Global => {
            push_text(&mut args, String::from_str("--global"));
        },
        ReadScope::Effective => {},
    }
    push_text(&mut args, String::from_str("--get"));
    push_text(&mut args, String::from_str(key));
    assert(texts(args@) =~= config_get_args(key@, scope));
    args
}

/// The arguments with which git reports the repository's top directory.
pub fn git_toplevel() -> (args: Vec<String>)
    ensures
        texts(args@) == seq!["rev-parse"@, "--show-toplevel"@],
{
    let mut args: Vec<String> = Vec::new();
    push_text(&mut args, String::from_str("rev-parse"));
    push_text(&mut args, String::from_str("--show-toplevel"));
    assert(texts(args@) =~= seq!["rev-parse"@, "--show-toplevel"@]);
    args
}

/// The warning about the credential helper that `git config` reported as
/// the effective one, as spans.
pub fn credential_helper_warning(helper: Option<&str>) -> (r: Option<Vec<Span>>)
    ensures
        match r {
            Some(line) => helper_warning(
                match helper {
                    Some(h) => Some(h@),
                    None => None,
                },
            ) == Some(line_view(line@)),
            None => helper_warning(
                match helper {
                    Some(h) => Some(h@),
                    None => None,
                },
            ) is None,
        },
{
    let mut line: Vec<Span> = Vec::new();
    match helper {
        Some(h) => {
            if !str_contains(h, "cache") {
                return None;
            }
            push_span(&mut line, plain("  "));
            push_span(&mut line, span("\u{26a0}", Style::hue(Hue::Yellow)));
            push_span(&mut line, plain(" credential.helper is set to '"));
            push_span(&mut line, plain(h));
            push_span(&mut line, plain("'. Tokens may not persist."));
            assert(Some(line_view(line@)) =~= helper_warning(Some(h@)));
        },
        None => {
            push_span(&mut line, plain("  "));
            push_span(&mut line, span("\u{26a0}", Style::hue(Hue::Yellow)));
            push_span(
                &mut line,
                plain(" No credential.helper set. Git may not store your tokens."),
            );
            assert(Some(line_view(line@)) =~= helper_warning(None));
        },
    }
    Some(line)
}

/// The warning line about the effective credential helper, painted: a
/// helper that only caches does not keep tokens, and without a helper git
/// keeps none.  `None` where the helper keeps them.
pub fn check_credential_helper(helper: Option<&str>) -> (r: Option<String>)
    ensures
        match r {
            Some(shown) => {
                &&& helper_warning(
                    match helper {
                        Some(h) => Some(h@),
                        None => None,
                    },
                ) is Some
                &&& is_painting(
                    helper_warning(
                        match helper {
                            Some(h) => Some(h@),
                            None => None,
                        },
                    )->0,
                    shown@,
                )
            },
            None => helper_warning(
                match helper {
                    Some(h) => Some(h@),
                    None => None,
                },
            ) is None,
        },
{
    match credential_helper_warning(helper) {
        Some(line) => Some(paint_line(&line)),
        None => None,
    }
}

/// What `git credential approve` is fed on its standard input.
pub fn git_credential_approve(username: &str, token: &str, host: &str, url: Option<&str>) -> (r:
    String)
    ensures
        r@ == approve_input(
            username@,
            token@,
            host@,
            match url {
                Some(u) => Some(u@),
                None => None,
            },
        ),
{
    let mut input: String;
    match url {
        Some(u) => {
            input = String::from_str("url=");
            input.append(u);
        },
        None => {
            input = String::from_str("protocol=https\nhost=");
            input.append(host);
        },
    }
    input.append("\nusername=");
    input.append(username);
    input.append("\npassword=");
    input.append(token);
    input.append("\n\n");
    input
}

/// What `git credential reject` is fed on its standard input.
pub fn git_credential_reject(host: &str) -> (r: String)
    ensures
        r@ == reject_input(host@),
{
    let mut input = String::from_str("protocol=https\nhost=");
    input.append(host);
    input.append("\n\n");
    input
}

/// The label of an account in a list.
pub fn format_account_label(account: &Account) -> (r: String)
    ensures
        r@ == account_label(account@),
{
    let mut label = account.username.clone();
    match &account.alias {
        Some(alias) => {
            label.append(":");
            label.append(alias.as_str());
        },
        None => {},
    }
    label.append(" <");
    label.append(account.email.as_str());
    label.append(">");
    label
}

/// The labels of all accounts, in the order of the list.
pub open spec fn account_labels(accounts: Seq<AccountView>) -> Seq<Seq<char>> {
    Seq::new(accounts.len(), |i: int| account_label(accounts[i]))
}

/// Whether `id` names the account: by its username, by its alias, or by
/// both with a colon between them.
pub open spec fn is_named(account: AccountView, id: Seq<char>) -> bool {
    ||| account.username == id
    ||| account.alias == Some(id)
    ||| account.alias is Some && id == account.username + ":"@ + account.alias->0
}

/// The position of the first account that `id` names, or the length of
/// the list.
pub open spec fn first_named(accounts: Seq<AccountView>, id: Seq<char>) -> int
    decreases accounts.len(),
{
    if accounts.len() == 0 {
        0
    } else if is_named(accounts[0], id) {
        0
    } else {
        1 + first_named(accounts.drop_first(), id)
    }
}

/// How the account to act as is found.
#[derive(Clone, Copy, Debug, PartialEq, Eq, Structural)]
pub enum Resolution {
    /// There are no accounts to choose from.
    NoAccounts,
    /// The account at this position.
    Found(usize),
    /// No account goes by the name given.
    NoMatch,
    /// No name was given: the user is to pick from the labels.
    Ask,
}

/// How the account is found: with a name, the first account that goes by
/// it; without one, by asking.
pub open spec fn resolution(accounts: Seq<AccountView>, id: Option<Seq<char>>) -> Resolution {
    if accounts.len() == 0 {
        Resolution::NoAccounts
    } else {
        match id {
            Some(name) => if first_named(accounts, name) < accounts.len() {
                Resolution::Found(first_named(accounts, name) as usize)
            } else {
                Resolution::NoMatch
            },
            None => Resolution::Ask,
        }
    }
}

/// What is said where there are no accounts.
pub open spec fn no_accounts_lines() -> Seq<Seq<SpanView>> {
    seq![
        seq![
            span_of("\n  "@, Style::plain()),
            span_of("No accounts configured."@, Style::plain().dimmed()),
            span_of("\n"@, Style::plain()),
        ],
        seq![
            span_of("  Run "@, Style::plain()),
            span_of("gitas add"@, Style::hue(Hue::Cyan).bold()),
            span_of(" to add one.\n"@, Style::plain()),
        ],
    ]
}

/// What is said where no account goes by the name given.
pub open spec fn no_match_line(id: Seq<char>) -> Seq<SpanView> {
    seq![
        span_of("\n  "@, Style::plain()),
        span_of("\u{2717}"@, Style::hue(Hue::Red).bold()),
        span_of(" No account matching '"@, Style::plain()),
        span_of(id, Style::hue(Hue::Yellow)),
        span_of("'.\n"@, Style::plain()),
    ]
}

proof fn lemma_first_named(accounts: Seq<AccountView>, id: Seq<char>)
    ensures
        0 <= first_named(accounts, id) <= accounts.len(),
        first_named(accounts, id) < accounts.len() ==> is_named(
            accounts[first_named(accounts, id)],
            id,
        ),
        forall|j: int| 0 <= j < first_named(accounts, id) ==> !is_named(#[trigger] accounts[j], id),
    decreases accounts.len(),
{
    if accounts.len() > 0 && !is_named(accounts[0], id) {
        let rest = accounts.drop_first();
        lemma_first_named(rest, id);
        let first = first_named(rest, id);
        assert forall|j: int| 0 <= j < first + 1 implies !is_named(#[trigger] accounts[j], id) by {
            if j > 0 {
                assert(accounts[j] == rest[j - 1]);
            }
        }
        if first < rest.len() {
            assert(accounts[first + 1] == rest[first]);
        }
    }
}

/// Whether `id` names the account.
pub fn goes_by(account: &Account, id: &String) -> (r: bool)
    ensures
        r == is_named(account@, id@),
{
    if account.username == *id {
        return true;
    }
    match &account.alias {
        Some(alias) => {
            if *alias == *id {
                return true;
            }
            let mut both = account.username.clone();
            both.append(":");
            both.append(alias.as_str());
            *id == both
        },
        None => false,
    }
}

/// How the account to act as is found.  With a name it is the first
/// account that goes by it.
pub fn resolve_account(config: &Config, identifier: Option<&String>) -> (r: Resolution)
    ensures
        r == resolution(
            config@,
            match identifier {
                Some(id) => Some(id@),
                None => None,
            },
        ),
        r matches Resolution::Found(i) ==> i < config@.len(),
{
    if config.accounts.len() == 0 {
        return Resolution::NoAccounts;
    }
    match identifier {
        None => Resolution::Ask,
        Some(id) => {
            let mut i: usize = 0;
            while i < config.accounts.len()
                invariant
                    i <= config.accounts.len(),
                    identifier == Some(id),
                    forall|j: int| 0 <= j < i ==> !is_named(#[trigger] config@[j], id@),
                decreases config.accounts.len() - i,
            {
                if goes_by(&config.accounts[i], id) {
                    proof {
                        lemma_first_named(config@, id@);
                        let first = first_named(config@, id@);
                        assert(is_named(config@[i as int], id@));
                        if first < i {
                            assert(is_named(config@[first], id@));
                        }
                    }
                    return Resolution::Found(i);
                }
                i += 1;
            }
            proof {
                lemma_first_named(config@, id@);
                let first = first_named(config@, id@);
                if first < config@.len() {
                    assert(is_named(config@[first], id@));
                }
            }
            Resolution::NoMatch
        },
    }
}

/// The labels of all accounts, for the user to pick from.
pub fn labels(config: &Config) -> (r: Vec<String>)
    ensures
        texts(r@) == account_labels(config@),
{
    let mut out: Vec<String> = Vec::new();
    let mut i: usize = 0;
    assert(texts(out@) =~= account_labels(config@).take(0));
    while i < config.accounts.len()
        invariant
            i <= config.accounts.len(),
            texts(out@) == account_labels(config@).take(i as int),
        decreases config.accounts.len() - i,
    {
        push_text(&mut out, format_account_label(&config.accounts[i]));
        proof {
            let all = account_labels(config@);
            assert(all.take(i + 1) =~= all.take(i as int).push(all[i as int]));
        }
        i += 1;
    }
    assert(account_labels(config@).take(config@.len() as int) =~= account_labels(config@));
    out
}

/// What is said where there are no accounts.
pub fn no_accounts_message() -> (r: Vec<Vec<Span>>)
    ensures
        frame_view(r@) == no_accounts_lines(),
{
    let mut lines: Vec<Vec<Span>> = Vec::new();
    let mut first: Vec<Span> = Vec::new();
    push_span(&mut first, plain("\n  "));
    push_span(&mut first, span("No accounts configured.", Style::plain().dimmed()));
    push_span(&mut first, plain("\n"));
    assert(line_view(first@) =~= no_accounts_lines()[0]);
    push_line(&mut lines, first);
    let mut second: Vec<Span> = Vec::new();
    push_span(&mut second, plain("  Run "));
    push_span(&mut second, span("gitas add", Style::hue(Hue::Cyan).bold()));
    push_span(&mut second, plain(" to add one.\n"));
    assert(line_view(second@) =~= no_accounts_lines()[1]);
    push_line(&mut lines, second);
    assert(frame_view(lines@) =~= no_accounts_lines());
    lines
}

/// What is said where no account goes by the name given.
pub fn no_match_message(id: &str) -> (r: Vec<Span>)
    ensures
        line_view(r@) == no_match_line(id@),
{
    let mut line: Vec<Span> = Vec::new();
    push_span(&mut line, plain("\n  "));
    push_span(&mut line, span("\u{2717}", Style::hue(Hue::Red).bold()));
    push_span(&mut line, plain(" No account matching '"));
    push_span(&mut line, span(id, Style::hue(Hue::Yellow)));
    push_span(&mut line, plain("'.\n"));
    assert(line_view(line@) =~= no_match_line(id@));
    line
}

/// What `str::trim` makes of a text: the text without the white space at
/// its two ends.
pub uninterp spec fn trimmed(text: Seq<char>) -> Seq<char>;

/// `str::trim`, which takes the white space off both ends.  Which
/// characters count as white space is Unicode's matter; the result is
/// named, not spelled out.
#[verifier::external_body]
fn trim(text: &str) -> (r: String)
    ensures
        r@ == trimmed(text@),
{
    text.trim().to_string()
}

/// The value that a git command reported: its output where the command
/// succeeded and the output is not empty.
pub open spec fn reported_value(success: bool, output: Seq<char>) -> Option<Seq<char>> {
    if success && output.len() > 0 {
        Some(output)
    } else {
        None
    }
}

/// The value that a git command reported, given its output with the white
/// space at the ends taken off.
pub fn value_of_output(success: bool, output: String) -> (r: Option<String>)
    ensures
        opt_view(r) == reported_value(success, output@),
{
    if success && !output.as_str().is_empty() {
        Some(output)
    } else {
        None
    }
}

/// The value that a git command reported on its standard output.
pub fn git_output_value(success: bool, stdout: &str) -> (r: Option<String>)
    ensures
        opt_view(r) == reported_value(success, trimmed(stdout@)),
{
    value_of_output(success, trim(stdout))
}

} // verus!
