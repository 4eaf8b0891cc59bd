//! Running git as one of the accounts: the identity goes on git's command
//! line, in front of the arguments that the user gave.

use vstd::prelude::*;
use crate::commands::switch::{has_token, no_token_line, no_token_warning, token_present};
use crate::effects::{
    Answer, AnswerView, Prompt, PromptView, Request, RequestView, request_view,
};
use crate::models::{Account, AccountView, Config, key_of};
use crate::style::{
    Hue, Span, SpanView, Style, frame_view, line_view, plain, push_line, push_span, span,
    span_of, span_owned,
};
use crate::text::{opt_view, push_text, texts};
use crate::utils::{
    Resolution, account_label, account_labels, labels, no_accounts_lines, no_accounts_message,
    no_match_line, no_match_message, resolution, resolve_account,
};

verus! {

/// The arguments one after the other, with one space between two of them.
pub open spec fn spaced(args: Seq<Seq<char>>) -> Seq<char>
    decreases args.len(),
{
    if args.len() == 0 {
        Seq::empty()
    } else if args.len() == 1 {
        args[0]
    } else {
        spaced(args.drop_last()) + " "@ + args.last()
    }
}

/// The shell function that answers git's request for a credential.
pub open spec fn inline_helper(username: Seq<char>, token: Seq<char>) -> Seq<char> {
    "credential.helper=!f() { echo \"username="@ + username + "\"; echo \"password="@ + token
        + "\"; }; f"@
}

/// What is put in front of the user's arguments: name and email, and with
/// a token a credential helper that answers with it, after the helpers
/// that are configured have been switched off.
pub open spec fn identity_arguments(account: AccountView, token: Option<Seq<char>>) -> Seq<
    Seq<char>,
> {
    let identity = seq![
        "-c"@,
        "user.name="@ + account.username,
        "-c"@,
        "user.email="@ + account.email,
    ];
    if has_token(token) {
        identity + seq![
            "-c"@,
            "credential.helper="@,
            "-c"@,
            inline_helper(account.username, token->0),
        ]
    } else {
        identity
    }
}

/// The whole command line behind `git`.
pub open spec fn command_line(
    account: AccountView,
    token: Option<Seq<char>>,
    args: Seq<Seq<char>>,
) -> Seq<Seq<char>> {
    identity_arguments(account, token) + args
}

/// The line that says what is run, and as whom.
pub open spec fn announcement(account: AccountView, args: Seq<Seq<char>>) -> Seq<SpanView> {
    seq![
        span_of("  "@, Style::plain()),
        span_of("\u{21b7}"@, Style::plain().dimmed()),
        span_of(" git "@, Style::plain()),
        span_of(spaced(args), Style::plain()),
        span_of(" "@, Style::plain()),
        span_of(
            "as "@ + account.username + " <"@ + account.email + ">"@,
            Style::plain().dimmed(),
        ),
    ]
}

/// The complaint about a call without a git command.
pub open spec fn usage_line() -> Seq<SpanView> {
    seq![
        span_of("\n  "@, Style::plain()),
        span_of("\u{2717}"@, Style::hue(Hue::Red).bold()),
        span_of(" No git command provided. Usage: "@, Style::plain()),
        span_of("gitas git <args...>"@, Style::hue(Hue::Cyan)),
        span_of("\n"@, Style::plain()),
    ]
}

/// The exit code to leave with after git has run: git's own where it
/// failed, 1 where it failed without one, 0 where it succeeded.
pub open spec fn exit_code_of(success: bool, code: Option<i32>) -> i32 {
    if success {
        0
    } else {
        match code {
            Some(c) => c,
            None => 1,
        }
    }
}

/// The arguments joined by single spaces.
pub fn join_spaced(args: &Vec<String>) -> (r: String)
    ensures
        r@ == spaced(texts(args@)),
{
    let mut out = String::new();
    let mut i: usize = 0;
    assert(texts(args@).take(0) =~= Seq::<Seq<char>>::empty());
    while i < args.len()
        invariant
            i <= args.len(),
            out@ == spaced(texts(args@).take(i as int)),
        decreases args.len() - i,
    {
        proof {
            let more = texts(args@).take(i + 1);
            assert(more.drop_last() =~= texts(args@).take(i as int));
            assert(more.last() == args@[i as int]@);
            if i == 0 {
                assert(more[0] == args@[0]@);
                assert(Seq::<char>::empty() + args@[0]@ =~= args@[0]@);
            }
        }
        if i > 0 {
            out.append(" ");
        }
        out.append(args[i].as_str());
        i += 1;
    }
    assert(texts(args@).take(args@.len() as int) =~= texts(args@));
    out
}

/// The command line behind `git` for running `args` as `account`.
/// `token` is what the secret store holds for the account.
pub fn git_arguments(account: &Account, token: Option<&str>, args: &Vec<String>) -> (r: Vec<
    String,
>)
    ensures
        texts(r@) == command_line(
            account@,
            match token {
                Some(t) => Some(t@),
                None => None,
            },
            texts(args@),
        ),
{
    let ghost token_view = match token {
        Some(t) => Some(t@),
        None => None,
    };
    let mut line: Vec<String> = Vec::new();
    push_text(&mut line, String::from_str("-c"));
    let mut name = String::from_str("user.name=");
    name.append(account.username.as_str());
    push_text(&mut line, name);
    push_text(&mut line, String::from_str("-c"));
    let mut email = String::from_str("user.email=");
    email.append(account.email.as_str());
    push_text(&mut line, email);
    match token {
        Some(secret) => {
            if !secret.is_empty() {
                push_text(&mut line, String::from_str("-c"));
                push_text(&mut line, String::from_str("credential.helper="));
                push_text(&mut line, String::from_str("-c"));
                let mut helper = String::from_str(
                    "credential.helper=!f() { echo \"username=",
                );
                helper.append(account.username.as_str());
                helper.append("\"; echo \"password=");
                helper.append(secret);
                helper.append("\"; }; f");
                push_text(&mut line, helper);
            }
        },
        None => {},
    }
    assert(texts(line@) =~= identity_arguments(account@, token_view));
    let ghost front = texts(line@);
    let mut i: usize = 0;
    assert(texts(line@) =~= front + texts(args@).take(0));
    while i < args.len()
        invariant
            i <= args.len(),
            texts(line@) == front + texts(args@).take(i as int),
        decreases args.len() - i,
    {
        push_text(&mut line, args[i].clone());
        proof {
            let all = texts(args@);
            assert(all.take(i + 1) =~= all.take(i as int).push(all[i as int]));
            assert(texts(line@) =~= front + all.take(i + 1));
        }
        i += 1;
    }
    assert(texts(args@).take(args@.len() as int) =~= texts(args@));
    line
}

/// The line that says what is run, and as whom.
pub fn run_announcement(account: &Account, args: &Vec<String>) -> (r: Vec<Span>)
    ensures
        line_view(r@) == announcement(account@, texts(args@)),
{
    let mut line: Vec<Span> = Vec::new();
    push_span(&mut line, plain("  "));
    push_span(&mut line, span("\u{21b7}", Style::plain().dimmed()));
    push_span(&mut line, plain(" git "));
    push_span(&mut line, span_owned(join_spaced(args), Style::plain()));
    push_span(&mut line, plain(" "));
    let mut whom = String::from_str("as ");
    whom.append(account.username.as_str());
    whom.append(" <");
    whom.append(account.email.as_str());
    whom.append(">");
    push_span(&mut line, span_owned(whom, Style::plain().dimmed()));
    assert(line_view(line@) =~= announcement(account@, texts(args@)));
    line
}

/// The complaint about a call without a git command.
pub fn usage_message() -> (r: Vec<Span>)
    ensures
        line_view(r@) == usage_line(),
{
    let mut line: Vec<Span> = Vec::new();
    push_span(&mut line, plain("\n  "));
    push_span(&mut line, span("\u{2717}", Style::hue(Hue::Red).bold()));
    push_span(&mut line, plain(" No git command provided. Usage: "));
    push_span(&mut line, span("gitas git <args...>", Style::hue(Hue::Cyan)));
    push_span(&mut line, plain("\n"));
    assert(line_view(line@) =~= usage_line());
    line
}

/// The exit code to leave with after git has run.
pub fn exit_code(success: bool, code: Option<i32>) -> (r: i32)
    ensures
        r == exit_code_of(success, code),
{
    if success {
        0
    } else {
        match code {
            Some(c) => c,
            None => 1,
        }
    }
}

/// Where the run of a git command stands.
#[derive(Clone, Copy, Debug, PartialEq, Eq, Structural)]
pub enum GitStage {
    /// The user is to pick the account.
    Pick,
    /// The account's token is looked up.
    Token,
    /// Git can be run.
    Ready,
    /// Git is not run.
    Stopped,
}

/// Why git is not run.
#[derive(Clone, Copy, Debug, PartialEq, Eq, Structural)]
pub enum Stop {
    /// No git command was given.
    NoCommand,
    /// There are no accounts to run it as.
    NoAccounts,
    /// No account goes by the name given.
    NoMatch,
    /// The user left the menu of accounts.
    Cancelled,
}

/// The state of a run.
#[derive(Debug, PartialEq, Eq)]
pub struct GitFlow {
    pub stage: GitStage,
    /// The account to run git as, once it is known.
    pub account: Option<Account>,
    pub token: Option<String>,
    /// Why git is not run, where it is not.
    pub stop: Option<Stop>,
}

/// What a [`GitFlow`] denotes.
pub ghost struct GitFlowView {
    pub stage: GitStage,
    pub account: Option<AccountView>,
    pub token: Option<Seq<char>>,
    pub stop: Option<Stop>,
}

impl View for GitFlow {
    type V = GitFlowView;

    open spec fn view(&self) -> GitFlowView {
        GitFlowView {
            stage: self.stage,
            account: match self.account {
                Some(a) => Some(a@),
                None => None,
            },
            token: opt_view(self.token),
            stop: self.stop,
        }
    }
}

/// A run that has stopped.
pub open spec fn stopped(why: Stop) -> GitFlowView {
    GitFlowView { stage: GitStage::Stopped, account: None, token: None, stop: Some(why) }
}

/// The run as it begins.  Without a command, without accounts, or with a
/// name that no account goes by, it has stopped at once.  With a name the
/// account is the first that goes by it; without one the user is to pick.
pub open spec fn git_begun(
    accounts: Seq<AccountView>,
    id: Option<Seq<char>>,
    args: Seq<Seq<char>>,
) -> GitFlowView {
    if args.len() == 0 {
        stopped(Stop::NoCommand)
    } else {
        match resolution(accounts, id) {
            Resolution::NoAccounts => stopped(Stop::NoAccounts),
            Resolution::NoMatch => stopped(Stop::NoMatch),
            Resolution::Found(i) => GitFlowView {
                stage: GitStage::Token,
                account: Some(accounts[i as int]),
                token: None,
                stop: None,
            },
            Resolution::Ask => GitFlowView {
                stage: GitStage::Pick,
                account: None,
                token: None,
                stop: None,
            },
        }
    }
}

/// The menu of accounts: one row for each, with its label.
pub open spec fn account_menu(accounts: Seq<AccountView>) -> PromptView {
    PromptView::Select {
        prompt: seq![span_of("  Run as"@, Style::plain())],
        items: Seq::new(
            accounts.len(),
            |i: int| seq![span_of(account_label(accounts[i]), Style::plain())],
        ),
        default: 0,
    }
}

/// What the run needs to know next; nothing once git can be run or the
/// run has stopped.
pub open spec fn git_request(flow: GitFlowView, accounts: Seq<AccountView>) -> Option<
    RequestView,
> {
    match flow.stage {
        GitStage::Pick => Some(RequestView::Ask(account_menu(accounts))),
        GitStage::Token => match flow.account {
            Some(account) => Some(
                RequestView::Token { key: key_of(account.username, account.alias) },
            ),
            None => None,
        },
        GitStage::Ready => None,
        GitStage::Stopped => None,
    }
}

/// The run after an answer.  A pick outside the menu, or none, stops the
/// run.
pub open spec fn git_next(
    flow: GitFlowView,
    accounts: Seq<AccountView>,
    answer: AnswerView,
) -> GitFlowView {
    match flow.stage {
        GitStage::Pick => match answer.index() {
            Some(i) => if i < accounts.len() {
                GitFlowView {
                    stage: GitStage::Token,
                    account: Some(accounts[i as int]),
                    ..flow
                }
            } else {
                stopped(Stop::Cancelled)
            },
            None => stopped(Stop::Cancelled),
        },
        GitStage::Token => GitFlowView { token: answer.text(), stage: GitStage::Ready, ..flow },
        GitStage::Ready => flow,
        GitStage::Stopped => flow,
    }
}

/// What is said before git is run: a warning where there is no token,
/// then what is run and as whom, then an empty line.
pub open spec fn run_lines(
    account: AccountView,
    token: Option<Seq<char>>,
    args: Seq<Seq<char>>,
) -> Seq<Seq<SpanView>> {
    (if has_token(token) {
        Seq::empty()
    } else {
        seq![no_token_line(account.username)]
    }) + seq![announcement(account, args), Seq::empty()]
}

/// What is said where git is not run.
pub open spec fn stop_lines(why: Stop, id: Option<Seq<char>>) -> Seq<Seq<SpanView>> {
    match why {
        Stop::NoCommand => seq![usage_line()],
        Stop::NoAccounts => no_accounts_lines(),
        Stop::NoMatch => seq![
            no_match_line(
                match id {
                    Some(name) => name,
                    None => Seq::empty(),
                },
            ),
        ],
        Stop::Cancelled => Seq::empty(),
    }
}

/// The exit code where git is not run: leaving the menu is no failure,
/// everything else is.
pub open spec fn stop_code(why: Stop) -> i32 {
    match why {
        Stop::Cancelled => 0,
        _ => 1,
    }
}

/// Whether what is said where git is not run goes to the error stream.
pub open spec fn stop_is_error(why: Stop) -> bool {
    why == Stop::NoCommand || why == Stop::NoMatch
}

/// What a run has come to.
#[derive(Debug, PartialEq, Eq)]
pub enum GitOutcome {
    /// Say the lines and run git with the arguments.
    Go { lines: Vec<Vec<Span>>, args: Vec<String> },
    /// Say the lines, on the error stream where `error` is set, and leave
    /// with the code.
    Stop { lines: Vec<Vec<Span>>, error: bool, code: i32 },
    /// The run still has a request to make.
    Pending,
}

/// What a [`GitOutcome`] denotes.
pub ghost enum GitOutcomeView {
    Go { lines: Seq<Seq<SpanView>>, args: Seq<Seq<char>> },
    Stop { lines: Seq<Seq<SpanView>>, error: bool, code: i32 },
    Pending,
}

impl View for GitOutcome {
    type V = GitOutcomeView;

    open spec fn view(&self) -> GitOutcomeView {
        match *self {
            GitOutcome::Go { lines, args } => GitOutcomeView::Go {
                lines: frame_view(lines@),
                args: texts(args@),
            },
            GitOutcome::Stop { lines, error, code } => GitOutcomeView::Stop {
                lines: frame_view(lines@),
                error,
                code,
            },
            GitOutcome::Pending => GitOutcomeView::Pending,
        }
    }
}

/// What a run has come to: git's command line and what to say before it,
/// or what to say and the code to leave with.
pub open spec fn git_outcome(
    flow: GitFlowView,
    id: Option<Seq<char>>,
    args: Seq<Seq<char>>,
) -> GitOutcomeView {
    match flow.stage {
        GitStage::Ready => match flow.account {
            Some(account) => GitOutcomeView::Go {
                lines: run_lines(account, flow.token, args),
                args: command_line(account, flow.token, args),
            },
            None => GitOutcomeView::Pending,
        },
        GitStage::Stopped => match flow.stop {
            Some(why) => GitOutcomeView::Stop {
                lines: stop_lines(why, id),
                error: stop_is_error(why),
                code: stop_code(why),
            },
            None => GitOutcomeView::Pending,
        },
        _ => GitOutcomeView::Pending,
    }
}

/// Begins the run of a git command as an account.  `account_id` is the
/// name that the account goes by, where the user gave one.
pub fn run(config: &Config, account_id: Option<&String>, args: &Vec<String>) -> (r: GitFlow)
    ensures
        r@ == git_begun(
            config@,
            match account_id {
                Some(id) => Some(id@),
                None => None,
            },
            texts(args@),
        ),
{
    let stop = if args.len() == 0 {
        Some(Stop::NoCommand)
    } else {
        match resolve_account(config, account_id) {
            Resolution::NoAccounts => Some(Stop::NoAccounts),
            Resolution::NoMatch => Some(Stop::NoMatch),
            Resolution::Found(i) => {
                return GitFlow {
                    stage: GitStage::Token,
                    account: Some(config.accounts[i].clone()),
                    token: None,
                    stop: None,
                };
            },
            Resolution::Ask => None,
        }
    };
    match stop {
        Some(why) => GitFlow {
            stage: GitStage::Stopped,
            account: None,
            token: None,
            stop: Some(why),
        },
        None => GitFlow { stage: GitStage::Pick, account: None, token: None, stop: None },
    }
}

/// One row for each text, without style.
fn plain_rows(names: &Vec<String>) -> (r: Vec<Vec<Span>>)
    ensures
        frame_view(r@) == Seq::new(
            names@.len(),
            |i: int| seq![span_of(texts(names@)[i], Style::plain())],
        ),
{
    let ghost rows = Seq::new(
        names@.len(),
        |i: int| seq![span_of(texts(names@)[i], Style::plain())],
    );
    let mut items: Vec<Vec<Span>> = Vec::new();
    let mut i: usize = 0;
    assert(frame_view(items@) =~= rows.take(0));
    while i < names.len()
        invariant
            i <= names.len(),
            rows == Seq::new(
                names@.len(),
                |i: int| seq![span_of(texts(names@)[i], Style::plain())],
            ),
            frame_view(items@) == rows.take(i as int),
        decreases names.len() - i,
    {
        let mut row: Vec<Span> = Vec::new();
        push_span(&mut row, plain(names[i].as_str()));
        proof {
            assert(line_view(row@) =~= rows[i as int]);
            assert(rows.take(i + 1) =~= rows.take(i as int).push(rows[i as int]));
        }
        push_line(&mut items, row);
        i += 1;
    }
    assert(rows.take(rows.len() as int) =~= rows);
    items
}

impl GitFlow {
    /// What the run needs to know next.
    pub fn request(&self, config: &Config) -> (r: Option<Request>)
        ensures
            request_view(r) == git_request(self@, config@),
    {
        match self.stage {
            GitStage::Pick => {
                let mut prompt: Vec<Span> = Vec::new();
                push_span(&mut prompt, plain("  Run as"));
                assert(line_view(prompt@) =~= seq![span_of("  Run as"@, Style::plain())]);
                let names = labels(config);
                let items = plain_rows(&names);
                assert(frame_view(items@) =~= account_menu(config@)->Select_items) by {
                    let rows = account_menu(config@)->Select_items;
                    assert(texts(names@).len() == config@.len());
                    assert forall|i: int| 0 <= i < rows.len() implies frame_view(items@)[i]
                        == rows[i] by {
                        assert(texts(names@)[i] == account_labels(config@)[i]);
                    }
                }
                Some(Request::Ask(Prompt::Select { prompt, items, default: 0 }))
            },
            GitStage::Token => match &self.account {
                Some(account) => Some(Request::Token { key: account.key() }),
                None => None,
            },
            GitStage::Ready => None,
            GitStage::Stopped => None,
        }
    }

    /// Takes the answer to the request made last.
    pub fn answer(&mut self, config: &Config, answer: Answer)
        ensures
            final(self)@ == git_next(old(self)@, config@, answer@),
    {
        match self.stage {
            GitStage::Pick => {
                let picked = match answer.index() {
                    Some(i) => if i < config.accounts.len() {
                        Some(config.accounts[i].clone())
                    } else {
                        None
                    },
                    None => None,
                };
                match picked {
                    Some(account) => {
                        self.account = Some(account);
                        self.stage = GitStage::Token;
                    },
                    None => {
                        self.account = None;
                        self.token = None;
                        self.stop = Some(Stop::Cancelled);
                        self.stage = GitStage::Stopped;
                    },
                }
            },
            GitStage::Token => {
                self.token = answer.into_value();
                self.stage = GitStage::Ready;
            },
            GitStage::Ready => {},
            GitStage::Stopped => {},
        }
    }

    /// What the run has come to.  `account_id` and `args` are what the run
    /// was begun with.
    pub fn outcome(&self, account_id: Option<&String>, args: &Vec<String>) -> (r: GitOutcome)
        ensures
            r@ == git_outcome(
                self@,
                match account_id {
                    Some(id) => Some(id@),
                    None => None,
                },
                texts(args@),
            ),
    {
        match self.stage {
            GitStage::Ready => match &self.account {
                Some(account) => {
                    let mut lines: Vec<Vec<Span>> = Vec::new();
                    assert(frame_view(lines@) =~= Seq::<Seq<SpanView>>::empty());
                    if !token_present(&self.token) {
                        push_line(&mut lines, no_token_warning(account.username.as_str()));
                    }
                    push_line(&mut lines, run_announcement(account, args));
                    let blank: Vec<Span> = Vec::new();
                    assert(line_view(blank@) =~= Seq::<SpanView>::empty());
                    push_line(&mut lines, blank);
                    assert(frame_view(lines@) =~= run_lines(
                        account@,
                        opt_view(self.token),
                        texts(args@),
                    ));
                    let token = match &self.token {
                        Some(t) => Some(t.as_str()),
                        None => None,
                    };
                    GitOutcome::Go { lines, args: git_arguments(account, token, args) }
                },
                None => GitOutcome::Pending,
            },
            GitStage::Stopped => match self.stop {
                Some(why) => {
                    let mut lines: Vec<Vec<Span>> = Vec::new();
                    assert(frame_view(lines@) =~= Seq::<Seq<SpanView>>::empty());
                    let mut error = false;
                    let mut code: i32 = 1;
                    match why {
                        Stop::NoCommand => {
                            push_line(&mut lines, usage_message());
                            error = true;
                            assert(frame_view(lines@) =~= seq![usage_line()]);
                        },
                        Stop::NoAccounts => {
                            lines = no_accounts_message();
                        },
                        Stop::NoMatch => {
                            match account_id {
                                Some(id) => {
                                    push_line(&mut lines, no_match_message(id.as_str()));
                                    assert(frame_view(lines@) =~= seq![no_match_line(id@)]);
                                },
                                None => {
                                    proof {
                                        reveal_strlit("");
                                        assert(""@ =~= Seq::<char>::empty());
                                    }
                                    push_line(&mut lines, no_match_message(""));
                                    assert(frame_view(lines@) =~= seq![
                                        no_match_line(Seq::empty()),
                                    ]);
                                },
                            }
                            error = true;
                        },
                        Stop::Cancelled => {
                            code = 0;
                        },
                    }
                    GitOutcome::Stop { lines, error, code }
                },
                None => GitOutcome::Pending,
            },
            _ => GitOutcome::Pending,
        }
    }
}

} // verus!
