//! Adding an account: the questions in their order, and what the answers
//! lead to.  An account is identified by its username and alias; adding
//! one that the list holds already overwrites that entry, after the user
//! has agreed.

use vstd::prelude::*;
use crate::commands::edit::{host_to_store, non_empty, non_empty_text, stored_host};
use crate::effects::{
    Answer, AnswerView, Effect, EffectView, Prompt, PromptView, Request, RequestView,
    effects_view, push_effect, request_view,
};
use crate::models::{
    Account, AccountView, Config, count_with_key, existing_index, first_with_key, key_of,
    lemma_first_with_key, upserted,
};
use crate::style::{
    Hue, Span, SpanView, Style, frame_view, line_view, plain, push_line, push_span, span,
    span_of, span_owned,
};
use crate::text::{opt_view, repeat_str, repeated};
use crate::utils::{DEFAULT_HOST, default_host};

verus! {

/// How the new account's data is obtained.
#[derive(Clone, Copy, Debug, PartialEq, Eq, Structural)]
pub enum AddMethod {
    /// The user types it.
    Manual,
    /// GitHub gives it after a login in the browser.
    Github,
}

/// Where an add flow stands: the question that is asked next, or how the
/// flow ended.
#[derive(Clone, Copy, Debug, PartialEq, Eq, Structural)]
pub enum AddStage {
    /// How the account's data is to be obtained.
    Method,
    /// The login at GitHub.
    Login,
    Username,
    Email,
    Alias,
    /// The account exists: may it be overwritten?
    Overwrite,
    Token,
    Host,
    /// All answers are in; the account can be written.
    Ready,
    /// The user gave up; nothing is written.
    Aborted,
}

/// The state of an add flow.
#[derive(Debug, PartialEq, Eq)]
pub struct AddFlow {
    pub method: AddMethod,
    pub stage: AddStage,
    pub username: String,
    pub email: String,
    pub alias: Option<String>,
    /// Where the list holds the account already.
    pub existing: Option<usize>,
    pub token: String,
    pub host: Option<String>,
}

/// What an [`AddFlow`] denotes.
pub ghost struct AddFlowView {
    pub method: AddMethod,
    pub stage: AddStage,
    pub username: Seq<char>,
    pub email: Seq<char>,
    pub alias: Option<Seq<char>>,
    pub existing: Option<usize>,
    pub token: Seq<char>,
    pub host: Option<Seq<char>>,
}

impl View for AddFlow {
    type V = AddFlowView;

    open spec fn view(&self) -> AddFlowView {
        AddFlowView {
            method: self.method,
            stage: self.stage,
            username: self.username@,
            email: self.email@,
            alias: opt_view(self.alias),
            existing: self.existing,
            token: self.token@,
            host: opt_view(self.host),
        }
    }
}

impl AddFlowView {
    /// The account that the flow has gathered.
    pub open spec fn account(self) -> AccountView {
        AccountView {
            username: self.username,
            email: self.email,
            alias: self.alias,
            host: self.host,
        }
    }
}

/// The lines above the first question.
pub open spec fn add_heading() -> Seq<Seq<SpanView>> {
    seq![
        Seq::empty(),
        seq![
            span_of("  "@, Style::plain()),
            span_of("Add Git Account"@, Style::plain().bold()),
        ],
        seq![
            span_of("  "@, Style::plain()),
            span_of(repeated("\u{2500}"@, 48), Style::plain().dimmed()),
        ],
        Seq::empty(),
    ]
}

/// The question for the method.
pub open spec fn method_question() -> PromptView {
    PromptView::Select {
        prompt: seq![span_of("Authentication Method"@, Style::plain())],
        items: seq![
            seq![span_of("Manual Input"@, Style::plain())],
            seq![span_of("GitHub Browser Login"@, Style::plain())],
        ],
        default: 0,
    }
}

/// The method that was picked, if one was.
pub open spec fn method_of(selection: Option<usize>) -> Option<AddMethod> {
    match selection {
        Some(i) => if i == 0 {
            Some(AddMethod::Manual)
        } else if i == 1 {
            Some(AddMethod::Github)
        } else {
            None
        },
        None => None,
    }
}

/// The question whether an account that exists may be overwritten.
pub open spec fn overwrite_question(username: Seq<char>, alias: Option<Seq<char>>) -> Seq<
    SpanView,
> {
    seq![
        span_of("Account '"@, Style::plain()),
        span_of(username, Style::hue(Hue::Yellow)),
        span_of("' (alias: "@, Style::plain()),
        span_of(
            match alias {
                Some(a) => a,
                None => "none"@,
            },
            Style::hue(Hue::Yellow),
        ),
        span_of(") already exists. Overwrite?"@, Style::plain()),
    ]
}

/// The line that says who has logged in.
pub open spec fn authenticated_line(username: Seq<char>, email: Seq<char>) -> Seq<SpanView> {
    seq![
        span_of("  Authenticated as: "@, Style::plain()),
        span_of(username, Style::hue(Hue::Cyan)),
        span_of(" <"@, Style::plain()),
        span_of(email, Style::plain().dimmed()),
        span_of(">"@, Style::plain()),
    ]
}

/// What a flow needs to know next; nothing once it has ended.
pub open spec fn add_request(flow: AddFlowView) -> Option<RequestView> {
    match flow.stage {
        AddStage::Method => Some(RequestView::Ask(method_question())),
        AddStage::Login => Some(RequestView::Login),
        AddStage::Username => Some(
            RequestView::Ask(PromptView::Input { prompt: "Username"@, default: Seq::empty() }),
        ),
        AddStage::Email => Some(
            RequestView::Ask(PromptView::Input { prompt: "Email"@, default: Seq::empty() }),
        ),
        AddStage::Alias => Some(
            RequestView::Ask(
                PromptView::Input { prompt: "Alias (optional)"@, default: Seq::empty() },
            ),
        ),
        AddStage::Overwrite => Some(
            RequestView::Ask(
                PromptView::Confirm {
                    prompt: overwrite_question(flow.username, flow.alias),
                    default: false,
                },
            ),
        ),
        AddStage::Token => Some(
            RequestView::Ask(PromptView::Password { prompt: "Token/PAT (optional)"@ }),
        ),
        AddStage::Host => Some(
            RequestView::Ask(PromptView::Input { prompt: "Host"@, default: default_host() }),
        ),
        AddStage::Ready => None,
        AddStage::Aborted => None,
    }
}

/// The stage that follows once it is settled that the account may be
/// written: a manual flow goes on to ask for the token, a login has
/// brought everything.
pub open spec fn stage_after_key(method: AddMethod) -> AddStage {
    match method {
        AddMethod::Manual => AddStage::Token,
        AddMethod::Github => AddStage::Ready,
    }
}

/// The flow after an answer.  Without a method the flow is over, and so
/// it is after a login that failed.  Username and email are required: without
/// one the flow is over.  The alias is optional, and with it the account's
/// key is known: where `accounts` holds it already the flow asks before it
/// overwrites, and anything but a yes ends it.  Token and host are
/// optional; a host left open is the default host.
pub open spec fn add_next(
    flow: AddFlowView,
    accounts: Seq<AccountView>,
    answer: AnswerView,
) -> AddFlowView {
    match flow.stage {
        AddStage::Method => match method_of(answer.index()) {
            Some(AddMethod::Manual) => AddFlowView {
                method: AddMethod::Manual,
                stage: AddStage::Username,
                ..flow
            },
            Some(AddMethod::Github) => AddFlowView {
                method: AddMethod::Github,
                stage: AddStage::Login,
                ..flow
            },
            None => AddFlowView { stage: AddStage::Aborted, ..flow },
        },
        AddStage::Login => match answer.login() {
            Some(login) => AddFlowView {
                username: login.username,
                email: login.email,
                token: login.token,
                stage: AddStage::Alias,
                ..flow
            },
            None => AddFlowView { stage: AddStage::Aborted, ..flow },
        },
        AddStage::Username => match non_empty(answer.text_or_empty()) {
            Some(username) => AddFlowView { username, stage: AddStage::Email, ..flow },
            None => AddFlowView { stage: AddStage::Aborted, ..flow },
        },
        AddStage::Email => match non_empty(answer.text_or_empty()) {
            Some(email) => AddFlowView { email, stage: AddStage::Alias, ..flow },
            None => AddFlowView { stage: AddStage::Aborted, ..flow },
        },
        AddStage::Alias => {
            let alias = non_empty(answer.text_or_empty());
            let existing = match existing_index(accounts, flow.username, alias) {
                Some(i) => Some(i as usize),
                None => None,
            };
            AddFlowView {
                alias,
                existing,
                stage: if existing is Some {
                    AddStage::Overwrite
                } else {
                    stage_after_key(flow.method)
                },
                ..flow
            }
        },
        AddStage::Overwrite => if answer.is_yes() {
            AddFlowView { stage: stage_after_key(flow.method), ..flow }
        } else {
            AddFlowView { stage: AddStage::Aborted, ..flow }
        },
        AddStage::Token => AddFlowView {
            token: answer.text_or_empty(),
            stage: AddStage::Host,
            ..flow
        },
        AddStage::Host => AddFlowView {
            host: match answer.text() {
                Some(text) => stored_host(text),
                None => None,
            },
            stage: AddStage::Ready,
            ..flow
        },
        AddStage::Ready => flow,
        AddStage::Aborted => flow,
    }
}

/// The line shown when the user declines to overwrite.
pub open spec fn cancelled_line() -> Seq<SpanView> {
    seq![
        span_of("\n  "@, Style::plain()),
        span_of("Cancelled."@, Style::plain().dimmed()),
        span_of("\n"@, Style::plain()),
    ]
}

/// What is shown after an answer: who has logged in, or a line where the
/// user declined to overwrite, else nothing.
pub open spec fn add_notice(flow: AddFlowView, answer: AnswerView) -> Option<Seq<SpanView>> {
    if flow.stage == AddStage::Overwrite && !answer.is_yes() {
        Some(cancelled_line())
    } else if flow.stage == AddStage::Login && answer.login() is Some {
        Some(authenticated_line(answer.login()->0.username, answer.login()->0.email))
    } else {
        None
    }
}

/// The line that reports that the account was written.
pub open spec fn written_line(username: Seq<char>, updated: bool) -> Seq<SpanView> {
    seq![
        span_of("\n  "@, Style::plain()),
        span_of("\u{2713}"@, Style::hue(Hue::Green).bold()),
        span_of(" Account '"@, Style::plain()),
        span_of(username, Style::hue(Hue::Cyan)),
        span_of(
            if updated {
                "' updated successfully.\n"@
            } else {
                "' added successfully.\n"@
            },
            Style::plain(),
        ),
    ]
}

/// What writing the gathered account does outside the list: the token is
/// stored under the account's key, and the list is saved.  A manual flow
/// without a token deletes what the store may hold under the key.
pub open spec fn add_effects(flow: AddFlowView) -> Seq<EffectView> {
    let key = key_of(flow.username, flow.alias);
    seq![
        if flow.method == AddMethod::Manual && flow.token.len() == 0 {
            EffectView::DeleteToken { key }
        } else {
            EffectView::StoreToken { key, secret: flow.token }
        },
        EffectView::SaveConfig,
    ]
}

/// The list after `account` has been added: written over the first entry
/// with its key where there is one and the user agreed, left alone where
/// the user did not, and appended where the key is new.
pub open spec fn added(accounts: Seq<AccountView>, account: AccountView, agreed: bool) -> Seq<
    AccountView,
> {
    match existing_index(accounts, account.username, account.alias) {
        Some(i) => if agreed {
            accounts.update(i, account)
        } else {
            accounts
        },
        None => accounts.push(account),
    }
}

/// The lines above the first question.
pub fn add_header() -> (r: Vec<Vec<Span>>)
    ensures
        frame_view(r@) == add_heading(),
{
    let mut lines: Vec<Vec<Span>> = Vec::new();
    let blank: Vec<Span> = Vec::new();
    assert(line_view(blank@) =~= Seq::<SpanView>::empty());
    push_line(&mut lines, blank);
    let mut title: Vec<Span> = Vec::new();
    push_span(&mut title, plain("  "));
    push_span(&mut title, span("Add Git Account", Style::plain().bold()));
    assert(line_view(title@) =~= add_heading()[1]);
    push_line(&mut lines, title);
    let mut rule: Vec<Span> = Vec::new();
    push_span(&mut rule, plain("  "));
    push_span(&mut rule, span_owned(repeat_str("\u{2500}", 48), Style::plain().dimmed()));
    assert(line_view(rule@) =~= add_heading()[2]);
    push_line(&mut lines, rule);
    let blank: Vec<Span> = Vec::new();
    assert(line_view(blank@) =~= Seq::<SpanView>::empty());
    push_line(&mut lines, blank);
    assert(frame_view(lines@) =~= add_heading());
    lines
}

/// The question for the method.
pub fn method_prompt() -> (r: Prompt)
    ensures
        r@ == method_question(),
{
    let mut prompt: Vec<Span> = Vec::new();
    push_span(&mut prompt, plain("Authentication Method"));
    assert(line_view(prompt@) =~= seq![span_of("Authentication Method"@, Style::plain())]);
    let mut items: Vec<Vec<Span>> = Vec::new();
    let mut manual: Vec<Span> = Vec::new();
    push_span(&mut manual, plain("Manual Input"));
    assert(line_view(manual@) =~= seq![span_of("Manual Input"@, Style::plain())]);
    push_line(&mut items, manual);
    let mut github: Vec<Span> = Vec::new();
    push_span(&mut github, plain("GitHub Browser Login"));
    assert(line_view(github@) =~= seq![span_of("GitHub Browser Login"@, Style::plain())]);
    push_line(&mut items, github);
    assert(frame_view(items@) =~= seq![
        seq![span_of("Manual Input"@, Style::plain())],
        seq![span_of("GitHub Browser Login"@, Style::plain())],
    ]);
    Prompt::Select { prompt, items, default: 0 }
}

/// The method that was picked.
pub fn method_choice(selection: Option<usize>) -> (r: Option<AddMethod>)
    ensures
        r == method_of(selection),
{
    match selection {
        Some(0) => Some(AddMethod::Manual),
        Some(1) => Some(AddMethod::Github),
        _ => None,
    }
}

/// The line that reports that the account was written.
pub fn written_message(username: &str, updated: bool) -> (r: Vec<Span>)
    ensures
        line_view(r@) == written_line(username@, updated),
{
    let mut line: Vec<Span> = Vec::new();
    push_span(&mut line, plain("\n  "));
    push_span(&mut line, span("\u{2713}", Style::hue(Hue::Green).bold()));
    push_span(&mut line, plain(" Account '"));
    push_span(&mut line, span(username, Style::hue(Hue::Cyan)));
    if updated {
        push_span(&mut line, plain("' updated successfully.\n"));
    } else {
        push_span(&mut line, plain("' added successfully.\n"));
    }
    assert(line_view(line@) =~= written_line(username@, updated));
    line
}

/// Writes `account` at `index`, or appends it where there is no index,
/// and gives the line that reports it.  The caller saves the list.
pub fn upsert_account_raw(config: &mut Config, account: Account, index: Option<usize>) -> (r:
    Vec<Span>)
    requires
        index is Some ==> index->0 < old(config)@.len(),
    ensures
        final(config)@ == upserted(
            old(config)@,
            account@,
            match index {
                Some(i) => Some(i as int),
                None => None,
            },
        ),
        line_view(r@) == written_line(account@.username, index is Some),
{
    let message = written_message(account.username.as_str(), index.is_some());
    config.upsert(account, index);
    message
}

/// What an add flow leaves behind when it has written its account.
#[derive(Debug, PartialEq, Eq)]
pub struct AddOutcome {
    /// What to do, in this order.
    pub effects: Vec<Effect>,
    /// What to show.
    pub message: Vec<Span>,
}

/// The add command as it begins: the method is asked for first.
pub open spec fn add_begun() -> AddFlowView {
    AddFlowView { stage: AddStage::Method, ..manual_begun() }
}

/// Begins the add command.  The flow asks for the method, then for the
/// account's data, and is concluded with [`AddFlow::finish`].
pub fn run() -> (r: AddFlow)
    ensures
        r@ == add_begun(),
{
    AddFlow {
        method: AddMethod::Manual,
        stage: AddStage::Method,
        username: String::new(),
        email: String::new(),
        alias: None,
        existing: None,
        token: String::new(),
        host: None,
    }
}

impl AddFlow {
    /// A flow in which the user types everything.
    pub fn manual() -> (r: AddFlow)
        ensures
            r@ == manual_begun(),
    {
        AddFlow {
            method: AddMethod::Manual,
            stage: AddStage::Username,
            username: String::new(),
            email: String::new(),
            alias: None,
            existing: None,
            token: String::new(),
            host: None,
        }
    }

    /// A flow after a login: username, email and token are known, and the
    /// host is the default host.  Only the alias is asked for.
    pub fn github(username: String, email: String, token: String) -> (r: AddFlow)
        ensures
            r@ == (AddFlowView {
                method: AddMethod::Github,
                stage: AddStage::Alias,
                username: username@,
                email: email@,
                alias: None,
                existing: None,
                token: token@,
                host: None,
            }),
    {
        AddFlow {
            method: AddMethod::Github,
            stage: AddStage::Alias,
            username,
            email,
            alias: None,
            existing: None,
            token,
            host: None,
        }
    }

    /// What the flow needs to know next; nothing once it has ended.
    pub fn request(&self) -> (r: Option<Request>)
        ensures
            request_view(r) == add_request(self@),
    {
        match self.stage {
            AddStage::Method => Some(Request::Ask(method_prompt())),
            AddStage::Login => Some(Request::Login),
            AddStage::Username => Some(
                Request::Ask(
                    Prompt::Input { prompt: String::from_str("Username"), default: String::new() },
                ),
            ),
            AddStage::Email => Some(
                Request::Ask(
                    Prompt::Input { prompt: String::from_str("Email"), default: String::new() },
                ),
            ),
            AddStage::Alias => Some(
                Request::Ask(
                    Prompt::Input {
                        prompt: String::from_str("Alias (optional)"),
                        default: String::new(),
                    },
                ),
            ),
            AddStage::Overwrite => {
                let mut prompt: Vec<Span> = Vec::new();
                push_span(&mut prompt, plain("Account '"));
                push_span(&mut prompt, span(self.username.as_str(), Style::hue(Hue::Yellow)));
                push_span(&mut prompt, plain("' (alias: "));
                match &self.alias {
                    Some(a) => {
                        push_span(&mut prompt, span(a.as_str(), Style::hue(Hue::Yellow)));
                    },
                    None => {
                        push_span(&mut prompt, span("none", Style::hue(Hue::Yellow)));
                    },
                }
                push_span(&mut prompt, plain(") already exists. Overwrite?"));
                assert(line_view(prompt@) =~= overwrite_question(self@.username, self@.alias));
                Some(Request::Ask(Prompt::Confirm { prompt, default: false }))
            },
            AddStage::Token => Some(
                Request::Ask(
                    Prompt::Password { prompt: String::from_str("Token/PAT (optional)") },
                ),
            ),
            AddStage::Host => Some(
                Request::Ask(
                    Prompt::Input {
                        prompt: String::from_str("Host"),
                        default: String::from_str(DEFAULT_HOST),
                    },
                ),
            ),
            AddStage::Ready => None,
            AddStage::Aborted => None,
        }
    }

    /// Takes the answer to the question asked last, and gives the line to
    /// show in return where there is one.
    pub fn answer(&mut self, config: &Config, answer: Answer) -> (r: Option<Vec<Span>>)
        ensures
            final(self)@ == add_next(old(self)@, config@, answer@),
            match r {
                Some(line) => add_notice(old(self)@, answer@) == Some(line_view(line@)),
                None => add_notice(old(self)@, answer@) is None,
            },
    {
        match self.stage {
            AddStage::Method => {
                match method_choice(answer.index()) {
                    Some(AddMethod::Manual) => {
                        self.method = AddMethod::Manual;
                        self.stage = AddStage::Username;
                    },
                    Some(AddMethod::Github) => {
                        self.method = AddMethod::Github;
                        self.stage = AddStage::Login;
                    },
                    None => {
                        self.stage = AddStage::Aborted;
                    },
                }
                None
            },
            AddStage::Login => {
                match answer.into_login() {
                    Some(login) => {
                        let mut line: Vec<Span> = Vec::new();
                        push_span(&mut line, plain("  Authenticated as: "));
                        push_span(
                            &mut line,
                            span(login.username.as_str(), Style::hue(Hue::Cyan)),
                        );
                        push_span(&mut line, plain(" <"));
                        push_span(&mut line, span(login.email.as_str(), Style::plain().dimmed()));
                        push_span(&mut line, plain(">"));
                        assert(line_view(line@) =~= authenticated_line(
                            login@.username,
                            login@.email,
                        ));
                        self.username = login.username;
                        self.email = login.email;
                        self.token = login.token;
                        self.stage = AddStage::Alias;
                        Some(line)
                    },
                    None => {
                        self.stage = AddStage::Aborted;
                        None
                    },
                }
            },
            AddStage::Username => {
                match non_empty_text(answer.into_text()) {
                    Some(username) => {
                        self.username = username;
                        self.stage = AddStage::Email;
                    },
                    None => {
                        self.stage = AddStage::Aborted;
                    },
                }
                None
            },
            AddStage::Email => {
                match non_empty_text(answer.into_text()) {
                    Some(email) => {
                        self.email = email;
                        self.stage = AddStage::Alias;
                    },
                    None => {
                        self.stage = AddStage::Aborted;
                    },
                }
                None
            },
            AddStage::Alias => {
                self.alias = non_empty_text(answer.into_text());
                self.existing = config.position(&self.username, &self.alias);
                self.stage = if self.existing.is_some() {
                    AddStage::Overwrite
                } else {
                    self.next_stage()
                };
                None
            },
            AddStage::Overwrite => {
                if answer.is_yes() {
                    self.stage = self.next_stage();
                    None
                } else {
                    self.stage = AddStage::Aborted;
                    let mut line: Vec<Span> = Vec::new();
                    push_span(&mut line, plain("\n  "));
                    push_span(&mut line, span("Cancelled.", Style::plain().dimmed()));
                    push_span(&mut line, plain("\n"));
                    assert(line_view(line@) =~= cancelled_line());
                    Some(line)
                }
            },
            AddStage::Token => {
                self.token = answer.into_text();
                self.stage = AddStage::Host;
                None
            },
            AddStage::Host => {
                self.host = match answer {
                    Answer::Text(Some(text)) => host_to_store(text),
                    _ => None,
                };
                self.stage = AddStage::Ready;
                None
            },
            AddStage::Ready => None,
            AddStage::Aborted => None,
        }
    }

    fn next_stage(&self) -> (r: AddStage)
        ensures
            r == stage_after_key(self.method),
    {
        match self.method {
            AddMethod::Manual => AddStage::Token,
            AddMethod::Github => AddStage::Ready,
        }
    }

    /// Whether the gathered account can be written: all answers are in,
    /// and the entry to overwrite, if any, is still on the list.
    pub open spec fn can_finish(&self, accounts: Seq<AccountView>) -> bool {
        &&& self.stage == AddStage::Ready
        &&& self.existing is Some ==> self.existing->0 < accounts.len()
    }

    /// Writes the gathered account into the list: over the entry found
    /// when the alias was given, or at the end.  The effects store the
    /// token and save the list.  Nothing is written, and nothing comes
    /// back, while answers are missing or after the user gave up.
    pub fn finish(self, config: &mut Config) -> (r: Option<AddOutcome>)
        ensures
            r is Some <==> self.can_finish(old(config)@),
            r is Some ==> {
                &&& final(config)@ == upserted(
                    old(config)@,
                    self@.account(),
                    match self.existing {
                        Some(i) => Some(i as int),
                        None => None,
                    },
                )
                &&& effects_view(r->0.effects@) == add_effects(self@)
                &&& line_view(r->0.message@) == written_line(
                    self@.username,
                    self.existing is Some,
                )
            },
            r is None ==> final(config)@ == old(config)@,
    {
        match self.stage {
            AddStage::Ready => {},
            _ => {
                return None;
            },
        }
        match self.existing {
            Some(index) => {
                if index >= config.accounts.len() {
                    return None;
                }
            },
            None => {},
        }
        let mut effects: Vec<Effect> = Vec::new();
        let key = match &self.alias {
            Some(a) => crate::models::make_key(self.username.as_str(), Some(a.as_str())),
            None => crate::models::make_key(self.username.as_str(), None),
        };
        let manual = match self.method {
            AddMethod::Manual => true,
            AddMethod::Github => false,
        };
        if manual && self.token.as_str().is_empty() {
            push_effect(&mut effects, Effect::DeleteToken { key });
        } else {
            push_effect(&mut effects, Effect::StoreToken { key, secret: self.token });
        }
        push_effect(&mut effects, Effect::SaveConfig);
        assert(effects_view(effects@) =~= add_effects(self@));
        let account = Account {
            username: self.username,
            email: self.email,
            alias: self.alias,
            host: self.host,
        };
        let message = upsert_account_raw(config, account, self.existing);
        Some(AddOutcome { effects, message })
    }
}

/// Writing an account where [`existing_index`] has found its key, or at
/// the end where it has found none, is adding it with consent.
pub proof fn lemma_upsert_at_existing(accounts: Seq<AccountView>, account: AccountView)
    ensures
        upserted(
            accounts,
            account,
            existing_index(accounts, account.username, account.alias),
        ) == added(accounts, account, true),
{
}

/// Where the entry at `index` has the key and none before it has, `index`
/// is the first position with the key; where no entry at all has the key,
/// that position is the length of the list.
pub proof fn lemma_first_with_key_is(
    accounts: Seq<AccountView>,
    username: Seq<char>,
    alias: Option<Seq<char>>,
    index: int,
)
    requires
        0 <= index <= accounts.len(),
        index < accounts.len() ==> accounts[index].has_key(username, alias),
        forall|j: int| 0 <= j < index ==> !(#[trigger] accounts[j]).has_key(username, alias),
    ensures
        first_with_key(accounts, username, alias) == index,
{
    lemma_first_with_key(accounts, username, alias);
    let first = first_with_key(accounts, username, alias);
    if first < index {
        assert(accounts[first].has_key(username, alias));
    }
}

/// A list in which no entry has the key counts none with it.
pub proof fn lemma_count_none(
    accounts: Seq<AccountView>,
    username: Seq<char>,
    alias: Option<Seq<char>>,
)
    requires
        forall|j: int|
            0 <= j < accounts.len() ==> !(#[trigger] accounts[j]).has_key(username, alias),
    ensures
        count_with_key(accounts, username, alias) == 0,
    decreases accounts.len(),
{
    if accounts.len() > 0 {
        let rest = accounts.drop_last();
        assert forall|j: int| 0 <= j < rest.len() implies !(#[trigger] rest[j]).has_key(
            username,
            alias,
        ) by {
            assert(rest[j] == accounts[j]);
        }
        lemma_count_none(rest, username, alias);
        assert(!accounts[accounts.len() - 1].has_key(username, alias));
    }
}

/// Writing an entry with the key over an entry with the key leaves the
/// number of entries with the key as it was.
pub proof fn lemma_count_update(
    accounts: Seq<AccountView>,
    index: int,
    account: AccountView,
    username: Seq<char>,
    alias: Option<Seq<char>>,
)
    requires
        0 <= index < accounts.len(),
        accounts[index].has_key(username, alias),
        account.has_key(username, alias),
    ensures
        count_with_key(accounts.update(index, account), username, alias) == count_with_key(
            accounts,
            username,
            alias,
        ),
    decreases accounts.len(),
{
    let written = accounts.update(index, account);
    if index == accounts.len() - 1 {
        assert(written.drop_last() =~= accounts.drop_last());
    } else {
        assert(written.drop_last() =~= accounts.drop_last().update(index, account));
        assert(written.last() == accounts.last());
        lemma_count_update(accounts.drop_last(), index, account, username, alias);
    }
}

/// Adding an account whose key is new appends it, and the list then holds
/// the key exactly once.
pub proof fn lemma_add_new(accounts: Seq<AccountView>, account: AccountView, agreed: bool)
    requires
        existing_index(accounts, account.username, account.alias) is None,
    ensures
        added(accounts, account, agreed) == accounts.push(account),
        count_with_key(added(accounts, account, agreed), account.username, account.alias) == 1,
{
    lemma_first_with_key(accounts, account.username, account.alias);
    lemma_count_none(accounts, account.username, account.alias);
    assert(accounts.push(account).drop_last() =~= accounts);
}

/// Adding an account whose key the list holds, with the user's consent,
/// writes it over the first entry with that key: the list keeps its
/// length, the entry has the new values, and the key is on the list as
/// often as before.
pub proof fn lemma_add_existing(accounts: Seq<AccountView>, account: AccountView)
    requires
        existing_index(accounts, account.username, account.alias) is Some,
    ensures
        ({
            let index = existing_index(accounts, account.username, account.alias)->0;
            let after = added(accounts, account, true);
            &&& after.len() == accounts.len()
            &&& after[index] == account
            &&& forall|j: int| 0 <= j < accounts.len() && j != index ==> after[j] == accounts[j]
            &&& count_with_key(after, account.username, account.alias) == count_with_key(
                accounts,
                account.username,
                account.alias,
            )
        }),
{
    lemma_first_with_key(accounts, account.username, account.alias);
    let index = first_with_key(accounts, account.username, account.alias);
    lemma_count_update(accounts, index, account, account.username, account.alias);
}

/// Declining to overwrite leaves the list as it was: the entry is
/// untouched and nothing is appended.
pub proof fn lemma_add_declined(accounts: Seq<AccountView>, account: AccountView)
    requires
        existing_index(accounts, account.username, account.alias) is Some,
    ensures
        added(accounts, account, false) == accounts,
{
}

/// Adding two accounts with the same key, one after the other and with
/// consent to overwrite, to a list that did not hold the key leaves one
/// entry for the key, with the values given last.
pub proof fn lemma_add_twice(
    accounts: Seq<AccountView>,
    first: AccountView,
    second: AccountView,
    agreed: bool,
)
    requires
        existing_index(accounts, first.username, first.alias) is None,
        second.has_key(first.username, first.alias),
    ensures
        added(added(accounts, first, agreed), second, true) == accounts.push(second),
        count_with_key(
            added(added(accounts, first, agreed), second, true),
            first.username,
            first.alias,
        ) == 1,
{
    lemma_add_new(accounts, first, agreed);
    lemma_first_with_key(accounts, first.username, first.alias);
    let once = accounts.push(first);
    assert forall|j: int| 0 <= j < accounts.len() implies !(#[trigger] once[j]).has_key(
        first.username,
        first.alias,
    ) by {
        assert(once[j] == accounts[j]);
    }
    lemma_first_with_key_is(once, first.username, first.alias, accounts.len() as int);
    assert(once.update(accounts.len() as int, second) =~= accounts.push(second));
    lemma_count_none(accounts, first.username, first.alias);
    assert(accounts.push(second).drop_last() =~= accounts);
}

/// Adding the same account a second time, with consent, changes nothing
/// more: whatever the list held, one add and two adds give the same list.
pub proof fn lemma_add_idempotent(accounts: Seq<AccountView>, account: AccountView)
    ensures
        added(added(accounts, account, true), account, true) == added(accounts, account, true),
{
    lemma_first_with_key(accounts, account.username, account.alias);
    let first = first_with_key(accounts, account.username, account.alias);
    let once = added(accounts, account, true);
    assert forall|j: int| 0 <= j < first implies !(#[trigger] once[j]).has_key(
        account.username,
        account.alias,
    ) by {
        assert(once[j] == accounts[j]);
    }
    lemma_first_with_key_is(once, account.username, account.alias, first);
    assert(once.update(first, account) =~= once);
}

/// An add flow that has not asked anything yet, for a user who types
/// everything.
pub open spec fn manual_begun() -> AddFlowView {
    AddFlowView {
        method: AddMethod::Manual,
        stage: AddStage::Username,
        username: Seq::empty(),
        email: Seq::empty(),
        alias: None,
        existing: None,
        token: Seq::empty(),
        host: None,
    }
}

/// The flow after the answers have been taken one after the other.
pub open spec fn add_run(
    flow: AddFlowView,
    accounts: Seq<AccountView>,
    answers: Seq<AnswerView>,
) -> AddFlowView
    decreases answers.len(),
{
    if answers.len() == 0 {
        flow
    } else {
        add_next(add_run(flow, accounts, answers.drop_last()), accounts, answers.last())
    }
}

proof fn lemma_add_run_push(
    flow: AddFlowView,
    accounts: Seq<AccountView>,
    answers: Seq<AnswerView>,
    answer: AnswerView,
)
    ensures
        add_run(flow, accounts, answers.push(answer)) == add_next(
            add_run(flow, accounts, answers),
            accounts,
            answer,
        ),
{
    assert(answers.push(answer).drop_last() =~= answers);
}

/// A manual add that is answered to the end, with consent where the
/// account exists, is ready to write the account that was typed, and
/// writing it is adding it: over the first entry with its key, or at the
/// end of the list.
pub proof fn lemma_manual_add(
    accounts: Seq<AccountView>,
    username: Seq<char>,
    email: Seq<char>,
    alias: Seq<char>,
    token: Seq<char>,
    host: Seq<char>,
)
    requires
        username.len() > 0,
        email.len() > 0,
        accounts.len() <= usize::MAX,
    ensures
        ({
            let exists = existing_index(accounts, username, non_empty(alias)) is Some;
            let asked = seq![
                AnswerView::Text(Some(username)),
                AnswerView::Text(Some(email)),
                AnswerView::Text(Some(alias)),
            ] + (if exists {
                seq![AnswerView::Flag(Some(true))]
            } else {
                Seq::empty()
            }) + seq![AnswerView::Text(Some(token)), AnswerView::Text(Some(host))];
            let end = add_run(manual_begun(), accounts, asked);
            let account = AccountView {
                username,
                email,
                alias: non_empty(alias),
                host: stored_host(host),
            };
            &&& end.stage == AddStage::Ready
            &&& end.account() == account
            &&& end.token == token
            &&& upserted(
                accounts,
                end.account(),
                match end.existing {
                    Some(i) => Some(i as int),
                    None => None,
                },
            ) == added(accounts, account, true)
        }),
{
    let begun = manual_begun();
    let a0 = AnswerView::Text(Some(username));
    let a1 = AnswerView::Text(Some(email));
    let a2 = AnswerView::Text(Some(alias));
    let yes = AnswerView::Flag(Some(true));
    let a3 = AnswerView::Text(Some(token));
    let a4 = AnswerView::Text(Some(host));
    let none = Seq::<AnswerView>::empty();
    lemma_first_with_key(accounts, username, non_empty(alias));
    lemma_add_run_push(begun, accounts, none, a0);
    lemma_add_run_push(begun, accounts, none.push(a0), a1);
    lemma_add_run_push(begun, accounts, none.push(a0).push(a1), a2);
    let three = none.push(a0).push(a1).push(a2);
    if existing_index(accounts, username, non_empty(alias)) is Some {
        lemma_add_run_push(begun, accounts, three, yes);
        lemma_add_run_push(begun, accounts, three.push(yes), a3);
        lemma_add_run_push(begun, accounts, three.push(yes).push(a3), a4);
        assert(three.push(yes).push(a3).push(a4) =~= seq![a0, a1, a2] + seq![yes] + seq![a3, a4]);
    } else {
        lemma_add_run_push(begun, accounts, three, a3);
        lemma_add_run_push(begun, accounts, three.push(a3), a4);
        assert(three.push(a3).push(a4) =~= seq![a0, a1, a2] + Seq::<AnswerView>::empty() + seq![
            a3,
            a4,
        ]);
    }
}

/// A manual add of an account that exists ends without a question more
/// when the user does not consent, and an ended flow stays as it is.
pub proof fn lemma_manual_add_declined(
    accounts: Seq<AccountView>,
    username: Seq<char>,
    email: Seq<char>,
    alias: Seq<char>,
    refusal: AnswerView,
    later: AnswerView,
)
    requires
        username.len() > 0,
        email.len() > 0,
        existing_index(accounts, username, non_empty(alias)) is Some,
        !refusal.is_yes(),
    ensures
        ({
            let end = add_run(
                manual_begun(),
                accounts,
                seq![
                    AnswerView::Text(Some(username)),
                    AnswerView::Text(Some(email)),
                    AnswerView::Text(Some(alias)),
                    refusal,
                ],
            );
            &&& end.stage == AddStage::Aborted
            &&& add_request(end) is None
            &&& add_next(end, accounts, later) == end
        }),
{
    let begun = manual_begun();
    let a0 = AnswerView::Text(Some(username));
    let a1 = AnswerView::Text(Some(email));
    let a2 = AnswerView::Text(Some(alias));
    let none = Seq::<AnswerView>::empty();
    lemma_add_run_push(begun, accounts, none, a0);
    lemma_add_run_push(begun, accounts, none.push(a0), a1);
    lemma_add_run_push(begun, accounts, none.push(a0).push(a1), a2);
    lemma_add_run_push(begun, accounts, none.push(a0).push(a1).push(a2), refusal);
    assert(none.push(a0).push(a1).push(a2).push(refusal) =~= seq![a0, a1, a2, refusal]);
}

} // verus!
