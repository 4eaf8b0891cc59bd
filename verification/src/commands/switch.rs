//! Switching to an account: what is written to git's configuration, what
//! its credential helper is told, and what the user is shown afterwards.

use vstd::prelude::*;
use crate::commands::list::ListState;
use crate::effects::{
    Answer, AnswerView, Effect, EffectView, Prompt, PromptView, Request, RequestView,
    effects_view, push_effect, request_view,
};
use crate::models::{Account, AccountView, key_of};
use crate::text::opt_view;
use crate::style::{
    Hue, Span, SpanView, Style, frame_view, line_view, plain, push_line, push_span, span,
    span_of, span_owned,
};
use crate::utils::{
    ALIAS_KEY, ReadScope, Scope, approve_input, credential_helper_warning, credential_username_key,
    git_credential_approve, git_credential_reject, helper_warning, host_of, reject_input,
    scope_name,
};

verus! {

/// The question that opens the switch.
pub open spec fn switch_question(username: Seq<char>) -> Seq<SpanView> {
    seq![
        span_of("Switch to '"@, Style::plain()),
        span_of(username, Style::hue(Hue::Cyan)),
        span_of("'. Apply to"@, Style::plain()),
    ]
}

/// The three answers to it: the global scope, the repository, or neither.
/// The repository is shown with its path where git knows one.
pub open spec fn switch_items(toplevel: Option<Seq<char>>) -> Seq<Seq<SpanView>> {
    seq![
        seq![span_of("global"@, Style::plain())],
        match toplevel {
            Some(path) => seq![
                span_of("local "@, Style::plain()),
                span_of("("@ + path + ")"@, Style::plain().dimmed()),
            ],
            None => seq![span_of("local"@, Style::plain())],
        },
        seq![span_of("Cancel"@, Style::plain().dimmed())],
    ]
}

/// The scope that an answer stands for; none for "Cancel" and for a menu
/// that was left.
pub open spec fn chosen_scope(choice: Option<usize>) -> Option<Scope> {
    match choice {
        Some(i) => if i == 0 {
            Some(Scope::Global)
        } else if i == 1 {
            Some(Scope::Local)
        } else {
            None
        },
        None => None,
    }
}

/// Whether there is a token to hand to git: one that is not empty.
pub open spec fn has_token(token: Option<Seq<char>>) -> bool {
    token is Some && token->0.len() > 0
}

/// Whether the repository's remote URL is asked for: only for a switch in
/// the repository, and only with a token to store for it.
pub open spec fn wants_url(scope: Scope, token: Option<Seq<char>>) -> bool {
    scope == Scope::Local && has_token(token)
}

/// The URL that the credential is stored for, if any.
pub open spec fn credential_url(
    scope: Scope,
    token: Option<Seq<char>>,
    url: Option<Seq<char>>,
) -> Option<Seq<char>> {
    if wants_url(scope, token) {
        url
    } else {
        None
    }
}

/// What a switch writes to git's configuration: name and email; the alias,
/// or its removal where the account has none; and the username that the
/// credential helper is to offer to the account's host, which keeps a
/// username cached for that host before from sticking.
pub open spec fn identity_writes(account: AccountView, scope: Scope) -> Seq<EffectView> {
    seq![
        EffectView::GitSet { key: "user.name"@, value: account.username, scope },
        EffectView::GitSet { key: "user.email"@, value: account.email, scope },
        match account.alias {
            Some(alias) => EffectView::GitSet { key: ALIAS_KEY@, value: alias, scope },
            None => EffectView::GitUnset { key: ALIAS_KEY@, scope },
        },
        EffectView::GitSet {
            key: credential_username_key(host_of(account)),
            value: account.username,
            scope,
        },
    ]
}

/// What a switch does with the token: nothing without one.  With one, the
/// credential stored for the host is rejected before the new one is
/// approved, so that a stale one cannot shadow it; and where the
/// repository has a remote URL, git is first told to tell credentials
/// apart by path.
pub open spec fn credential_steps(
    account: AccountView,
    scope: Scope,
    token: Option<Seq<char>>,
    url: Option<Seq<char>>,
) -> Seq<EffectView> {
    if has_token(token) {
        let stored_for = credential_url(scope, token, url);
        (if stored_for is Some {
            seq![
                EffectView::GitSet {
                    key: "credential.useHttpPath"@,
                    value: "true"@,
                    scope: Scope::Local,
                },
            ]
        } else {
            Seq::empty()
        }) + seq![
            EffectView::CredentialReject { input: reject_input(host_of(account)) },
            EffectView::CredentialApprove {
                input: approve_input(account.username, token->0, host_of(account), stored_for),
            },
        ]
    } else {
        Seq::empty()
    }
}

/// Everything a switch does, in order.
pub open spec fn switch_effects(
    account: AccountView,
    scope: Scope,
    token: Option<Seq<char>>,
    url: Option<Seq<char>>,
) -> Seq<EffectView> {
    identity_writes(account, scope) + credential_steps(account, scope, token, url)
}

/// The warning shown where the secret store has no token for the account.
pub open spec fn no_token_line(username: Seq<char>) -> Seq<SpanView> {
    seq![
        span_of("  "@, Style::plain()),
        span_of("\u{26a0}"@, Style::hue(Hue::Yellow)),
        span_of(" No token found for "@, Style::plain()),
        span_of(username, Style::hue(Hue::Cyan)),
        span_of(". Git may prompt for authentication."@, Style::plain()),
    ]
}

/// The line that reports the switch.
pub open spec fn switched_line(username: Seq<char>, scope: Scope) -> Seq<SpanView> {
    seq![
        span_of("\u{2714}"@, Style::hue(Hue::Green)),
        span_of("   Switched to '"@, Style::plain()),
        span_of(username, Style::hue(Hue::Cyan)),
        span_of("' ("@, Style::plain()),
        span_of(scope_name(scope), Style::hue(Hue::Green)),
        span_of(")"@, Style::plain()),
    ]
}

/// What the user is shown after a switch: a warning where there is no
/// token or where the credential helper will not keep one, an empty line,
/// and the report.
pub open spec fn switch_status(
    account: AccountView,
    scope: Scope,
    token: Option<Seq<char>>,
    helper: Option<Seq<char>>,
) -> Seq<Seq<SpanView>> {
    (if has_token(token) {
        match helper_warning(helper) {
            Some(warning) => seq![warning],
            None => Seq::empty(),
        }
    } else {
        seq![no_token_line(account.username)]
    }) + seq![Seq::empty(), switched_line(account.username, scope)]
}

/// How long a status of so many lines stays on the screen, in
/// milliseconds: longer where there is more to read.
pub open spec fn status_hold_ms(lines: int) -> u64 {
    if lines > 3 {
        2500
    } else {
        1500
    }
}

/// Where a switch stands: what it needs to know next, or how it ended.
#[derive(Clone, Copy, Debug, PartialEq, Eq, Structural)]
pub enum SwitchStage {
    /// The repository's top directory, to show it in the menu.
    Toplevel,
    /// The scope to switch in.
    Menu,
    /// The account's token.
    Token,
    /// The repository's remote URL.
    Url,
    /// Git's effective credential helper.
    Helper,
    /// The switch has been made.
    Done,
    /// The user backed out; nothing was changed.
    Cancelled,
}

/// The state of a switch to one account.
#[derive(Debug, PartialEq, Eq)]
pub struct SwitchFlow {
    pub account: Account,
    pub stage: SwitchStage,
    pub toplevel: Option<String>,
    /// The scope that the user picked, once picked.
    pub scope: Option<Scope>,
    pub token: Option<String>,
    pub url: Option<String>,
    pub helper: Option<String>,
}

/// What a [`SwitchFlow`] denotes.
pub ghost struct SwitchFlowView {
    pub account: AccountView,
    pub stage: SwitchStage,
    pub toplevel: Option<Seq<char>>,
    pub scope: Option<Scope>,
    pub token: Option<Seq<char>>,
    pub url: Option<Seq<char>>,
    pub helper: Option<Seq<char>>,
}

impl View for SwitchFlow {
    type V = SwitchFlowView;

    open spec fn view(&self) -> SwitchFlowView {
        SwitchFlowView {
            account: self.account@,
            stage: self.stage,
            toplevel: opt_view(self.toplevel),
            scope: self.scope,
            token: opt_view(self.token),
            url: opt_view(self.url),
            helper: opt_view(self.helper),
        }
    }
}

/// A switch to `account` that has not asked anything yet.
pub open spec fn switch_begun(account: AccountView) -> SwitchFlowView {
    SwitchFlowView {
        account,
        stage: SwitchStage::Toplevel,
        toplevel: None,
        scope: None,
        token: None,
        url: None,
        helper: None,
    }
}

/// What a switch needs to know next; nothing once it has ended.
pub open spec fn switch_request(flow: SwitchFlowView) -> Option<RequestView> {
    match flow.stage {
        SwitchStage::Toplevel => Some(RequestView::Toplevel),
        SwitchStage::Menu => Some(
            RequestView::Ask(
                PromptView::Select {
                    prompt: switch_question(flow.account.username),
                    items: switch_items(flow.toplevel),
                    default: 0,
                },
            ),
        ),
        SwitchStage::Token => Some(
            RequestView::Token { key: key_of(flow.account.username, flow.account.alias) },
        ),
        SwitchStage::Url => Some(
            RequestView::GitConfig { key: "remote.origin.url"@, scope: ReadScope::Local },
        ),
        SwitchStage::Helper => Some(
            RequestView::GitConfig { key: "credential.helper"@, scope: ReadScope::Effective },
        ),
        SwitchStage::Done => None,
        SwitchStage::Cancelled => None,
    }
}

/// The stage that follows the token: the remote URL is asked for only in
/// the repository and with a token, the credential helper only with a
/// token, and without a token the switch is done.
pub open spec fn stage_after_token(scope: Option<Scope>, token: Option<Seq<char>>) -> SwitchStage {
    if !has_token(token) {
        SwitchStage::Done
    } else if scope == Some(Scope::Local) {
        SwitchStage::Url
    } else {
        SwitchStage::Helper
    }
}

/// The switch after an answer.
pub open spec fn switch_next(flow: SwitchFlowView, answer: AnswerView) -> SwitchFlowView {
    match flow.stage {
        SwitchStage::Toplevel => SwitchFlowView {
            toplevel: answer.text(),
            stage: SwitchStage::Menu,
            ..flow
        },
        SwitchStage::Menu => match chosen_scope(answer.index()) {
            Some(scope) => SwitchFlowView {
                scope: Some(scope),
                stage: SwitchStage::Token,
                ..flow
            },
            None => SwitchFlowView { stage: SwitchStage::Cancelled, ..flow },
        },
        SwitchStage::Token => SwitchFlowView {
            token: answer.text(),
            stage: stage_after_token(flow.scope, answer.text()),
            ..flow
        },
        SwitchStage::Url => SwitchFlowView {
            url: answer.text(),
            stage: SwitchStage::Helper,
            ..flow
        },
        SwitchStage::Helper => SwitchFlowView {
            helper: answer.text(),
            stage: SwitchStage::Done,
            ..flow
        },
        SwitchStage::Done => flow,
        SwitchStage::Cancelled => flow,
    }
}

/// The token as a text; the empty text where there is none.
pub open spec fn token_text(token: Option<Seq<char>>) -> Seq<char> {
    match token {
        Some(t) => t,
        None => Seq::empty(),
    }
}

/// What is to be done once an answer is in.  The identity is written as
/// soon as the scope is known, before the token is looked up; git is told
/// to tell credentials apart by path as soon as a remote URL is known; and
/// the credential is rejected and approved last.
pub open spec fn switch_step_effects(flow: SwitchFlowView, answer: AnswerView) -> Seq<
    EffectView,
> {
    match flow.stage {
        SwitchStage::Menu => match chosen_scope(answer.index()) {
            Some(scope) => identity_writes(flow.account, scope),
            None => Seq::empty(),
        },
        SwitchStage::Url => if answer.text() is Some {
            seq![
                EffectView::GitSet {
                    key: "credential.useHttpPath"@,
                    value: "true"@,
                    scope: Scope::Local,
                },
            ]
        } else {
            Seq::empty()
        },
        SwitchStage::Helper => seq![
            EffectView::CredentialReject { input: reject_input(host_of(flow.account)) },
            EffectView::CredentialApprove {
                input: approve_input(
                    flow.account.username,
                    token_text(flow.token),
                    host_of(flow.account),
                    flow.url,
                ),
            },
        ],
        _ => Seq::empty(),
    }
}

/// What the user is shown when a switch ends: nothing unless it was made.
pub open spec fn switch_report(flow: SwitchFlowView) -> Option<Seq<Seq<SpanView>>> {
    if flow.stage == SwitchStage::Done && flow.scope is Some {
        Some(switch_status(flow.account, flow.scope->0, flow.token, flow.helper))
    } else {
        None
    }
}

/// What a switch that was made shows, and for how long.
#[derive(Debug, PartialEq, Eq)]
pub struct SwitchReport {
    pub lines: Vec<Vec<Span>>,
    /// How long the lines stay, in milliseconds.
    pub hold_ms: u64,
}

/// The scope that the answer to the switch question stands for.
pub fn switch_scope(choice: Option<usize>) -> (r: Option<Scope>)
    ensures
        r == chosen_scope(choice),
{
    match choice {
        Some(0) => Some(Scope::Global),
        Some(1) => Some(Scope::Local),
        _ => None,
    }
}

/// Whether the token is there and not empty.
pub fn token_present(token: &Option<String>) -> (r: bool)
    ensures
        r == has_token(opt_view(*token)),
{
    match token {
        Some(t) => !t.as_str().is_empty(),
        None => false,
    }
}

/// How long a status of `lines` lines stays on the screen.
pub fn status_duration(lines: usize) -> (r: u64)
    ensures
        r == status_hold_ms(lines as int),
{
    if lines > 3 {
        2500
    } else {
        1500
    }
}

/// The warning shown where the secret store has no token for the user.
pub fn no_token_warning(username: &str) -> (r: Vec<Span>)
    ensures
        line_view(r@) == no_token_line(username@),
{
    let mut warning: Vec<Span> = Vec::new();
    push_span(&mut warning, plain("  "));
    push_span(&mut warning, span("\u{26a0}", Style::hue(Hue::Yellow)));
    push_span(&mut warning, plain(" No token found for "));
    push_span(&mut warning, span(username, Style::hue(Hue::Cyan)));
    push_span(&mut warning, plain(". Git may prompt for authentication."));
    assert(line_view(warning@) =~= no_token_line(username@));
    warning
}

/// The question that opens the switch to `account`.  `toplevel` is the
/// repository's path, where git knows one.
pub fn switch_prompt(account: &Account, toplevel: &Option<String>) -> (r: Prompt)
    ensures
        r@ == (PromptView::Select {
            prompt: switch_question(account@.username),
            items: switch_items(opt_view(*toplevel)),
            default: 0,
        }),
{
    let mut prompt: Vec<Span> = Vec::new();
    push_span(&mut prompt, plain("Switch to '"));
    push_span(&mut prompt, span(account.username.as_str(), Style::hue(Hue::Cyan)));
    push_span(&mut prompt, plain("'. Apply to"));
    assert(line_view(prompt@) =~= switch_question(account@.username));

    let mut items: Vec<Vec<Span>> = Vec::new();
    let mut global: Vec<Span> = Vec::new();
    push_span(&mut global, plain("global"));
    assert(line_view(global@) =~= seq![span_of("global"@, Style::plain())]);
    push_line(&mut items, global);

    let mut local: Vec<Span> = Vec::new();
    match toplevel {
        Some(path) => {
            push_span(&mut local, plain("local "));
            let mut shown = String::from_str("(");
            shown.append(path.as_str());
            shown.append(")");
            push_span(&mut local, span_owned(shown, Style::plain().dimmed()));
            assert(line_view(local@) =~= seq![
                span_of("local "@, Style::plain()),
                span_of("("@ + path@ + ")"@, Style::plain().dimmed()),
            ]);
        },
        None => {
            push_span(&mut local, plain("local"));
            assert(line_view(local@) =~= seq![span_of("local"@, Style::plain())]);
        },
    }
    push_line(&mut items, local);

    let mut cancel: Vec<Span> = Vec::new();
    push_span(&mut cancel, span("Cancel", Style::plain().dimmed()));
    assert(line_view(cancel@) =~= seq![span_of("Cancel"@, Style::plain().dimmed())]);
    push_line(&mut items, cancel);
    assert(frame_view(items@) =~= switch_items(opt_view(*toplevel)));
    Prompt::Select { prompt, items, default: 0 }
}

/// What a switch to `account` in `scope` writes to git's configuration.
pub fn identity_effects(account: &Account, scope: Scope) -> (r: Vec<Effect>)
    ensures
        effects_view(r@) == identity_writes(account@, scope),
{
    let mut effects: Vec<Effect> = Vec::new();
    push_effect(
        &mut effects,
        Effect::GitSet {
            key: String::from_str("user.name"),
            value: account.username.clone(),
            scope,
        },
    );
    push_effect(
        &mut effects,
        Effect::GitSet {
            key: String::from_str("user.email"),
            value: account.email.clone(),
            scope,
        },
    );
    match &account.alias {
        Some(alias) => {
            push_effect(
                &mut effects,
                Effect::GitSet {
                    key: String::from_str(ALIAS_KEY),
                    value: alias.clone(),
                    scope,
                },
            );
        },
        None => {
            push_effect(
                &mut effects,
                Effect::GitUnset { key: String::from_str(ALIAS_KEY), scope },
            );
        },
    }
    let mut username_key = String::from_str("credential.https://");
    username_key.append(account.host_or_default().as_str());
    username_key.append(".username");
    push_effect(
        &mut effects,
        Effect::GitSet { key: username_key, value: account.username.clone(), scope },
    );
    assert(effects_view(effects@) =~= identity_writes(account@, scope));
    effects
}

/// What the user is shown after a switch to `account` in `scope`.
pub fn status_lines(
    account: &Account,
    scope: Scope,
    token: &Option<String>,
    helper: &Option<String>,
) -> (r: Vec<Vec<Span>>)
    ensures
        frame_view(r@) == switch_status(account@, scope, opt_view(*token), opt_view(*helper)),
{
    let mut status: Vec<Vec<Span>> = Vec::new();
    assert(frame_view(status@) =~= Seq::<Seq<SpanView>>::empty());
    if token_present(token) {
        let effective = match helper {
            Some(h) => Some(h.as_str()),
            None => None,
        };
        match credential_helper_warning(effective) {
            Some(warning) => {
                push_line(&mut status, warning);
            },
            None => {},
        }
        assert(frame_view(status@) =~= match helper_warning(opt_view(*helper)) {
            Some(warning) => seq![warning],
            None => Seq::empty(),
        });
    } else {
        push_line(&mut status, no_token_warning(account.username.as_str()));
        assert(frame_view(status@) =~= seq![no_token_line(account@.username)]);
    }
    let ghost warned = frame_view(status@);
    let blank: Vec<Span> = Vec::new();
    assert(line_view(blank@) =~= Seq::<SpanView>::empty());
    push_line(&mut status, blank);
    let mut report: Vec<Span> = Vec::new();
    push_span(&mut report, span("\u{2714}", Style::hue(Hue::Green)));
    push_span(&mut report, plain("   Switched to '"));
    push_span(&mut report, span(account.username.as_str(), Style::hue(Hue::Cyan)));
    push_span(&mut report, plain("' ("));
    push_span(&mut report, span(scope.name(), Style::hue(Hue::Green)));
    push_span(&mut report, plain(")"));
    assert(line_view(report@) =~= switched_line(account@.username, scope));
    push_line(&mut status, report);
    assert(frame_view(status@) =~= warned + seq![
        Seq::empty(),
        switched_line(account@.username, scope),
    ]);
    status
}

impl SwitchFlow {
    /// A switch to `account` that has not asked anything yet.
    pub fn new(account: &Account) -> (r: SwitchFlow)
        ensures
            r@ == switch_begun(account@),
    {
        SwitchFlow {
            account: account.clone(),
            stage: SwitchStage::Toplevel,
            toplevel: None,
            scope: None,
            token: None,
            url: None,
            helper: None,
        }
    }

    /// What the switch needs to know next; nothing once it has ended.
    pub fn request(&self) -> (r: Option<Request>)
        ensures
            request_view(r) == switch_request(self@),
    {
        match self.stage {
            SwitchStage::Toplevel => Some(Request::Toplevel),
            SwitchStage::Menu => Some(Request::Ask(switch_prompt(&self.account, &self.toplevel))),
            SwitchStage::Token => Some(Request::Token { key: self.account.key() }),
            SwitchStage::Url => Some(
                Request::GitConfig {
                    key: String::from_str("remote.origin.url"),
                    scope: ReadScope::Local,
                },
            ),
            SwitchStage::Helper => Some(
                Request::GitConfig {
                    key: String::from_str("credential.helper"),
                    scope: ReadScope::Effective,
                },
            ),
            SwitchStage::Done => None,
            SwitchStage::Cancelled => None,
        }
    }

    /// Takes the answer to the request made last, and gives what is to be
    /// done before the next request.
    pub fn answer(&mut self, answer: Answer) -> (r: Vec<Effect>)
        ensures
            final(self)@ == switch_next(old(self)@, answer@),
            effects_view(r@) == switch_step_effects(old(self)@, answer@),
    {
        let mut effects: Vec<Effect> = Vec::new();
        assert(effects_view(effects@) =~= Seq::<EffectView>::empty());
        match self.stage {
            SwitchStage::Toplevel => {
                self.toplevel = answer.into_value();
                self.stage = SwitchStage::Menu;
            },
            SwitchStage::Menu => {
                match switch_scope(answer.index()) {
                    Some(scope) => {
                        self.scope = Some(scope);
                        self.stage = SwitchStage::Token;
                        effects = identity_effects(&self.account, scope);
                    },
                    None => {
                        self.stage = SwitchStage::Cancelled;
                    },
                }
            },
            SwitchStage::Token => {
                self.token = answer.into_value();
                let local = match self.scope {
                    Some(Scope::Local) => true,
                    _ => false,
                };
                self.stage = if !token_present(&self.token) {
                    SwitchStage::Done
                } else if local {
                    SwitchStage::Url
                } else {
                    SwitchStage::Helper
                };
            },
            SwitchStage::Url => {
                self.url = answer.into_value();
                self.stage = SwitchStage::Helper;
                if self.url.is_some() {
                    push_effect(
                        &mut effects,
                        Effect::GitSet {
                            key: String::from_str("credential.useHttpPath"),
                            value: String::from_str("true"),
                            scope: Scope::Local,
                        },
                    );
                    assert(effects_view(effects@) =~= switch_step_effects(old(self)@, answer@));
                }
            },
            SwitchStage::Helper => {
                self.helper = answer.into_value();
                self.stage = SwitchStage::Done;
                let host = self.account.host_or_default();
                let url = match &self.url {
                    Some(u) => Some(u.as_str()),
                    None => None,
                };
                let secret = match &self.token {
                    Some(t) => t.as_str(),
                    None => "",
                };
                proof {
                    reveal_strlit("");
                    assert(""@ =~= Seq::<char>::empty());
                }
                push_effect(
                    &mut effects,
                    Effect::CredentialReject { input: git_credential_reject(host.as_str()) },
                );
                push_effect(
                    &mut effects,
                    Effect::CredentialApprove {
                        input: git_credential_approve(
                            self.account.username.as_str(),
                            secret,
                            host.as_str(),
                            url,
                        ),
                    },
                );
                assert(effects_view(effects@) =~= switch_step_effects(old(self)@, answer@));
            },
            SwitchStage::Done => {},
            SwitchStage::Cancelled => {},
        }
        effects
    }

    /// What the user is shown when the switch has ended: a report where
    /// the switch was made, nothing where "Cancel" was picked, the menu
    /// was left, or the switch has not come to its end.  Only after a
    /// switch that was made does git's identity need to be read again.
    pub fn report(&self) -> (r: Option<SwitchReport>)
        ensures
            match r {
                Some(report) => switch_report(self@) == Some(frame_view(report.lines@))
                    && report.hold_ms == status_hold_ms(report.lines@.len() as int),
                None => switch_report(self@) is None,
            },
    {
        match (self.stage, self.scope) {
            (SwitchStage::Done, Some(scope)) => {
                let lines = status_lines(&self.account, scope, &self.token, &self.helper);
                let hold_ms = status_duration(lines.len());
                Some(SwitchReport { lines, hold_ms })
            },
            _ => None,
        }
    }
}

impl ListState {
    /// A switch to the account under the cursor; none where the cursor is
    /// not on an account.
    pub fn begin_switch(&self) -> (r: Option<SwitchFlow>)
        ensures
            r is Some <==> self.on_account(),
            r is Some ==> r->0@ == switch_begun(self.config@[self.cursor as int]),
    {
        if self.cursor >= self.config.accounts.len() {
            return None;
        }
        Some(SwitchFlow::new(&self.config.accounts[self.cursor]))
    }
}

/// The switch and what has been done so far, after the answers have been
/// taken one after the other.
pub open spec fn switch_run(flow: SwitchFlowView, answers: Seq<AnswerView>) -> (
    SwitchFlowView,
    Seq<EffectView>,
)
    decreases answers.len(),
{
    if answers.len() == 0 {
        (flow, Seq::empty())
    } else {
        let (before, done) = switch_run(flow, answers.drop_last());
        (
            switch_next(before, answers.last()),
            done + switch_step_effects(before, answers.last()),
        )
    }
}

/// The answers that a switch gets when the user picks `scope`: the top
/// directory, the pick, the token, and with a token the remote URL (in the
/// repository only) and the credential helper.
pub open spec fn switch_answers(
    toplevel: Option<Seq<char>>,
    scope: Scope,
    token: Option<Seq<char>>,
    url: Option<Seq<char>>,
    helper: Option<Seq<char>>,
) -> Seq<AnswerView> {
    let pick: usize = match scope {
        Scope::Global => 0,
        Scope::Local => 1,
    };
    let first = seq![
        AnswerView::Text(toplevel),
        AnswerView::Index(Some(pick)),
        AnswerView::Text(token),
    ];
    if !has_token(token) {
        first
    } else if scope == Scope::Local {
        first + seq![AnswerView::Text(url), AnswerView::Text(helper)]
    } else {
        first + seq![AnswerView::Text(helper)]
    }
}

proof fn lemma_run_push(flow: SwitchFlowView, answers: Seq<AnswerView>, answer: AnswerView)
    ensures
        switch_run(flow, answers.push(answer)) == (
            switch_next(switch_run(flow, answers).0, answer),
            switch_run(flow, answers).1 + switch_step_effects(switch_run(flow, answers).0, answer),
        ),
{
    assert(answers.push(answer).drop_last() =~= answers);
}

/// A switch that is answered to the end is made, and what it has done on
/// the way is, in this order, what a switch does: the identity is written,
/// and with a token the credential is rejected and approved.
pub proof fn lemma_switch_run(
    account: AccountView,
    toplevel: Option<Seq<char>>,
    scope: Scope,
    token: Option<Seq<char>>,
    url: Option<Seq<char>>,
    helper: Option<Seq<char>>,
)
    ensures
        ({
            let (end, done) = switch_run(
                switch_begun(account),
                switch_answers(toplevel, scope, token, url, helper),
            );
            &&& end.stage == SwitchStage::Done
            &&& switch_request(end) is None
            &&& done == switch_effects(account, scope, token, url)
            &&& has_token(token) ==> switch_report(end) == Some(
                switch_status(account, scope, token, helper),
            )
            &&& !has_token(token) ==> switch_report(end) == Some(
                switch_status(account, scope, token, None),
            )
        }),
{
    let begun = switch_begun(account);
    let pick: usize = match scope {
        Scope::Global => 0,
        Scope::Local => 1,
    };
    let a0 = AnswerView::Text(toplevel);
    let a1 = AnswerView::Index(Some(pick));
    let a2 = AnswerView::Text(token);
    let none = Seq::<AnswerView>::empty();
    lemma_run_push(begun, none, a0);
    lemma_run_push(begun, none.push(a0), a1);
    lemma_run_push(begun, none.push(a0).push(a1), a2);
    let three = none.push(a0).push(a1).push(a2);
    assert(three =~= seq![a0, a1, a2]);
    let (after_token, written) = switch_run(begun, three);
    assert(written =~= identity_writes(account, scope));
    if !has_token(token) {
        assert(switch_answers(toplevel, scope, token, url, helper) =~= three);
        assert(switch_effects(account, scope, token, url) =~= identity_writes(account, scope));
        assert(switch_status(account, scope, token, helper) == switch_status(
            account,
            scope,
            token,
            None,
        ));
    } else if scope == Scope::Local {
        let a3 = AnswerView::Text(url);
        let a4 = AnswerView::Text(helper);
        lemma_run_push(begun, three, a3);
        lemma_run_push(begun, three.push(a3), a4);
        assert(switch_answers(toplevel, scope, token, url, helper) =~= three.push(a3).push(a4));
        let (end, done) = switch_run(begun, three.push(a3).push(a4));
        assert(done =~= switch_effects(account, scope, token, url));
    } else {
        let a4 = AnswerView::Text(helper);
        lemma_run_push(begun, three, a4);
        assert(switch_answers(toplevel, scope, token, url, helper) =~= three.push(a4));
        let (end, done) = switch_run(begun, three.push(a4));
        assert(done =~= switch_effects(account, scope, token, url));
    }
}

/// A switch in which the user picks "Cancel" or leaves the menu does
/// nothing and asks nothing more.
pub proof fn lemma_switch_cancelled(
    account: AccountView,
    toplevel: Option<Seq<char>>,
    pick: Option<usize>,
)
    requires
        chosen_scope(pick) is None,
    ensures
        ({
            let (end, done) = switch_run(
                switch_begun(account),
                seq![AnswerView::Text(toplevel), AnswerView::Index(pick)],
            );
            &&& end.stage == SwitchStage::Cancelled
            &&& switch_request(end) is None
            &&& switch_report(end) is None
            &&& done == Seq::<EffectView>::empty()
        }),
{
    let begun = switch_begun(account);
    let a0 = AnswerView::Text(toplevel);
    let a1 = AnswerView::Index(pick);
    let none = Seq::<AnswerView>::empty();
    lemma_run_push(begun, none, a0);
    lemma_run_push(begun, none.push(a0), a1);
    assert(none.push(a0).push(a1) =~= seq![a0, a1]);
    let (end, done) = switch_run(begun, seq![a0, a1]);
    assert(done =~= Seq::<EffectView>::empty());
}

/// In a switch with a token, the credential stored for the host is
/// rejected directly before the new one is approved, and these two are the
/// last things done.
pub proof fn lemma_reject_precedes_approve(
    account: AccountView,
    scope: Scope,
    token: Option<Seq<char>>,
    url: Option<Seq<char>>,
)
    requires
        has_token(token),
    ensures
        ({
            let effects = switch_effects(account, scope, token, url);
            &&& effects.len() >= 6
            &&& effects[effects.len() - 2] is CredentialReject
            &&& effects[effects.len() - 1] is CredentialApprove
            &&& forall|i: int|
                0 <= i < effects.len() - 2 ==> !(#[trigger] effects[i] is CredentialReject)
                    && !(effects[i] is CredentialApprove)
        }),
{
}

/// Without a token a switch leaves git's credential helper alone: it only
/// writes the four configuration values.
pub proof fn lemma_switch_without_token(
    account: AccountView,
    scope: Scope,
    token: Option<Seq<char>>,
    url: Option<Seq<char>>,
)
    requires
        !has_token(token),
    ensures
        switch_effects(account, scope, token, url) == identity_writes(account, scope),
{
    assert(switch_effects(account, scope, token, url) =~= identity_writes(account, scope));
}

} // verus!
