//! What a flow asks its surroundings to do, and what it asks them for.
//!
//! A flow never touches the terminal, git, the secret store or the
//! configuration file.  It hands back effects, to be carried out in the
//! order given, and requests: for an answer from the user, to be had with
//! the widgets, for a key, or for a value from git or the secret store.

use vstd::prelude::*;
use crate::style::{Span, SpanView, frame_view, line_view};
use crate::term::KeyEvent;
use crate::text::opt_view;
use crate::utils::{ReadScope, Scope};

verus! {

/// One thing to do outside the program's own state.
#[derive(Debug, PartialEq, Eq)]
pub enum Effect {
    /// Set a value in git's configuration.  The operation has failed as a
    /// whole if git refuses.
    GitSet { key: String, value: String, scope: Scope },
    /// Remove a value from git's configuration, if it is there.
    GitUnset { key: String, scope: Scope },
    /// Write a secret to the secret store.
    StoreToken { key: String, secret: String },
    /// Delete a secret from the secret store, if it is there.
    DeleteToken { key: String },
    /// Make git's credential helper forget what it holds for a host.
    CredentialReject { input: String },
    /// Hand git's credential helper a credential to keep.
    CredentialApprove { input: String },
    /// Write the account list to its file.
    SaveConfig,
}

/// What an [`Effect`] denotes.
pub ghost enum EffectView {
    GitSet { key: Seq<char>, value: Seq<char>, scope: Scope },
    GitUnset { key: Seq<char>, scope: Scope },
    StoreToken { key: Seq<char>, secret: Seq<char> },
    DeleteToken { key: Seq<char> },
    CredentialReject { input: Seq<char> },
    CredentialApprove { input: Seq<char> },
    SaveConfig,
}

impl View for Effect {
    type V = EffectView;

    open spec fn view(&self) -> EffectView {
        match *self {
            Effect::GitSet { key, value, scope } => EffectView::GitSet {
                key: key@,
                value: value@,
                scope,
            },
            Effect::GitUnset { key, scope } => EffectView::GitUnset { key: key@, scope },
            Effect::StoreToken { key, secret } => EffectView::StoreToken {
                key: key@,
                secret: secret@,
            },
            Effect::DeleteToken { key } => EffectView::DeleteToken { key: key@ },
            Effect::CredentialReject { input } => EffectView::CredentialReject { input: input@ },
            Effect::CredentialApprove { input } => EffectView::CredentialApprove {
                input: input@,
            },
            Effect::SaveConfig => EffectView::SaveConfig,
        }
    }
}

/// What a list of effects denotes.
pub open spec fn effects_view(effects: Seq<Effect>) -> Seq<EffectView> {
    Seq::new(effects.len(), |i: int| effects[i]@)
}

/// Adds one effect to the list.
pub fn push_effect(effects: &mut Vec<Effect>, effect: Effect)
    ensures
        effects_view(final(effects)@) == effects_view(old(effects)@).push(effect@),
{
    effects.push(effect);
    assert(effects_view(effects@) =~= effects_view(old(effects)@).push(effect@));
}

/// The secret store as the flows see it: secrets by key.
pub type SecretStore = Map<Seq<char>, Seq<char>>;

/// The secret store after one effect.  Only storing and deleting a token
/// change it.
pub open spec fn store_after_one(store: SecretStore, effect: EffectView) -> SecretStore {
    match effect {
        EffectView::StoreToken { key, secret } => store.insert(key, secret),
        EffectView::DeleteToken { key } => store.remove(key),
        _ => store,
    }
}

/// The secret store after the effects, carried out in order.
pub open spec fn store_after(store: SecretStore, effects: Seq<EffectView>) -> SecretStore
    decreases effects.len(),
{
    if effects.len() == 0 {
        store
    } else {
        store_after_one(store_after(store, effects.drop_last()), effects.last())
    }
}

/// A question for the user, to be put with the widget of its kind.  Its
/// texts are spans; they are painted when the widget is made.
#[derive(Debug, PartialEq, Eq)]
#[allow(inconsistent_fields)]
pub enum Prompt {
    /// Pick one of the items.
    Select { prompt: Vec<Span>, items: Vec<Vec<Span>>, default: usize },
    /// Yes or no.
    Confirm { prompt: Vec<Span>, default: bool },
    /// A line of text, with `default` typed already.
    Input { prompt: String, default: String },
    /// A line of text that is not echoed.
    Password { prompt: String },
}

/// What a [`Prompt`] denotes.
#[allow(inconsistent_fields)]
pub ghost enum PromptView {
    Select { prompt: Seq<SpanView>, items: Seq<Seq<SpanView>>, default: usize },
    Confirm { prompt: Seq<SpanView>, default: bool },
    Input { prompt: Seq<char>, default: Seq<char> },
    Password { prompt: Seq<char> },
}

impl View for Prompt {
    type V = PromptView;

    open spec fn view(&self) -> PromptView {
        match *self {
            Prompt::Select { prompt, items, default } => PromptView::Select {
                prompt: line_view(prompt@),
                items: frame_view(items@),
                default,
            },
            Prompt::Confirm { prompt, default } => PromptView::Confirm {
                prompt: line_view(prompt@),
                default,
            },
            Prompt::Input { prompt, default } => PromptView::Input {
                prompt: prompt@,
                default: default@,
            },
            Prompt::Password { prompt } => PromptView::Password { prompt: prompt@ },
        }
    }
}

/// Something a flow needs to know before it can go on: an answer from the
/// user, or a value from the program's surroundings.
#[derive(Debug, PartialEq, Eq)]
pub enum Request {
    /// Put the prompt to the user.
    Ask(Prompt),
    /// Look up the secret that the secret store holds under the key.
    Token { key: String },
    /// Read a value from git's configuration.
    GitConfig { key: String, scope: ReadScope },
    /// Ask git for the top directory of the repository.
    Toplevel,
    /// Wait for the next event from the keyboard.
    Key,
    /// Show the lines for so many milliseconds, then take them away.
    Show { lines: Vec<Vec<Span>>, hold_ms: u64 },
    /// Log the user in at GitHub.
    Login,
}

/// What a [`Request`] denotes.
pub ghost enum RequestView {
    Ask(PromptView),
    Token { key: Seq<char> },
    GitConfig { key: Seq<char>, scope: ReadScope },
    Toplevel,
    Key,
    Show { lines: Seq<Seq<SpanView>>, hold_ms: u64 },
    Login,
}

impl View for Request {
    type V = RequestView;

    open spec fn view(&self) -> RequestView {
        match *self {
            Request::Ask(prompt) => RequestView::Ask(prompt@),
            Request::Token { key } => RequestView::Token { key: key@ },
            Request::GitConfig { key, scope } => RequestView::GitConfig { key: key@, scope },
            Request::Toplevel => RequestView::Toplevel,
            Request::Key => RequestView::Key,
            Request::Show { lines, hold_ms } => RequestView::Show {
                lines: frame_view(lines@),
                hold_ms,
            },
            Request::Login => RequestView::Login,
        }
    }
}

/// What an optional request denotes.
pub open spec fn request_view(request: Option<Request>) -> Option<RequestView> {
    match request {
        Some(r) => Some(r@),
        None => None,
    }
}

/// What a login at GitHub gives.
#[derive(Debug, PartialEq, Eq)]
pub struct Login {
    pub username: String,
    pub email: String,
    pub token: String,
}

/// What a [`Login`] denotes.
pub ghost struct LoginView {
    pub username: Seq<char>,
    pub email: Seq<char>,
    pub token: Seq<char>,
}

impl View for Login {
    type V = LoginView;

    open spec fn view(&self) -> LoginView {
        LoginView { username: self.username@, email: self.email@, token: self.token@ }
    }
}

/// The answer to a [`Request`].  A widget that was left with Escape gives
/// `None`, and so does a value that is not there; a value that is there
/// comes as a text.
#[derive(Debug, PartialEq, Eq)]
pub enum Answer {
    Text(Option<String>),
    Flag(Option<bool>),
    Index(Option<usize>),
    /// The event that the keyboard reported.
    Key(KeyEvent),
    /// What the login gave, or nothing where it failed.
    Login(Option<Login>),
    /// What was asked for has been done, and there is nothing to report.
    Done,
}

/// What an [`Answer`] denotes.
pub ghost enum AnswerView {
    Text(Option<Seq<char>>),
    Flag(Option<bool>),
    Index(Option<usize>),
    Key(KeyEvent),
    Login(Option<LoginView>),
    Done,
}

impl View for Answer {
    type V = AnswerView;

    open spec fn view(&self) -> AnswerView {
        match *self {
            Answer::Text(t) => AnswerView::Text(opt_view(t)),
            Answer::Flag(f) => AnswerView::Flag(f),
            Answer::Index(i) => AnswerView::Index(i),
            Answer::Key(k) => AnswerView::Key(k),
            Answer::Login(l) => AnswerView::Login(
                match l {
                    Some(login) => Some(login@),
                    None => None,
                },
            ),
            Answer::Done => AnswerView::Done,
        }
    }
}

impl AnswerView {
    /// The text that was entered, if the answer is a text and was given.
    pub open spec fn text(self) -> Option<Seq<char>> {
        match self {
            AnswerView::Text(t) => t,
            _ => None,
        }
    }

    /// The text that was entered, or the empty text.
    pub open spec fn text_or_empty(self) -> Seq<char> {
        match self.text() {
            Some(t) => t,
            None => Seq::empty(),
        }
    }

    /// The index that was picked, if the answer is a pick and was made.
    pub open spec fn index(self) -> Option<usize> {
        match self {
            AnswerView::Index(i) => i,
            _ => None,
        }
    }

    /// The keyboard's event, if the answer is one.
    pub open spec fn key(self) -> Option<KeyEvent> {
        match self {
            AnswerView::Key(k) => Some(k),
            _ => None,
        }
    }

    /// What the login gave, if the answer is a login that succeeded.
    pub open spec fn login(self) -> Option<LoginView> {
        match self {
            AnswerView::Login(l) => l,
            _ => None,
        }
    }

    /// The yes or no that was given, if the answer is one and was given.
    pub open spec fn flag(self) -> Option<bool> {
        match self {
            AnswerView::Flag(f) => f,
            _ => None,
        }
    }

    /// Whether the answer is a yes.
    pub open spec fn is_yes(self) -> bool {
        self == AnswerView::Flag(Some(true))
    }
}

impl Answer {
    /// The text that was entered, or the empty text.
    pub fn into_text(self) -> (r: String)
        ensures
            r@ == self@.text_or_empty(),
    {
        match self {
            Answer::Text(Some(t)) => t,
            _ => String::new(),
        }
    }

    /// The text that was entered or the value that was found, if any.
    pub fn into_value(self) -> (r: Option<String>)
        ensures
            opt_view(r) == self@.text(),
    {
        match self {
            Answer::Text(t) => t,
            _ => None,
        }
    }

    /// The index that was picked, if any.
    pub fn index(&self) -> (r: Option<usize>)
        ensures
            r == self@.index(),
    {
        match self {
            Answer::Index(i) => *i,
            _ => None,
        }
    }

    /// The keyboard's event, if the answer is one.
    pub fn key(&self) -> (r: Option<KeyEvent>)
        ensures
            r == self@.key(),
    {
        match self {
            Answer::Key(k) => Some(*k),
            _ => None,
        }
    }

    /// What the login gave, if the answer is a login that succeeded.
    pub fn into_login(self) -> (r: Option<Login>)
        ensures
            match r {
                Some(login) => self@.login() == Some(login@),
                None => self@.login() is None,
            },
    {
        match self {
            Answer::Login(l) => l,
            _ => None,
        }
    }

    /// The yes or no that was given, if any.
    pub fn flag(&self) -> (r: Option<bool>)
        ensures
            r == self@.flag(),
    {
        match self {
            Answer::Flag(f) => *f,
            _ => None,
        }
    }

    /// Whether the answer is a yes.
    pub fn is_yes(&self) -> (r: bool)
        ensures
            r == self@.is_yes(),
    {
        match self {
            Answer::Flag(Some(true)) => true,
            _ => false,
        }
    }
}

} // verus!
