//! Editing an account, and removing one.  An edit works on a draft; the
//! account list and the secret store are touched only when the draft is
//! saved.

use vstd::prelude::*;
use crate::commands::list::ListState;
use crate::effects::{
    Answer, AnswerView, Effect, EffectView, Prompt, PromptView, Request, RequestView,
    SecretStore, effects_view, push_effect, request_view, store_after,
};
use crate::models::{Account, AccountView, count_with_key, key_of};
use crate::style::{
    Hue, Span, SpanView, Style, frame_view, line_view, plain, push_line, push_span, span,
    span_of, span_owned,
};
use crate::text::{opt_clone, opt_eq, opt_view, pad_right, padded};
use crate::utils::{DEFAULT_HOST, default_host};

verus! {

// ---------------------------------------------------------------------------
// Removing an account
// ---------------------------------------------------------------------------
/// The question asked before an account is removed.
pub open spec fn delete_question(username: Seq<char>) -> Seq<SpanView> {
    seq![
        span_of("Remove account '"@, Style::plain()),
        span_of(username, Style::hue(Hue::Yellow)),
        span_of("'?"@, Style::plain()),
    ]
}

/// What removing an account does besides taking it off the list: its
/// secret is deleted and the list is saved.
pub open spec fn delete_effects(account: AccountView) -> Seq<EffectView> {
    seq![
        EffectView::DeleteToken { key: key_of(account.username, account.alias) },
        EffectView::SaveConfig,
    ]
}

/// The cursor after the row under it has gone from a list that now has
/// `accounts` accounts: it steps back where it would be past the last one.
pub open spec fn cursor_after_delete(cursor: usize, accounts: int) -> usize {
    if cursor >= accounts && cursor > 0 {
        (cursor - 1) as usize
    } else {
        cursor
    }
}

impl ListState {
    /// The question asked before the account under the cursor is removed;
    /// none where the cursor is not on an account.
    pub fn delete_prompt(&self) -> (r: Option<Prompt>)
        ensures
            r is Some <==> self.on_account(),
            r is Some ==> r->0@ == (PromptView::Confirm {
                prompt: delete_question(self.config@[self.cursor as int].username),
                default: false,
            }),
    {
        if self.cursor >= self.config.accounts.len() {
            return None;
        }
        let mut prompt: Vec<Span> = Vec::new();
        push_span(&mut prompt, plain("Remove account '"));
        push_span(
            &mut prompt,
            span(self.config.accounts[self.cursor].username.as_str(), Style::hue(Hue::Yellow)),
        );
        push_span(&mut prompt, plain("'?"));
        assert(line_view(prompt@) =~= delete_question(
            self.config@[self.cursor as int].username,
        ));
        Some(Prompt::Confirm { prompt, default: false })
    }

    /// Removes the account under the cursor if the user said yes.  The
    /// account leaves the list, and the effects delete its secret and save
    /// the list.  Without a yes, or with the cursor not on an account,
    /// nothing changes.
    pub fn handle_delete(&mut self, answer: Option<bool>) -> (r: Option<Vec<Effect>>)
        requires
            old(self).wf(),
        ensures
            r is Some <==> old(self).on_account() && answer == Some(true),
            r is Some ==> {
                &&& effects_view(r->0@) == delete_effects(
                    old(self).config@[old(self).cursor as int],
                )
                &&& final(self).config@ == old(self).config@.remove(old(self).cursor as int)
                &&& final(self).cursor == cursor_after_delete(
                    old(self).cursor,
                    final(self).config@.len() as int,
                )
            },
            r is None ==> final(self).config == old(self).config && final(self).cursor == old(
                self,
            ).cursor,
            final(self).git == old(self).git,
            final(self).renderer == old(self).renderer,
            final(self).wf(),
    {
        if self.cursor >= self.config.accounts.len() {
            return None;
        }
        match answer {
            Some(true) => {},
            _ => {
                return None;
            },
        }
        let gone = self.config.remove(self.cursor);
        let mut effects: Vec<Effect> = Vec::new();
        push_effect(&mut effects, Effect::DeleteToken { key: gone.key() });
        push_effect(&mut effects, Effect::SaveConfig);
        assert(effects_view(effects@) =~= delete_effects(gone@));
        if self.cursor >= self.config.accounts.len() && self.cursor > 0 {
            self.cursor -= 1;
        }
        Some(effects)
    }
}

/// Once an account's removal has been carried out, the secret store holds
/// nothing under the account's key.
pub proof fn lemma_delete_forgets_secret(store: SecretStore, account: AccountView)
    ensures
        !store_after(store, delete_effects(account)).contains_key(
            key_of(account.username, account.alias),
        ),
{
    let effects = delete_effects(account);
    reveal_with_fuel(store_after, 3);
    assert(effects.drop_last() =~= seq![
        EffectView::DeleteToken { key: key_of(account.username, account.alias) },
    ]);
    assert(effects.drop_last().drop_last() =~= Seq::<EffectView>::empty());
}

/// Taking an entry off the list leaves one entry fewer with its key; where
/// the key was on the list once, it is on the list no more.
pub proof fn lemma_remove_counts(accounts: Seq<AccountView>, index: int)
    requires
        0 <= index < accounts.len(),
    ensures
        count_with_key(accounts.remove(index), accounts[index].username, accounts[index].alias)
            == count_with_key(accounts, accounts[index].username, accounts[index].alias) - 1,
{
    lemma_remove_counts_any(accounts, index, accounts[index].username, accounts[index].alias);
}

proof fn lemma_remove_counts_any(
    accounts: Seq<AccountView>,
    index: int,
    username: Seq<char>,
    alias: Option<Seq<char>>,
)
    requires
        0 <= index < accounts.len(),
    ensures
        count_with_key(accounts.remove(index), username, alias) == count_with_key(
            accounts,
            username,
            alias,
        ) - if accounts[index].has_key(username, alias) {
            1int
        } else {
            0int
        },
    decreases accounts.len(),
{
    if index == accounts.len() - 1 {
        assert(accounts.remove(index) =~= accounts.drop_last());
    } else {
        assert(accounts.remove(index).drop_last() =~= accounts.drop_last().remove(index));
        assert(accounts.remove(index).last() == accounts.last());
        lemma_remove_counts_any(accounts.drop_last(), index, username, alias);
    }
}

// ---------------------------------------------------------------------------
// Editing an account
// ---------------------------------------------------------------------------
/// A field of an account that can be edited.
#[derive(Clone, Copy, Debug, PartialEq, Eq, Structural)]
pub enum EditField {
    Username,
    Email,
    Alias,
    Host,
    Token,
}

/// What the user picked in the edit menu.
#[derive(Clone, Copy, Debug, PartialEq, Eq, Structural)]
pub enum EditChoice {
    /// Change this field.
    Field(EditField),
    /// Write the draft back.
    Save,
    /// Throw the draft away.
    Cancel,
    /// Nothing that the menu offers: show it again.
    Again,
}

/// An account as it is being edited, with its token, and the key that its
/// secret was stored under when the edit began.
#[derive(Debug, PartialEq, Eq)]
pub struct EditDraft {
    pub account: Account,
    pub token: Option<String>,
    pub original_username: String,
    pub original_alias: Option<String>,
}

/// What an [`EditDraft`] denotes.
pub ghost struct EditDraftView {
    pub account: AccountView,
    pub token: Option<Seq<char>>,
    pub original_username: Seq<char>,
    pub original_alias: Option<Seq<char>>,
}

impl View for EditDraft {
    type V = EditDraftView;

    open spec fn view(&self) -> EditDraftView {
        EditDraftView {
            account: self.account@,
            token: opt_view(self.token),
            original_username: self.original_username@,
            original_alias: opt_view(self.original_alias),
        }
    }
}

/// What a pick in the edit menu means: the five fields, then "Save
/// Changes" and "Cancel".  Leaving the menu cancels.
pub open spec fn edit_choice(selection: Option<usize>) -> EditChoice {
    match selection {
        None => EditChoice::Cancel,
        Some(i) => if i == 0 {
            EditChoice::Field(EditField::Username)
        } else if i == 1 {
            EditChoice::Field(EditField::Email)
        } else if i == 2 {
            EditChoice::Field(EditField::Alias)
        } else if i == 3 {
            EditChoice::Field(EditField::Host)
        } else if i == 4 {
            EditChoice::Field(EditField::Token)
        } else if i == 5 {
            EditChoice::Save
        } else if i == 6 {
            EditChoice::Cancel
        } else {
            EditChoice::Again
        },
    }
}

/// A row of the edit menu: the label in a column of fifteen, then the
/// value.
pub open spec fn field_row(label: Seq<char>, value: Seq<char>) -> Seq<SpanView> {
    seq![
        span_of(padded(label, 15), Style::plain().dimmed()),
        span_of(" "@, Style::plain()),
        span_of(value, Style::plain()),
    ]
}

/// The rows of the edit menu.  They show the draft as it stands; the token
/// is never shown, only whether there is one.
pub open spec fn edit_items(draft: EditDraftView) -> Seq<Seq<SpanView>> {
    seq![
        field_row("Username:"@, draft.account.username),
        field_row("Email:"@, draft.account.email),
        field_row(
            "Alias:"@,
            match draft.account.alias {
                Some(a) => a,
                None => "none"@,
            },
        ),
        field_row(
            "Host:"@,
            match draft.account.host {
                Some(h) => h,
                None => default_host(),
            },
        ),
        field_row(
            "Token:"@,
            if draft.token is Some {
                "*******"@
            } else {
                "none"@
            },
        ),
        seq![span_of("Save Changes"@, Style::hue(Hue::Green))],
        seq![span_of("Cancel"@, Style::plain().dimmed())],
    ]
}

/// The edit menu.
pub open spec fn edit_menu(draft: EditDraftView) -> PromptView {
    PromptView::Select {
        prompt: seq![span_of("Edit Account"@, Style::plain())],
        items: edit_items(draft),
        default: 0,
    }
}

/// The question for a field's new value.  A text field starts with the
/// present value; the token is asked for without echo and starts empty.
pub open spec fn field_question(draft: EditDraftView, field: EditField) -> PromptView {
    match field {
        EditField::Username => PromptView::Input {
            prompt: "New Username"@,
            default: draft.account.username,
        },
        EditField::Email => PromptView::Input {
            prompt: "New Email"@,
            default: draft.account.email,
        },
        EditField::Alias => PromptView::Input {
            prompt: "New Alias"@,
            default: match draft.account.alias {
                Some(a) => a,
                None => Seq::empty(),
            },
        },
        EditField::Host => PromptView::Input {
            prompt: "New Host"@,
            default: match draft.account.host {
                Some(h) => h,
                None => default_host(),
            },
        },
        EditField::Token => PromptView::Password { prompt: "New Token/PAT"@ },
    }
}

/// The text, or nothing where it is empty.
pub open spec fn non_empty(text: Seq<char>) -> Option<Seq<char>> {
    if text.len() == 0 {
        None
    } else {
        Some(text)
    }
}

/// The host as it is stored: the default host is not stored.
pub open spec fn stored_host(text: Seq<char>) -> Option<Seq<char>> {
    if text.len() == 0 || text == default_host() {
        None
    } else {
        Some(text)
    }
}

/// The draft after the user has answered the question for `field`.  An
/// input that was left changes nothing.  Username and email keep their
/// value where the answer is empty; an empty alias means no alias, an
/// empty host or the default host means no host, an empty token means no
/// token.
pub open spec fn draft_after(
    draft: EditDraftView,
    field: EditField,
    answer: Option<Seq<char>>,
) -> EditDraftView {
    match answer {
        None => draft,
        Some(text) => match field {
            EditField::Username => if text.len() > 0 {
                EditDraftView {
                    account: AccountView { username: text, ..draft.account },
                    ..draft
                }
            } else {
                draft
            },
            EditField::Email => if text.len() > 0 {
                EditDraftView { account: AccountView { email: text, ..draft.account }, ..draft }
            } else {
                draft
            },
            EditField::Alias => EditDraftView {
                account: AccountView { alias: non_empty(text), ..draft.account },
                ..draft
            },
            EditField::Host => EditDraftView {
                account: AccountView { host: stored_host(text), ..draft.account },
                ..draft
            },
            EditField::Token => EditDraftView { token: non_empty(text), ..draft },
        },
    }
}

/// Whether the draft's secret belongs under another key than the one the
/// edit began with: the username or the alias has changed.
pub open spec fn key_changed(draft: EditDraftView) -> bool {
    draft.original_username != draft.account.username || draft.original_alias
        != draft.account.alias
}

/// What saving a draft does besides writing the account back.  Where the
/// username or the alias has changed, the secret under the old key is
/// deleted first, so that none is left behind.  Then the draft's token is
/// stored under the new key, or what is there is deleted where the draft
/// has no token.  Last the list is saved.
pub open spec fn save_effects(draft: EditDraftView) -> Seq<EffectView> {
    let new_key = key_of(draft.account.username, draft.account.alias);
    (if key_changed(draft) {
        seq![
            EffectView::DeleteToken {
                key: key_of(draft.original_username, draft.original_alias),
            },
        ]
    } else {
        Seq::empty()
    }) + seq![
        match draft.token {
            Some(secret) => EffectView::StoreToken { key: new_key, secret },
            None => EffectView::DeleteToken { key: new_key },
        },
        EffectView::SaveConfig,
    ]
}

/// What a pick in the edit menu means.
pub fn edit_pick(selection: Option<usize>) -> (r: EditChoice)
    ensures
        r == edit_choice(selection),
{
    match selection {
        None => EditChoice::Cancel,
        Some(0) => EditChoice::Field(EditField::Username),
        Some(1) => EditChoice::Field(EditField::Email),
        Some(2) => EditChoice::Field(EditField::Alias),
        Some(3) => EditChoice::Field(EditField::Host),
        Some(4) => EditChoice::Field(EditField::Token),
        Some(5) => EditChoice::Save,
        Some(6) => EditChoice::Cancel,
        Some(_) => EditChoice::Again,
    }
}

/// A row of the edit menu.
fn menu_row(label: &str, value: &str) -> (r: Vec<Span>)
    ensures
        line_view(r@) == field_row(label@, value@),
{
    let mut row: Vec<Span> = Vec::new();
    push_span(&mut row, span_owned(pad_right(label, 15), Style::plain().dimmed()));
    push_span(&mut row, plain(" "));
    push_span(&mut row, plain(value));
    assert(line_view(row@) =~= field_row(label@, value@));
    row
}

/// The text, or nothing where it is empty.
pub fn non_empty_text(text: String) -> (r: Option<String>)
    ensures
        opt_view(r) == non_empty(text@),
{
    if text.as_str().is_empty() {
        None
    } else {
        Some(text)
    }
}

/// The host as it is stored: nothing for an empty host and for the
/// default host.
pub fn host_to_store(text: String) -> (r: Option<String>)
    ensures
        opt_view(r) == stored_host(text@),
{
    if text.as_str().is_empty() || text == String::from_str(DEFAULT_HOST) {
        None
    } else {
        Some(text)
    }
}

impl EditDraft {
    /// A draft of `account`, with the token that the secret store holds
    /// for it.
    pub fn new(account: &Account, token: Option<String>) -> (r: EditDraft)
        ensures
            r@ == (EditDraftView {
                account: account@,
                token: opt_view(token),
                original_username: account@.username,
                original_alias: account@.alias,
            }),
    {
        EditDraft {
            account: account.clone(),
            token,
            original_username: account.username.clone(),
            original_alias: opt_clone(&account.alias),
        }
    }

    /// The edit menu for the draft as it stands.
    pub fn menu(&self) -> (r: Prompt)
        ensures
            r@ == edit_menu(self@),
    {
        let mut prompt: Vec<Span> = Vec::new();
        push_span(&mut prompt, plain("Edit Account"));
        assert(line_view(prompt@) =~= seq![span_of("Edit Account"@, Style::plain())]);
        let mut items: Vec<Vec<Span>> = Vec::new();
        push_line(&mut items, menu_row("Username:", self.account.username.as_str()));
        push_line(&mut items, menu_row("Email:", self.account.email.as_str()));
        match &self.account.alias {
            Some(a) => {
                push_line(&mut items, menu_row("Alias:", a.as_str()));
            },
            None => {
                push_line(&mut items, menu_row("Alias:", "none"));
            },
        }
        match &self.account.host {
            Some(h) => {
                push_line(&mut items, menu_row("Host:", h.as_str()));
            },
            None => {
                push_line(&mut items, menu_row("Host:", DEFAULT_HOST));
            },
        }
        if self.token.is_some() {
            push_line(&mut items, menu_row("Token:", "*******"));
        } else {
            push_line(&mut items, menu_row("Token:", "none"));
        }
        let mut save: Vec<Span> = Vec::new();
        push_span(&mut save, span("Save Changes", Style::hue(Hue::Green)));
        assert(line_view(save@) =~= seq![span_of("Save Changes"@, Style::hue(Hue::Green))]);
        push_line(&mut items, save);
        let mut cancel: Vec<Span> = Vec::new();
        push_span(&mut cancel, span("Cancel", Style::plain().dimmed()));
        assert(line_view(cancel@) =~= seq![span_of("Cancel"@, Style::plain().dimmed())]);
        push_line(&mut items, cancel);
        assert(frame_view(items@) =~= edit_items(self@));
        Prompt::Select { prompt, items, default: 0 }
    }

    /// The question for a new value of `field`.
    pub fn field_prompt(&self, field: EditField) -> (r: Prompt)
        ensures
            r@ == field_question(self@, field),
    {
        match field {
            EditField::Username => Prompt::Input {
                prompt: String::from_str("New Username"),
                default: self.account.username.clone(),
            },
            EditField::Email => Prompt::Input {
                prompt: String::from_str("New Email"),
                default: self.account.email.clone(),
            },
            EditField::Alias => Prompt::Input {
                prompt: String::from_str("New Alias"),
                default: match &self.account.alias {
                    Some(a) => a.clone(),
                    None => String::new(),
                },
            },
            EditField::Host => Prompt::Input {
                prompt: String::from_str("New Host"),
                default: match &self.account.host {
                    Some(h) => h.clone(),
                    None => String::from_str(DEFAULT_HOST),
                },
            },
            EditField::Token => Prompt::Password { prompt: String::from_str("New Token/PAT") },
        }
    }

    /// Takes the user's answer for `field` into the draft.
    pub fn apply(&mut self, field: EditField, answer: Option<String>)
        ensures
            final(self)@ == draft_after(old(self)@, field, opt_view(answer)),
    {
        match answer {
            None => {},
            Some(text) => match field {
                EditField::Username => {
                    if !text.as_str().is_empty() {
                        self.account.username = text;
                    }
                },
                EditField::Email => {
                    if !text.as_str().is_empty() {
                        self.account.email = text;
                    }
                },
                EditField::Alias => {
                    self.account.alias = non_empty_text(text);
                },
                EditField::Host => {
                    self.account.host = host_to_store(text);
                },
                EditField::Token => {
                    self.token = non_empty_text(text);
                },
            },
        }
    }

    /// What saving the draft does to the secret store and the file.
    pub fn save_effects(&self) -> (r: Vec<Effect>)
        ensures
            effects_view(r@) == save_effects(self@),
    {
        let mut effects: Vec<Effect> = Vec::new();
        assert(effects_view(effects@) =~= Seq::<EffectView>::empty());
        if self.original_username != self.account.username || !opt_eq(
            &self.original_alias,
            &self.account.alias,
        ) {
            let old_key = match &self.original_alias {
                Some(a) => crate::models::make_key(
                    self.original_username.as_str(),
                    Some(a.as_str()),
                ),
                None => crate::models::make_key(self.original_username.as_str(), None),
            };
            push_effect(&mut effects, Effect::DeleteToken { key: old_key });
        }
        let ghost first = effects_view(effects@);
        match &self.token {
            Some(secret) => {
                push_effect(
                    &mut effects,
                    Effect::StoreToken { key: self.account.key(), secret: secret.clone() },
                );
            },
            None => {
                push_effect(&mut effects, Effect::DeleteToken { key: self.account.key() });
            },
        }
        push_effect(&mut effects, Effect::SaveConfig);
        assert(effects_view(effects@) =~= save_effects(self@));
        effects
    }
}

/// Where an edit stands: what it needs to know next, or how it ended.
#[derive(Clone, Copy, Debug, PartialEq, Eq, Structural)]
pub enum EditStage {
    /// The account's token, as the secret store holds it.
    Token,
    /// The user's pick in the edit menu.
    Menu,
    /// The new value of a field.
    Field(EditField),
    /// The user picked "Save Changes".
    Save,
    /// The user picked "Cancel" or left the menu.
    Cancel,
}

/// The state of an edit: the draft, and where the dialogue stands.
#[derive(Debug, PartialEq, Eq)]
pub struct EditFlow {
    pub draft: EditDraft,
    pub stage: EditStage,
}

/// What an [`EditFlow`] denotes.
pub ghost struct EditFlowView {
    pub draft: EditDraftView,
    pub stage: EditStage,
}

impl View for EditFlow {
    type V = EditFlowView;

    open spec fn view(&self) -> EditFlowView {
        EditFlowView { draft: self.draft@, stage: self.stage }
    }
}

/// An edit of `account` that has not asked anything yet.
pub open spec fn edit_begun(account: AccountView) -> EditFlowView {
    EditFlowView {
        draft: EditDraftView {
            account,
            token: None,
            original_username: account.username,
            original_alias: account.alias,
        },
        stage: EditStage::Token,
    }
}

/// What an edit needs to know next; nothing once it has ended.
pub open spec fn edit_request(flow: EditFlowView) -> Option<RequestView> {
    match flow.stage {
        EditStage::Token => Some(
            RequestView::Token {
                key: key_of(flow.draft.original_username, flow.draft.original_alias),
            },
        ),
        EditStage::Menu => Some(RequestView::Ask(edit_menu(flow.draft))),
        EditStage::Field(field) => Some(RequestView::Ask(field_question(flow.draft, field))),
        EditStage::Save => None,
        EditStage::Cancel => None,
    }
}

/// The edit after an answer.  The menu comes back after every field, with
/// the draft as it then stands, until the user saves or cancels.
pub open spec fn edit_next(flow: EditFlowView, answer: AnswerView) -> EditFlowView {
    match flow.stage {
        EditStage::Token => EditFlowView {
            draft: EditDraftView { token: answer.text(), ..flow.draft },
            stage: EditStage::Menu,
        },
        EditStage::Menu => EditFlowView {
            stage: match edit_choice(answer.index()) {
                EditChoice::Field(field) => EditStage::Field(field),
                EditChoice::Save => EditStage::Save,
                EditChoice::Cancel => EditStage::Cancel,
                EditChoice::Again => EditStage::Menu,
            },
            ..flow
        },
        EditStage::Field(field) => EditFlowView {
            draft: draft_after(flow.draft, field, answer.text()),
            stage: EditStage::Menu,
        },
        EditStage::Save => flow,
        EditStage::Cancel => flow,
    }
}

impl EditFlow {
    /// An edit of `account` that has not asked anything yet.
    pub fn new(account: &Account) -> (r: EditFlow)
        ensures
            r@ == edit_begun(account@),
    {
        EditFlow { draft: EditDraft::new(account, None), stage: EditStage::Token }
    }

    /// What the edit needs to know next; nothing once it has ended.
    pub fn request(&self) -> (r: Option<Request>)
        ensures
            request_view(r) == edit_request(self@),
    {
        match self.stage {
            EditStage::Token => {
                let key = match &self.draft.original_alias {
                    Some(a) => crate::models::make_key(
                        self.draft.original_username.as_str(),
                        Some(a.as_str()),
                    ),
                    None => crate::models::make_key(self.draft.original_username.as_str(), None),
                };
                Some(Request::Token { key })
            },
            EditStage::Menu => Some(Request::Ask(self.draft.menu())),
            EditStage::Field(field) => Some(Request::Ask(self.draft.field_prompt(field))),
            EditStage::Save => None,
            EditStage::Cancel => None,
        }
    }

    /// Takes the answer to the request made last.
    pub fn answer(&mut self, answer: Answer)
        ensures
            final(self)@ == edit_next(old(self)@, answer@),
    {
        match self.stage {
            EditStage::Token => {
                self.draft.token = answer.into_value();
                self.stage = EditStage::Menu;
            },
            EditStage::Menu => {
                self.stage = match edit_pick(answer.index()) {
                    EditChoice::Field(field) => EditStage::Field(field),
                    EditChoice::Save => EditStage::Save,
                    EditChoice::Cancel => EditStage::Cancel,
                    EditChoice::Again => EditStage::Menu,
                };
            },
            EditStage::Field(field) => {
                self.draft.apply(field, answer.into_value());
                self.stage = EditStage::Menu;
            },
            EditStage::Save => {},
            EditStage::Cancel => {},
        }
    }
}

impl ListState {
    /// An edit of the account under the cursor; none where the cursor is
    /// not on an account.
    pub fn begin_edit(&self) -> (r: Option<EditFlow>)
        ensures
            r is Some <==> self.on_account(),
            r is Some ==> r->0@ == edit_begun(self.config@[self.cursor as int]),
    {
        if self.cursor >= self.config.accounts.len() {
            return None;
        }
        Some(EditFlow::new(&self.config.accounts[self.cursor]))
    }

    /// Concludes an edit.  Where the user saved, the account under the
    /// cursor becomes the draft's, and the effects move the secret and
    /// save the list.  Where the user cancelled, or the edit has not come
    /// to its end, or the cursor is not on an account, nothing changes.
    pub fn handle_edit(&mut self, flow: EditFlow) -> (r: Option<Vec<Effect>>)
        requires
            old(self).wf(),
        ensures
            r is Some <==> old(self).on_account() && flow.stage == EditStage::Save,
            r is Some ==> {
                &&& effects_view(r->0@) == save_effects(flow@.draft)
                &&& final(self).config@ == old(self).config@.update(
                    old(self).cursor as int,
                    flow@.draft.account,
                )
            },
            r is None ==> final(self).config == old(self).config,
            final(self).cursor == old(self).cursor,
            final(self).git == old(self).git,
            final(self).renderer == old(self).renderer,
            final(self).wf(),
    {
        if self.cursor >= self.config.accounts.len() {
            return None;
        }
        match flow.stage {
            EditStage::Save => {},
            _ => {
                return None;
            },
        }
        let effects = flow.draft.save_effects();
        self.config.upsert(flow.draft.account, Some(self.cursor));
        Some(effects)
    }
}

/// Saving a draft whose key has changed moves the secret: afterwards the
/// store holds nothing under the old key, and under the new key it holds
/// the draft's token.  This needs the two keys to differ as strings.
pub proof fn lemma_save_moves_secret(store: SecretStore, draft: EditDraftView)
    requires
        key_of(draft.original_username, draft.original_alias) != key_of(
            draft.account.username,
            draft.account.alias,
        ),
    ensures
        ({
            let after = store_after(store, save_effects(draft));
            let old_key = key_of(draft.original_username, draft.original_alias);
            let new_key = key_of(draft.account.username, draft.account.alias);
            &&& !after.contains_key(old_key)
            &&& match draft.token {
                Some(secret) => after.contains_key(new_key) && after[new_key] == secret,
                None => !after.contains_key(new_key),
            }
        }),
{
    let effects = save_effects(draft);
    let old_key = key_of(draft.original_username, draft.original_alias);
    let new_key = key_of(draft.account.username, draft.account.alias);
    reveal_with_fuel(store_after, 4);
    assert(key_changed(draft));
    assert(effects.len() == 3);
    assert(effects.drop_last().len() == 2);
    assert(effects.drop_last().drop_last().len() == 1);
    assert(effects.drop_last().drop_last().drop_last() =~= Seq::<EffectView>::empty());
    assert(effects.drop_last().drop_last().last() == EffectView::DeleteToken { key: old_key });
    assert(effects.drop_last().last() == effects[1]);
}

/// Saving a draft whose key has not changed leaves under that key the
/// draft's token, or nothing where the draft has none.
pub proof fn lemma_save_keeps_key(store: SecretStore, draft: EditDraftView)
    requires
        !key_changed(draft),
    ensures
        ({
            let after = store_after(store, save_effects(draft));
            let key = key_of(draft.account.username, draft.account.alias);
            match draft.token {
                Some(secret) => after.contains_key(key) && after[key] == secret,
                None => !after.contains_key(key),
            }
        }),
{
    let effects = save_effects(draft);
    reveal_with_fuel(store_after, 3);
    assert(effects.len() == 2);
    assert(effects.drop_last().len() == 1);
    assert(effects.drop_last().drop_last() =~= Seq::<EffectView>::empty());
    assert(effects.drop_last().last() == effects[0]);
}

/// Saving touches no secret but those under the old and the new key.
pub proof fn lemma_save_leaves_others(store: SecretStore, draft: EditDraftView, key: Seq<char>)
    requires
        key != key_of(draft.original_username, draft.original_alias),
        key != key_of(draft.account.username, draft.account.alias),
    ensures
        store_after(store, save_effects(draft)).contains_key(key) == store.contains_key(key),
        store.contains_key(key) ==> store_after(store, save_effects(draft))[key] == store[key],
{
    let effects = save_effects(draft);
    reveal_with_fuel(store_after, 4);
    if key_changed(draft) {
        assert(effects.len() == 3);
        assert(effects.drop_last().len() == 2);
        assert(effects.drop_last().drop_last().len() == 1);
        assert(effects.drop_last().drop_last().drop_last() =~= Seq::<EffectView>::empty());
        assert(effects.drop_last().drop_last().last() == effects[0]);
        assert(effects.drop_last().last() == effects[1]);
    } else {
        assert(effects.len() == 2);
        assert(effects.drop_last().len() == 1);
        assert(effects.drop_last().drop_last() =~= Seq::<EffectView>::empty());
        assert(effects.drop_last().last() == effects[0]);
    }
}

} // verus!
