//! The interactive account list: where the cursor is, what each key does,
//! and how the view goes into its dialogues and comes back from them.

use vstd::prelude::*;
use vstd::arithmetic::div_mod::{
    lemma_mod_add_multiples_vanish, lemma_mod_bound, lemma_mod_pos_bound, lemma_mod_self_0,
    lemma_small_mod, lemma_sub_mod_noop,
};
use crate::commands::edit::{
    EditFlow, EditFlowView, EditStage, cursor_after_delete, delete_effects, delete_question,
    edit_begun, edit_next, edit_request, save_effects,
};
use crate::commands::frame::{frame_of, lemma_frame_len};
use crate::commands::switch::{
    SwitchFlow, SwitchFlowView, SwitchReport, SwitchStage, status_hold_ms, switch_begun,
    switch_next, switch_report, switch_request, switch_step_effects,
};
use crate::effects::{
    Answer, AnswerView, Effect, EffectView, PromptView, Request, RequestView, effects_view,
    request_view,
};
use crate::identity::{
    GitIdentity, GitIdentityView, UnmanagedView, answers_view, identity_of, identity_queries,
    unmanaged_accounts, unmanaged_of,
};
use crate::models::{AccountView, Config};
use crate::render::{FrameRenderer, clear_frame_ops};
use crate::style::{Span, SpanView, frame_view, line_view, push_line, push_span, span};
use crate::term::{KeyCode, KeyEvent, TermOp, TermOpView, ops_view};
use crate::tui::repaints;

verus! {

/// The state of the list view.  The rows are the accounts followed by the
/// unmanaged identities, and the cursor is an index into that one sequence.
/// Only the account rows can be acted on.
#[derive(Debug, PartialEq, Eq)]
pub struct ListState {
    pub config: Config,
    pub git: GitIdentity,
    pub cursor: usize,
    pub renderer: FrameRenderer,
}

/// Whether `cursor` is a row of a list of `total` rows; with no rows at all
/// the cursor rests at 0.
pub open spec fn cursor_in_range(cursor: int, total: int) -> bool {
    if total > 0 {
        0 <= cursor < total
    } else {
        cursor == 0
    }
}

/// The cursor after a move by `delta` rows, going round the list.
pub open spec fn moved_cursor(cursor: int, delta: int, total: int) -> int {
    if total <= 0 {
        0
    } else {
        (cursor + delta) % total
    }
}

/// The cursor brought back into a list of `total` rows: where it is beyond
/// the last row it goes to the last row.
pub open spec fn clamped_cursor(cursor: int, total: int) -> int {
    if total <= 0 {
        0
    } else if cursor >= total {
        total - 1
    } else {
        cursor
    }
}

/// What the list is to do next.
#[derive(Clone, Copy, Debug, PartialEq, Eq, Structural)]
pub enum ListAction {
    /// Nothing, and nothing is painted.
    Ignore,
    /// Paint the list again.
    Render,
    /// Offer to switch to the account at this index.
    Switch(usize),
    /// Offer to remove the account at this index.
    Delete(usize),
    /// Edit the account at this index.
    Edit(usize),
    /// Leave the list.
    Quit,
}

/// Up, or `k`.
pub open spec fn key_up(key: KeyEvent) -> bool {
    key.is_key(KeyCode::Up) || key.is_char('k')
}

/// Down, or `j`.
pub open spec fn key_down(key: KeyEvent) -> bool {
    key.is_key(KeyCode::Down) || key.is_char('j')
}

/// What a key asks of a list of `accounts` accounts with the cursor at
/// `cursor`.  The actions on an account need the cursor on an account; over
/// another row, or in an empty list, their keys only repaint.
pub open spec fn list_action(cursor: usize, accounts: int, key: KeyEvent) -> ListAction {
    if key_up(key) || key_down(key) {
        ListAction::Render
    } else if key.is_key(KeyCode::Enter) {
        if cursor < accounts {
            ListAction::Switch(cursor)
        } else {
            ListAction::Render
        }
    } else if key.is_key(KeyCode::Backspace) || key.is_key(KeyCode::Delete) {
        if cursor < accounts {
            ListAction::Delete(cursor)
        } else {
            ListAction::Render
        }
    } else if key.is_char('e') {
        if cursor < accounts {
            ListAction::Edit(cursor)
        } else {
            ListAction::Render
        }
    } else if key.is_char('q') || key.is_key(KeyCode::Esc) || key.is_ctrl('c') {
        ListAction::Quit
    } else {
        ListAction::Ignore
    }
}

/// The move that a key makes: one row up, one row down, or none.
pub open spec fn key_delta(key: KeyEvent) -> int {
    if key_up(key) {
        -1
    } else if key_down(key) {
        1
    } else {
        0
    }
}

impl ListState {
    /// The unmanaged identities that follow the accounts.
    pub open spec fn unmanaged(&self) -> Seq<UnmanagedView> {
        unmanaged_of(self.config@, self.git@)
    }

    /// The number of rows.
    pub open spec fn total(&self) -> int {
        (self.config@.len() + self.unmanaged().len()) as int
    }

    /// The cursor is on a row, or at 0 where there is none; and the row
    /// count fits the machine's integers.
    pub open spec fn wf(&self) -> bool {
        &&& self.config@.len() + 2 <= usize::MAX
        &&& cursor_in_range(self.cursor as int, self.total())
    }

    /// Whether the cursor is on an account, the only kind of row that can
    /// be switched to, edited or removed.
    pub open spec fn on_account(&self) -> bool {
        self.cursor < self.config@.len()
    }

    /// The list over `config`, with the cursor on the first row.
    pub fn new(config: Config, git: GitIdentity) -> (r: ListState)
        requires
            config@.len() + 2 <= usize::MAX,
        ensures
            r.config == config,
            r.git == git,
            r.cursor == 0,
            r.renderer.previous_line_count == 0,
            r.wf(),
    {
        ListState { config, git, cursor: 0, renderer: FrameRenderer::new() }
    }

    /// Whether the state is well formed.  A caller that has changed the
    /// public fields by hand can find out here whether the methods may
    /// still be called.
    pub fn is_well_formed(&self) -> (r: bool)
        ensures
            r == self.wf(),
    {
        if self.config.accounts.len() > usize::MAX - 2 {
            return false;
        }
        let total = self.row_count();
        if total > 0 {
            self.cursor < total
        } else {
            self.cursor == 0
        }
    }

    /// The number of rows.
    pub fn row_count(&self) -> (r: usize)
        requires
            self.config@.len() + 2 <= usize::MAX,
        ensures
            r == self.total(),
    {
        let unmanaged = unmanaged_accounts(&self.config, &self.git);
        self.config.accounts.len() + unmanaged.len()
    }

    /// Takes a fresh snapshot of git's identity.  The rows that follow the
    /// accounts may change with it; a cursor left beyond the last row goes
    /// to the last row.
    pub fn refresh_git(&mut self, git: GitIdentity)
        requires
            old(self).wf(),
        ensures
            final(self).git == git,
            final(self).config == old(self).config,
            final(self).renderer == old(self).renderer,
            final(self).cursor == clamped_cursor(old(self).cursor as int, final(self).total()),
            old(self).on_account() || old(self).cursor == 0 ==> final(self).cursor == old(
                self,
            ).cursor,
            final(self).wf(),
    {
        self.git = git;
        let total = self.row_count();
        if total == 0 {
            self.cursor = 0;
        } else if self.cursor >= total {
            self.cursor = total - 1;
        }
    }

    /// Moves the cursor by `delta` rows, going round the list: up from the
    /// first row is the last row, down from the last is the first.  In an
    /// empty list the cursor stays at 0.
    pub fn move_cursor(&mut self, delta: isize)
        requires
            old(self).config@.len() + 2 <= usize::MAX,
        ensures
            final(self).cursor == moved_cursor(
                old(self).cursor as int,
                delta as int,
                old(self).total(),
            ),
            final(self).config == old(self).config,
            final(self).git == old(self).git,
            final(self).renderer == old(self).renderer,
            final(self).wf(),
    {
        let total = self.row_count();
        self.cursor = wrap_cursor(self.cursor, delta, total);
    }

    /// Takes one keyboard event while the list is browsed.  The arrow keys
    /// move the cursor here; for the actions on an account the caller is
    /// told which one to start.
    pub fn on_key(&mut self, key: KeyEvent) -> (r: ListAction)
        requires
            old(self).wf(),
        ensures
            r == list_action(old(self).cursor, old(self).config@.len() as int, key),
            final(self).cursor == moved_cursor(
                old(self).cursor as int,
                key_delta(key),
                old(self).total(),
            ),
            key_delta(key) == 0 ==> final(self).cursor == old(self).cursor,
            final(self).config == old(self).config,
            final(self).git == old(self).git,
            final(self).renderer == old(self).renderer,
            final(self).wf(),
    {
        let on_account = self.cursor < self.config.accounts.len();
        let cursor = self.cursor;
        proof {
            lemma_cursor_stays(self.cursor as int, self.total());
        }
        if !key.press {
            return ListAction::Ignore;
        }
        match key.code {
            KeyCode::Up => {
                self.move_cursor(-1);
                ListAction::Render
            },
            KeyCode::Down => {
                self.move_cursor(1);
                ListAction::Render
            },
            KeyCode::Enter => if on_account {
                ListAction::Switch(cursor)
            } else {
                ListAction::Render
            },
            KeyCode::Backspace | KeyCode::Delete => if on_account {
                ListAction::Delete(cursor)
            } else {
                ListAction::Render
            },
            KeyCode::Esc => ListAction::Quit,
            KeyCode::Char(c) => {
                if c == 'k' {
                    self.move_cursor(-1);
                    ListAction::Render
                } else if c == 'j' {
                    self.move_cursor(1);
                    ListAction::Render
                } else if c == 'e' {
                    if on_account {
                        ListAction::Edit(cursor)
                    } else {
                        ListAction::Render
                    }
                } else if c == 'q' || (c == 'c' && key.ctrl) {
                    ListAction::Quit
                } else {
                    ListAction::Ignore
                }
            },
            KeyCode::Other => ListAction::Ignore,
        }
    }
}

/// A cursor that is on a row stays where it is when it is moved by nothing.
pub proof fn lemma_cursor_stays(cursor: int, total: int)
    requires
        cursor_in_range(cursor, total),
    ensures
        moved_cursor(cursor, 0, total) == cursor,
{
    if total > 0 {
        lemma_small_mod(cursor as nat, total as nat);
    }
}

/// Wherever the cursor is, a move leaves it on a row of the list: in
/// `0..total` for a list with rows, at 0 for an empty one.
pub proof fn lemma_moved_cursor_in_range(cursor: int, delta: int, total: int)
    requires
        total >= 0,
    ensures
        cursor_in_range(moved_cursor(cursor, delta, total), total),
{
    if total > 0 {
        lemma_mod_bound(cursor + delta, total);
    }
}

/// One row up from the first row is the last row, and one row down from the
/// last row is the first.
pub proof fn lemma_cursor_wraps(total: int)
    requires
        total > 0,
    ensures
        moved_cursor(0, -1, total) == total - 1,
        moved_cursor(total - 1, 1, total) == 0,
{
    lemma_mod_add_multiples_vanish(-1, total);
    lemma_small_mod((total - 1) as nat, total as nat);
    lemma_mod_self_0(total);
}

/// Between the ends a move by one row is a step to the neighbouring row.
pub proof fn lemma_cursor_steps(cursor: int, total: int)
    requires
        0 <= cursor < total,
    ensures
        cursor > 0 ==> moved_cursor(cursor, -1, total) == cursor - 1,
        cursor < total - 1 ==> moved_cursor(cursor, 1, total) == cursor + 1,
{
    if cursor > 0 {
        lemma_small_mod((cursor - 1) as nat, total as nat);
    }
    if cursor < total - 1 {
        lemma_small_mod((cursor + 1) as nat, total as nat);
    }
}

/// The cursor after a sequence of moves, one after the other.
pub open spec fn cursor_after(cursor: int, deltas: Seq<int>, total: int) -> int
    decreases deltas.len(),
{
    if deltas.len() == 0 {
        cursor
    } else {
        moved_cursor(cursor_after(cursor, deltas.drop_last(), total), deltas.last(), total)
    }
}

/// A cursor that is on a row stays on a row, whatever moves are made and
/// however many.
pub proof fn lemma_cursor_after_moves(cursor: int, deltas: Seq<int>, total: int)
    requires
        total >= 0,
        cursor_in_range(cursor, total),
    ensures
        cursor_in_range(cursor_after(cursor, deltas, total), total),
    decreases deltas.len(),
{
    if deltas.len() > 0 {
        lemma_cursor_after_moves(cursor, deltas.drop_last(), total);
        lemma_moved_cursor_in_range(
            cursor_after(cursor, deltas.drop_last(), total),
            deltas.last(),
            total,
        );
    }
}

/// The row that is `delta` rows from `cursor` in a list of `total` rows
/// that is gone round.
pub fn wrap_cursor(cursor: usize, delta: isize, total: usize) -> (r: usize)
    ensures
        r == moved_cursor(cursor as int, delta as int, total as int),
        cursor_in_range(r as int, total as int),
{
    if total == 0 {
        return 0;
    }
    let t = total as u128;
    let c = cursor as u128;
    proof {
        lemma_mod_bound(cursor + delta, total as int);
    }
    if delta >= 0 {
        let d = delta as u128;
        let r = (c + d) % t;
        r as usize
    } else {
        let back = (-(delta as i128)) as u128;
        let r = ((c % t) + t - (back % t)) % t;
        proof {
            let ti = total as int;
            lemma_mod_pos_bound(cursor as int, ti);
            lemma_mod_pos_bound(back as int, ti);
            lemma_sub_mod_noop(cursor as int, back as int, ti);
            lemma_mod_add_multiples_vanish((cursor as int % ti) - (back as int % ti), ti);
            assert(ti + ((cursor as int % ti) - (back as int % ti)) == (cursor as int % ti) + ti
                - (back as int % ti));
        }
        r as usize
    }
}

/// What a [`ListState`] denotes: the list, the cursor, and how many lines
/// of it are on the screen.
pub ghost struct ListStateView {
    pub config: Seq<AccountView>,
    pub git: GitIdentityView,
    pub cursor: usize,
    pub painted: usize,
}

impl View for ListState {
    type V = ListStateView;

    open spec fn view(&self) -> ListStateView {
        ListStateView {
            config: self.config@,
            git: self.git@,
            cursor: self.cursor,
            painted: self.renderer.previous_line_count,
        }
    }
}

impl ListStateView {
    /// The number of rows.
    pub open spec fn total(self) -> int {
        (self.config.len() + unmanaged_of(self.config, self.git).len()) as int
    }

    /// Whether the cursor is on an account.
    pub open spec fn on_account(self) -> bool {
        self.cursor < self.config.len()
    }
}

/// Where the list view stands: browsing, or in one of the dialogues that
/// a key on an account opens.  A dialogue is entered from browsing and
/// always comes back to it.
#[derive(Debug, PartialEq, Eq)]
pub enum ListStage {
    /// Waiting for a key.
    Browsing,
    /// Switching to the account under the cursor.
    Switch(SwitchFlow),
    /// Showing what a switch has come to.
    Report(SwitchReport),
    /// Reading git's identity again, after something has changed; the
    /// answers so far.
    Refresh(Vec<Answer>),
    /// Asking whether to remove the account under the cursor.
    Delete,
    /// Editing the account under the cursor.
    Edit(EditFlow),
    /// The view has been left.
    Closed,
}

/// What a [`ListStage`] denotes.
pub ghost enum ListStageView {
    Browsing,
    Switch(SwitchFlowView),
    Report { lines: Seq<Seq<SpanView>>, hold_ms: u64 },
    Refresh(Seq<AnswerView>),
    Delete,
    Edit(EditFlowView),
    Closed,
}

impl View for ListStage {
    type V = ListStageView;

    open spec fn view(&self) -> ListStageView {
        match *self {
            ListStage::Browsing => ListStageView::Browsing,
            ListStage::Switch(flow) => ListStageView::Switch(flow@),
            ListStage::Report(report) => ListStageView::Report {
                lines: frame_view(report.lines@),
                hold_ms: report.hold_ms,
            },
            ListStage::Refresh(answers) => ListStageView::Refresh(answers_view(answers@)),
            ListStage::Delete => ListStageView::Delete,
            ListStage::Edit(flow) => ListStageView::Edit(flow@),
            ListStage::Closed => ListStageView::Closed,
        }
    }
}

/// The list view as it runs.
#[derive(Debug, PartialEq, Eq)]
pub struct ListFlow {
    pub list: ListState,
    pub stage: ListStage,
}

/// What a [`ListFlow`] denotes.
pub ghost struct ListFlowView {
    pub list: ListStateView,
    pub stage: ListStageView,
}

impl View for ListFlow {
    type V = ListFlowView;

    open spec fn view(&self) -> ListFlowView {
        ListFlowView { list: self.list@, stage: self.stage@ }
    }
}

/// What a step does to the frame on the screen.
#[derive(Clone, Copy, Debug, PartialEq, Eq, Structural)]
pub enum Repaint {
    /// Nothing.
    Keep,
    /// The frame is painted again.
    Frame,
    /// The frame is removed, the cursor shown, and raw input mode left.
    Leave,
}

/// What one step of the list view comes to.
pub ghost struct ListStep {
    pub list: ListStateView,
    pub stage: ListStageView,
    pub effects: Seq<EffectView>,
    pub repaint: Repaint,
}

/// The number of lines of the list's frame for so many rows.
pub open spec fn frame_height(total: int) -> int {
    8 + if total <= 0 {
        1
    } else {
        total
    }
}

/// The request of a stage that has none of its own left: the next key.
pub open spec fn or_key(request: Option<RequestView>) -> RequestView {
    match request {
        Some(r) => r,
        None => RequestView::Key,
    }
}

/// What the list view needs to know next; nothing once it has been left.
pub open spec fn list_request(flow: ListFlowView) -> Option<RequestView> {
    match flow.stage {
        ListStageView::Browsing => Some(RequestView::Key),
        ListStageView::Switch(switch) => Some(or_key(switch_request(switch))),
        ListStageView::Report { lines, hold_ms } => Some(RequestView::Show { lines, hold_ms }),
        ListStageView::Refresh(answers) => Some(
            identity_queries()[if answers.len() < 5 {
                answers.len() as int
            } else {
                5
            }],
        ),
        ListStageView::Delete => Some(
            if flow.list.on_account() {
                RequestView::Ask(
                    PromptView::Confirm {
                        prompt: delete_question(flow.list.config[flow.list.cursor as int].username),
                        default: false,
                    },
                )
            } else {
                RequestView::Key
            },
        ),
        ListStageView::Edit(edit) => Some(or_key(edit_request(edit))),
        ListStageView::Closed => None,
    }
}

/// A step that comes back to browsing and paints the list again.
pub open spec fn back_to_list(list: ListStateView, effects: Seq<EffectView>) -> ListStep {
    ListStep { list, stage: ListStageView::Browsing, effects, repaint: Repaint::Frame }
}

/// A step after which git's identity is read again.
pub open spec fn then_refresh(list: ListStateView, effects: Seq<EffectView>) -> ListStep {
    ListStep {
        list,
        stage: ListStageView::Refresh(Seq::empty()),
        effects,
        repaint: Repaint::Keep,
    }
}

/// A step that changes the stage and nothing else.
pub open spec fn go_on(
    list: ListStateView,
    stage: ListStageView,
    effects: Seq<EffectView>,
) -> ListStep {
    ListStep { list, stage, effects, repaint: Repaint::Keep }
}

/// What a key does while the list is browsed.
pub open spec fn browse_step(list: ListStateView, key: KeyEvent) -> ListStep {
    match list_action(list.cursor, list.config.len() as int, key) {
        ListAction::Ignore => go_on(list, ListStageView::Browsing, Seq::empty()),
        ListAction::Render => back_to_list(
            ListStateView {
                cursor: moved_cursor(list.cursor as int, key_delta(key), list.total()) as usize,
                ..list
            },
            Seq::empty(),
        ),
        ListAction::Quit => ListStep {
            list,
            stage: ListStageView::Closed,
            effects: Seq::empty(),
            repaint: Repaint::Leave,
        },
        ListAction::Switch(_) => go_on(
            list,
            ListStageView::Switch(switch_begun(list.config[list.cursor as int])),
            Seq::empty(),
        ),
        ListAction::Delete(_) => go_on(list, ListStageView::Delete, Seq::empty()),
        ListAction::Edit(_) => go_on(
            list,
            ListStageView::Edit(edit_begun(list.config[list.cursor as int])),
            Seq::empty(),
        ),
    }
}

/// What one answer does to the list view.
///
/// While the list is browsed the answer is a key: it moves the cursor,
/// opens a dialogue on the account under the cursor, or leaves the view.
/// In a dialogue the answer goes to the dialogue.  A dialogue that ends
/// without a change comes straight back to the list; after a change git's
/// identity is read again first.  No answer in a dialogue leaves the view.
pub open spec fn list_step(flow: ListFlowView, answer: AnswerView) -> ListStep {
    let list = flow.list;
    match flow.stage {
        ListStageView::Browsing => match answer.key() {
            Some(key) => browse_step(list, key),
            None => go_on(list, ListStageView::Browsing, Seq::empty()),
        },
        ListStageView::Switch(switch) => {
            let next = switch_next(switch, answer);
            let effects = switch_step_effects(switch, answer);
            if switch_request(next) is Some {
                go_on(list, ListStageView::Switch(next), effects)
            } else {
                match switch_report(next) {
                    Some(lines) => go_on(
                        list,
                        ListStageView::Report {
                            lines,
                            hold_ms: status_hold_ms(lines.len() as int),
                        },
                        effects,
                    ),
                    None => back_to_list(list, effects),
                }
            }
        },
        ListStageView::Report { .. } => then_refresh(list, Seq::empty()),
        ListStageView::Refresh(answers) => {
            let all = answers.push(answer);
            if all.len() >= 6 {
                let git = identity_of(all);
                let fresh = ListStateView { git, ..list };
                back_to_list(
                    ListStateView {
                        cursor: clamped_cursor(list.cursor as int, fresh.total()) as usize,
                        ..fresh
                    },
                    Seq::empty(),
                )
            } else {
                go_on(list, ListStageView::Refresh(all), Seq::empty())
            }
        },
        ListStageView::Delete => if list.on_account() && answer.flag() == Some(true) {
            then_refresh(
                ListStateView {
                    config: list.config.remove(list.cursor as int),
                    cursor: cursor_after_delete(list.cursor, list.config.len() - 1),
                    ..list
                },
                delete_effects(list.config[list.cursor as int]),
            )
        } else {
            back_to_list(list, Seq::empty())
        },
        ListStageView::Edit(edit) => {
            let next = edit_next(edit, answer);
            if edit_request(next) is Some {
                go_on(list, ListStageView::Edit(next), Seq::empty())
            } else if list.on_account() && next.stage == EditStage::Save {
                then_refresh(
                    ListStateView {
                        config: list.config.update(list.cursor as int, next.draft.account),
                        ..list
                    },
                    save_effects(next.draft),
                )
            } else {
                back_to_list(list, Seq::empty())
            }
        },
        ListStageView::Closed => go_on(list, ListStageView::Closed, Seq::empty()),
    }
}

/// The number of the frame's lines on the screen after a step.
pub open spec fn painted_after(step: ListStep) -> usize {
    match step.repaint {
        Repaint::Keep => step.list.painted,
        Repaint::Frame => frame_height(step.list.total()) as usize,
        Repaint::Leave => 0,
    }
}

/// The list view after an answer.
pub open spec fn list_next(flow: ListFlowView, answer: AnswerView) -> ListFlowView {
    let step = list_step(flow, answer);
    ListFlowView {
        list: ListStateView { painted: painted_after(step), ..step.list },
        stage: step.stage,
    }
}

/// What leaving the view sends to the terminal: the frame is removed, the
/// cursor shown, and raw input mode left.
pub open spec fn leave_ops(painted: int) -> Seq<TermOpView> {
    clear_frame_ops(painted) + seq![
        TermOpView::ShowCursor,
        TermOpView::Flush,
        TermOpView::DisableRawMode,
    ]
}

/// Whether `ops` is what a step sends to the terminal.  `before` is the
/// number of the frame's lines on the screen, and `list` the list after
/// the step.
pub open spec fn step_paints(
    repaint: Repaint,
    list: ListStateView,
    before: usize,
    cols: u16,
    version: Seq<char>,
    ops: Seq<TermOpView>,
) -> bool {
    match repaint {
        Repaint::Keep => ops == Seq::<TermOpView>::empty(),
        Repaint::Frame => repaints(
            frame_of(
                list.config,
                unmanaged_of(list.config, list.git),
                list.git,
                list.cursor as int,
                cols,
                version,
            ),
            before as int,
            ops,
        ),
        Repaint::Leave => ops == leave_ops(before as int),
    }
}

/// What a step of the list view hands back.
#[derive(Debug, PartialEq, Eq)]
pub struct ListOutput {
    /// What to do, in this order.
    pub effects: Vec<Effect>,
    /// What to send to the terminal after that.
    pub ops: Vec<TermOp>,
}

/// The list view over `accounts` as it begins: nothing is known of git's
/// identity yet, and nothing is painted.
pub open spec fn list_begun(accounts: Seq<AccountView>) -> ListFlowView {
    ListFlowView {
        list: ListStateView {
            config: accounts,
            git: identity_of(Seq::empty()),
            cursor: 0,
            painted: 0,
        },
        stage: ListStageView::Refresh(Seq::empty()),
    }
}

/// Begins the list view over `config`.  The view first asks for git's
/// identity and then paints its first frame, with the cursor on the first
/// row.
pub fn run(config: Config) -> (r: ListFlow)
    requires
        config@.len() + 2 <= usize::MAX,
    ensures
        r@ == list_begun(config@),
        r.list.config == config,
        r.list.wf(),
{
    let answers: Vec<Answer> = Vec::new();
    assert(answers_view(answers@) =~= Seq::<AnswerView>::empty());
    let git = GitIdentity::unset();
    assert(git@ == identity_of(Seq::empty()));
    assert(unmanaged_of(config@, git@) =~= Seq::<UnmanagedView>::empty());
    ListFlow { list: ListState::new(config, git), stage: ListStage::Refresh(answers) }
}

impl ListFlow {
    /// What the view needs to know next; nothing once it has been left.
    pub fn request(&self) -> (r: Option<Request>)
        ensures
            request_view(r) == list_request(self@),
    {
        match &self.stage {
            ListStage::Browsing => Some(Request::Key),
            ListStage::Switch(flow) => match flow.request() {
                Some(request) => Some(request),
                None => Some(Request::Key),
            },
            ListStage::Report(report) => Some(
                Request::Show { lines: clone_frame(&report.lines), hold_ms: report.hold_ms },
            ),
            ListStage::Refresh(answers) => Some(GitIdentity::query(answers.len())),
            ListStage::Delete => match self.list.delete_prompt() {
                Some(prompt) => Some(Request::Ask(prompt)),
                None => Some(Request::Key),
            },
            ListStage::Edit(flow) => match flow.request() {
                Some(request) => Some(request),
                None => Some(Request::Key),
            },
            ListStage::Closed => None,
        }
    }

    /// Takes the answer to the request made last.  `cols` is the width of
    /// the terminal, and `version` what the title shows.
    pub fn answer(&mut self, answer: Answer, cols: u16, version: &str) -> (out: ListOutput)
        requires
            old(self).list.wf(),
        ensures
            final(self)@ == list_next(old(self)@, answer@),
            effects_view(out.effects@) == list_step(old(self)@, answer@).effects,
            step_paints(
                list_step(old(self)@, answer@).repaint,
                final(self)@.list,
                old(self)@.list.painted,
                cols,
                version@,
                ops_view(out.ops@),
            ),
            final(self).list.wf(),
    {
        let ghost before = self@;
        let ghost step = list_step(before, answer@);
        let mut stage = ListStage::Browsing;
        core::mem::swap(&mut self.stage, &mut stage);
        let mut effects: Vec<Effect> = Vec::new();
        assert(effects_view(effects@) =~= Seq::<EffectView>::empty());
        let mut repaint = Repaint::Keep;
        match stage {
            ListStage::Browsing => {
                match answer.key() {
                    Some(key) => {
                        match self.list.on_key(key) {
                            ListAction::Ignore => {},
                            ListAction::Render => {
                                repaint = Repaint::Frame;
                            },
                            ListAction::Quit => {
                                self.stage = ListStage::Closed;
                                repaint = Repaint::Leave;
                            },
                            ListAction::Switch(_) => {
                                match self.list.begin_switch() {
                                    Some(flow) => {
                                        self.stage = ListStage::Switch(flow);
                                    },
                                    None => {},
                                }
                            },
                            ListAction::Delete(_) => {
                                self.stage = ListStage::Delete;
                            },
                            ListAction::Edit(_) => {
                                match self.list.begin_edit() {
                                    Some(flow) => {
                                        self.stage = ListStage::Edit(flow);
                                    },
                                    None => {},
                                }
                            },
                        }
                    },
                    None => {},
                }
            },
            ListStage::Switch(flow) => {
                let mut flow = flow;
                effects = flow.answer(answer);
                if flow.request().is_some() {
                    self.stage = ListStage::Switch(flow);
                } else {
                    match flow.report() {
                        Some(report) => {
                            self.stage = ListStage::Report(report);
                        },
                        None => {
                            repaint = Repaint::Frame;
                        },
                    }
                }
            },
            ListStage::Report(_) => {
                self.stage = ListStage::Refresh(Vec::new());
                assert(self.stage@ == ListStageView::Refresh(Seq::<AnswerView>::empty())) by {
                    assert(answers_view(Seq::<Answer>::empty()) =~= Seq::<AnswerView>::empty());
                }
            },
            ListStage::Refresh(answers) => {
                let mut answers = answers;
                let ghost so_far = answers_view(answers@);
                answers.push(answer);
                assert(answers_view(answers@) =~= so_far.push(answer@));
                if answers.len() >= 6 {
                    self.list.refresh_git(GitIdentity::fetch(&answers));
                    repaint = Repaint::Frame;
                } else {
                    self.stage = ListStage::Refresh(answers);
                }
            },
            ListStage::Delete => {
                match self.list.handle_delete(answer.flag()) {
                    Some(done) => {
                        effects = done;
                        self.stage = ListStage::Refresh(Vec::new());
                        assert(answers_view(Seq::<Answer>::empty()) =~= Seq::<AnswerView>::empty());
                    },
                    None => {
                        repaint = Repaint::Frame;
                    },
                }
            },
            ListStage::Edit(flow) => {
                let mut flow = flow;
                flow.answer(answer);
                if flow.request().is_some() {
                    self.stage = ListStage::Edit(flow);
                } else {
                    match self.list.handle_edit(flow) {
                        Some(done) => {
                            effects = done;
                            self.stage = ListStage::Refresh(Vec::new());
                            assert(answers_view(Seq::<Answer>::empty()) =~= Seq::<
                                AnswerView,
                            >::empty());
                        },
                        None => {
                            repaint = Repaint::Frame;
                        },
                    }
                }
            },
            ListStage::Closed => {
                self.stage = ListStage::Closed;
            },
        }
        assert(repaint == step.repaint);
        assert(self.stage@ == step.stage);
        assert(effects_view(effects@) == step.effects);
        assert(self.list@ == step.list);
        let ghost list = self.list@;
        let ops = match repaint {
            Repaint::Keep => {
                let none: Vec<TermOp> = Vec::new();
                assert(ops_view(none@) =~= Seq::<TermOpView>::empty());
                none
            },
            Repaint::Frame => {
                proof {
                    lemma_frame_len(
                        list.config,
                        unmanaged_of(list.config, list.git),
                        list.git,
                        list.cursor as int,
                        cols,
                        version@,
                    );
                }
                self.list.render(cols, version)
            },
            Repaint::Leave => self.list.exit_cleanup(),
        };
        ListOutput { effects, ops }
    }
}

/// A copy of the lines.
fn clone_frame(lines: &Vec<Vec<Span>>) -> (r: Vec<Vec<Span>>)
    ensures
        frame_view(r@) == frame_view(lines@),
{
    let mut copy: Vec<Vec<Span>> = Vec::new();
    let mut i: usize = 0;
    assert(frame_view(copy@) =~= frame_view(lines@).take(0));
    while i < lines.len()
        invariant
            i <= lines.len(),
            frame_view(copy@) == frame_view(lines@).take(i as int),
        decreases lines.len() - i,
    {
        let mut line: Vec<Span> = Vec::new();
        let mut j: usize = 0;
        assert(line_view(line@) =~= line_view(lines@[i as int]@).take(0));
        while j < lines[i].len()
            invariant
                i < lines.len(),
                j <= lines@[i as int]@.len(),
                line_view(line@) == line_view(lines@[i as int]@).take(j as int),
            decreases lines@[i as int]@.len() - j,
        {
            push_span(&mut line, span(lines[i][j].text.as_str(), lines[i][j].style));
            proof {
                let all = line_view(lines@[i as int]@);
                assert(all.take(j + 1) =~= all.take(j as int).push(all[j as int]));
            }
            j += 1;
        }
        proof {
            let all = line_view(lines@[i as int]@);
            assert(all.take(all.len() as int) =~= all);
        }
        push_line(&mut copy, line);
        proof {
            let all = frame_view(lines@);
            assert(all.take(i + 1) =~= all.take(i as int).push(all[i as int]));
        }
        i += 1;
    }
    assert(frame_view(lines@).take(lines@.len() as int) =~= frame_view(lines@));
    copy
}

/// Whether the key leaves the list: `q`, Escape, or control-C.
pub open spec fn key_quits(key: KeyEvent) -> bool {
    key.is_char('q') || key.is_key(KeyCode::Esc) || key.is_ctrl('c')
}

/// The view is left only from browsing, and only by `q`, Escape or
/// control-C.  In a dialogue these keys go to the dialogue's widget, and
/// whatever the dialogue answers, the view stays.
pub proof fn lemma_only_browsing_leaves(flow: ListFlowView, answer: AnswerView)
    requires
        !(flow.stage is Closed),
    ensures
        list_next(flow, answer).stage is Closed <==> flow.stage is Browsing && answer.key() is Some
            && key_quits(answer.key()->0),
{
}

/// The terminal is given back exactly when the view is left: the step
/// that leaves removes the frame, shows the cursor and ends raw input
/// mode, and no other step does.
pub proof fn lemma_cleanup_on_leaving(flow: ListFlowView, answer: AnswerView)
    ensures
        list_step(flow, answer).repaint == Repaint::Leave <==> !(flow.stage is Closed)
            && list_next(flow, answer).stage is Closed,
{
}

/// A view that has been left stays left: it asks nothing, does nothing,
/// and paints nothing, whatever it is told.
pub proof fn lemma_closed_is_final(flow: ListFlowView, answer: AnswerView)
    requires
        flow.stage is Closed,
    ensures
        list_request(flow) is None,
        list_next(flow, answer) == flow,
        list_step(flow, answer).effects == Seq::<EffectView>::empty(),
        list_step(flow, answer).repaint == Repaint::Keep,
{
}

/// As long as the view has not been left it has a request to make.
pub proof fn lemma_open_view_asks(flow: ListFlowView)
    ensures
        list_request(flow) is None <==> flow.stage is Closed,
{
}

/// A question whether to remove an account that is not answered with yes
/// changes nothing: the list is as it was and is painted again.
pub proof fn lemma_delete_declined(flow: ListFlowView, answer: AnswerView)
    requires
        flow.stage is Delete,
        answer.flag() != Some(true),
    ensures
        list_step(flow, answer) == back_to_list(flow.list, Seq::empty()),
{
}

/// A menu that is left, in a switch or in an edit, ends the dialogue
/// without a change: nothing is done, and the list is painted again.
pub proof fn lemma_menu_left(list: ListStateView, answer: AnswerView)
    requires
        answer.index() is None,
    ensures
        ({
            let account = list.config[list.cursor as int];
            let switch = SwitchFlowView { stage: SwitchStage::Menu, ..switch_begun(account) };
            let edit = EditFlowView { stage: EditStage::Menu, ..edit_begun(account) };
            &&& list_step(ListFlowView { list, stage: ListStageView::Switch(switch) }, answer)
                == back_to_list(list, Seq::empty())
            &&& list_step(ListFlowView { list, stage: ListStageView::Edit(edit) }, answer)
                == back_to_list(list, Seq::empty())
        }),
{
}

} // verus!
