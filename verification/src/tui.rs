//! The terminal primitives and the interactive widgets.
//!
//! Nothing here touches the terminal.  A primitive is a list of commands
//! for it.  A widget is a step function: from its state and one keyboard
//! event to the next state, the commands for the terminal, and whether the
//! widget is done.  The caller reads the events and carries the commands
//! out; a widget reacts to key presses only.

use vstd::prelude::*;
use crate::effects::{Answer, AnswerView, Prompt, PromptView};
use crate::render::{
    FrameRenderer, clear_lines_ops, emit, emit_blank, println_ops, render_ops, write_ops,
};
use crate::style::{
    Hue, Span, SpanView, Style, frame_paints, frame_view, is_painting, line_view, paint_frame,
    paint_line, plain, push_line, push_span, span, span_of,
};
use crate::term::{KeyCode, KeyEvent, TermOp, TermOpView, ops_view};
use crate::text::{pop_char, push_char, push_text, repeat_str, repeated, texts};

verus! {

/// Raw input mode on, cursor hidden.
pub fn enter_raw_mode() -> (ops: Vec<TermOp>)
    ensures
        ops_view(ops@) == seq![
            TermOpView::EnableRawMode,
            TermOpView::HideCursor,
            TermOpView::Flush,
        ],
{
    let mut ops: Vec<TermOp> = Vec::new();
    emit(&mut ops, TermOp::EnableRawMode);
    emit(&mut ops, TermOp::HideCursor);
    emit(&mut ops, TermOp::Flush);
    assert(ops_view(ops@) =~= seq![
        TermOpView::EnableRawMode,
        TermOpView::HideCursor,
        TermOpView::Flush,
    ]);
    ops
}

/// Cursor shown, raw input mode off.
pub fn exit_raw_mode() -> (ops: Vec<TermOp>)
    ensures
        ops_view(ops@) == seq![
            TermOpView::ShowCursor,
            TermOpView::Flush,
            TermOpView::DisableRawMode,
        ],
{
    let mut ops: Vec<TermOp> = Vec::new();
    emit(&mut ops, TermOp::ShowCursor);
    emit(&mut ops, TermOp::Flush);
    emit(&mut ops, TermOp::DisableRawMode);
    assert(ops_view(ops@) =~= seq![
        TermOpView::ShowCursor,
        TermOpView::Flush,
        TermOpView::DisableRawMode,
    ]);
    ops
}

/// One line of output in raw mode, ended by an explicit line break.
pub fn raw_println(msg: &str) -> (ops: Vec<TermOp>)
    ensures
        ops_view(ops@) == println_ops(msg@),
{
    let mut ops: Vec<TermOp> = Vec::new();
    emit(&mut ops, TermOp::Print(String::from_str(msg)));
    emit(&mut ops, TermOp::LineBreak);
    emit(&mut ops, TermOp::Flush);
    assert(ops_view(ops@) =~= println_ops(msg@));
    ops
}

/// Clears the `count` lines above the cursor and leaves the cursor on the
/// first of them.
pub fn raw_clear_lines(count: usize) -> (ops: Vec<TermOp>)
    ensures
        ops_view(ops@) == clear_lines_ops(count as int),
{
    let mut ops: Vec<TermOp> = Vec::new();
    if count == 0 {
        assert(ops_view(ops@) =~= clear_lines_ops(0));
        return ops;
    }
    emit(&mut ops, TermOp::MoveUp(#[verifier::truncate] (count as u16)));
    emit_blank(&mut ops, count);
    emit(&mut ops, TermOp::MoveUp(#[verifier::truncate] (count as u16)));
    emit(&mut ops, TermOp::Flush);
    assert(ops_view(ops@) =~= clear_lines_ops(count as int));
    ops
}

/// A message shown for a while and then taken away again.
#[derive(Debug, PartialEq, Eq)]
pub struct StatusBanner {
    /// Writes the lines.
    pub show: Vec<TermOp>,
    /// How long the lines stay, in milliseconds.
    pub hold_ms: u64,
    /// Clears exactly the lines that were written.
    pub clear: Vec<TermOp>,
}

/// The banner that shows `lines` for `duration_ms` milliseconds.
pub fn raw_show_status(lines: &[String], duration_ms: u64) -> (banner: StatusBanner)
    ensures
        ops_view(banner.show@) == write_ops(texts(lines@)).push(TermOpView::Flush),
        banner.hold_ms == duration_ms,
        ops_view(banner.clear@) == clear_lines_ops(lines@.len() as int),
{
    let mut show: Vec<TermOp> = Vec::new();
    let mut i: usize = 0;
    assert(texts(lines@).take(0) =~= Seq::<Seq<char>>::empty());
    assert(ops_view(show@) =~= write_ops(texts(lines@).take(0)));
    while i < lines.len()
        invariant
            i <= lines.len(),
            ops_view(show@) == write_ops(texts(lines@).take(i as int)),
        decreases lines.len() - i,
    {
        let ghost before = ops_view(show@);
        emit(&mut show, TermOp::Print(lines[i].clone()));
        emit(&mut show, TermOp::LineBreak);
        proof {
            let done = texts(lines@).take(i as int);
            let more = texts(lines@).take(i + 1);
            assert(more.drop_last() =~= done);
            assert(more.last() == lines@[i as int]@);
            assert(ops_view(show@) =~= before + seq![
                TermOpView::Print(lines@[i as int]@),
                TermOpView::LineBreak,
            ]);
        }
        i += 1;
    }
    assert(texts(lines@).take(lines@.len() as int) =~= texts(lines@));
    emit(&mut show, TermOp::Flush);
    StatusBanner { show, hold_ms: duration_ms, clear: raw_clear_lines(lines.len()) }
}

/// Whether `ops` repaints `frame` over an earlier frame of `prev` lines,
/// whatever the painted form of its styled spans is.
pub open spec fn repaints(frame: Seq<Seq<SpanView>>, prev: int, ops: Seq<TermOpView>) -> bool {
    exists|painted: Seq<Seq<char>>|
        frame_paints(frame, painted) && ops == #[trigger] render_ops(prev, painted)
}

// ---------------------------------------------------------------------------
// Select menu
// ---------------------------------------------------------------------------
/// A list to pick one item from with the arrow keys.
#[derive(Debug, PartialEq, Eq)]
pub struct SelectMenu {
    pub prompt: String,
    pub items: Vec<String>,
    /// The highlighted item.
    pub pos: usize,
    pub renderer: FrameRenderer,
}

/// What a key press did to a select menu.
#[derive(Clone, Copy, Debug, PartialEq, Eq, Structural)]
pub enum SelectOutcome {
    /// The menu stays open.
    Pending,
    /// The highlighted item was confirmed.
    Chosen(usize),
    Cancelled,
}

/// Up, or `k`.
pub open spec fn moves_up(key: KeyEvent) -> bool {
    key.is_key(KeyCode::Up) || key.is_char('k')
}

/// Down, or `j`.
pub open spec fn moves_down(key: KeyEvent) -> bool {
    key.is_key(KeyCode::Down) || key.is_char('j')
}

/// Escape, `q`, or control-C.
pub open spec fn cancels_menu(key: KeyEvent) -> bool {
    key.is_key(KeyCode::Esc) || key.is_char('q') || key.is_ctrl('c')
}

/// The highlighted position after a key: up and down go round the list.
pub open spec fn select_next_pos(pos: int, len: int, key: KeyEvent) -> int {
    if moves_up(key) {
        if pos == 0 {
            len - 1
        } else {
            pos - 1
        }
    } else if moves_down(key) {
        (pos + 1) % len
    } else {
        pos
    }
}

/// What a key does to a menu whose highlight is at `pos`.
pub open spec fn select_outcome(pos: usize, key: KeyEvent) -> SelectOutcome {
    if moves_up(key) || moves_down(key) {
        SelectOutcome::Pending
    } else if key.is_key(KeyCode::Enter) {
        SelectOutcome::Chosen(pos)
    } else if cancels_menu(key) {
        SelectOutcome::Cancelled
    } else {
        SelectOutcome::Pending
    }
}

/// The pointer in front of the highlighted row.
pub open spec fn pointer_span() -> SpanView {
    span_of(">"@, Style::hue(Hue::Yellow).bold())
}

/// One row of a menu.
pub open spec fn select_item_line(item: Seq<char>, highlighted: bool) -> Seq<SpanView> {
    if highlighted {
        seq![
            span_of("  "@, Style::plain()),
            pointer_span(),
            span_of(" "@, Style::plain()),
            span_of(item, Style::plain()),
        ]
    } else {
        seq![span_of("    "@, Style::plain()), span_of(item, Style::plain())]
    }
}

/// The rows of a menu.
pub open spec fn select_item_lines(items: Seq<Seq<char>>, pos: int) -> Seq<Seq<SpanView>> {
    Seq::new(items.len(), |i: int| select_item_line(items[i], i == pos))
}

/// A menu's frame: the prompt, then one row for each item.
pub open spec fn select_lines(prompt: Seq<char>, items: Seq<Seq<char>>, pos: int) -> Seq<
    Seq<SpanView>,
> {
    seq![seq![span_of("  "@, Style::plain()), span_of(prompt, Style::plain())]]
        + select_item_lines(items, pos)
}

/// The yellow, bold `>` that marks the current row.
pub fn pointer() -> (r: Span)
    ensures
        r@ == pointer_span(),
{
    span(">", Style::hue(Hue::Yellow).bold())
}

impl SelectMenu {
    /// The frame that this menu shows.
    pub open spec fn frame(&self) -> Seq<Seq<SpanView>> {
        select_lines(self.prompt@, texts(self.items@), self.pos as int)
    }

    /// Whether the menu can take the key: the arrow keys need a list
    /// that is not empty, and the highlight must be able to move on.
    pub open spec fn takes(&self, key: KeyEvent) -> bool {
        &&& moves_up(key) || moves_down(key) ==> self.items@.len() > 0
        &&& moves_down(key) ==> self.pos < usize::MAX
    }

    /// Whether `next`, `outcome` and `ops` are what the key makes of this
    /// menu.  While the menu stays open it is painted again, over what it
    /// painted before; once it is done its lines are cleared.
    pub open spec fn stepped(
        &self,
        key: KeyEvent,
        next: SelectMenu,
        outcome: SelectOutcome,
        ops: Seq<TermOpView>,
    ) -> bool {
        &&& outcome == select_outcome(self.pos, key)
        &&& next.pos == select_next_pos(self.pos as int, self.items@.len() as int, key)
        &&& next.prompt == self.prompt
        &&& next.items == self.items
        &&& outcome is Pending ==> repaints(
            next.frame(),
            self.renderer.previous_line_count as int,
            ops,
        ) && next.renderer.previous_line_count == self.items@.len() + 1
        &&& !(outcome is Pending) ==> ops == clear_lines_ops(
            self.renderer.previous_line_count as int,
        ) && next.renderer == self.renderer
    }

    /// The menu's frame: the prompt line and one line for each item, the
    /// highlighted one behind a pointer.
    pub fn lines(&self) -> (r: Vec<Vec<Span>>)
        ensures
            frame_view(r@) == self.frame(),
    {
        let mut frame: Vec<Vec<Span>> = Vec::new();
        let mut head: Vec<Span> = Vec::new();
        push_span(&mut head, plain("  "));
        push_span(&mut head, plain(self.prompt.as_str()));
        assert(line_view(head@) =~= seq![
            span_of("  "@, Style::plain()),
            span_of(self.prompt@, Style::plain()),
        ]);
        push_line(&mut frame, head);
        let ghost first = frame_view(frame@);
        let ghost items = texts(self.items@);
        let mut i: usize = 0;
        assert(frame_view(frame@) =~= first + select_item_lines(items, self.pos as int).take(0));
        while i < self.items.len()
            invariant
                i <= self.items.len(),
                items == texts(self.items@),
                frame_view(frame@) == first + select_item_lines(items, self.pos as int).take(
                    i as int,
                ),
            decreases self.items.len() - i,
        {
            let mut row: Vec<Span> = Vec::new();
            if i == self.pos {
                push_span(&mut row, plain("  "));
                push_span(&mut row, pointer());
                push_span(&mut row, plain(" "));
                push_span(&mut row, plain(self.items[i].as_str()));
            } else {
                push_span(&mut row, plain("    "));
                push_span(&mut row, plain(self.items[i].as_str()));
            }
            assert(line_view(row@) =~= select_item_line(items[i as int], i == self.pos));
            let ghost before = frame_view(frame@);
            push_line(&mut frame, row);
            proof {
                let all = select_item_lines(items, self.pos as int);
                assert(all.take(i + 1) =~= all.take(i as int).push(all[i as int]));
                assert(frame_view(frame@) =~= first + all.take(i + 1));
            }
            i += 1;
        }
        proof {
            let all = select_item_lines(items, self.pos as int);
            assert(all.take(all.len() as int) =~= all);
            assert(first =~= seq![
                seq![span_of("  "@, Style::plain()), span_of(self.prompt@, Style::plain())],
            ]);
        }
        frame
    }

    /// Paints the menu over what it painted before.
    pub fn paint(&mut self) -> (ops: Vec<TermOp>)
        ensures
            repaints(
                old(self).frame(),
                old(self).renderer.previous_line_count as int,
                ops_view(ops@),
            ),
            final(self).renderer.previous_line_count == old(self).items@.len() + 1,
            final(self).prompt == old(self).prompt,
            final(self).items == old(self).items,
            final(self).pos == old(self).pos,
    {
        let frame = self.lines();
        let painted = paint_frame(&frame);
        let ops = self.renderer.render(&painted);
        assert(frame_paints(old(self).frame(), texts(painted@)));
        ops
    }

    /// Takes one keyboard event.  Up and down move the highlight round the
    /// list and the menu is painted again; Enter confirms the highlighted
    /// item; Escape, `q` and control-C cancel.  When the menu is done, its
    /// lines are cleared from the screen.
    pub fn on_key(&mut self, key: KeyEvent) -> (r: (SelectOutcome, Vec<TermOp>))
        requires
            old(self).takes(key),
        ensures
            old(self).stepped(key, *final(self), r.0, ops_view(r.1@)),
            old(self).pos < old(self).items@.len() ==> final(self).pos < old(self).items@.len(),
    {
        let outcome = select_step(self.pos, self.items.len(), key);
        match outcome.0 {
            SelectOutcome::Pending => {
                self.pos = outcome.1;
                let ops = self.paint();
                (SelectOutcome::Pending, ops)
            },
            done => {
                let ops = raw_clear_lines(self.renderer.previous_line_count);
                (done, ops)
            },
        }
    }
}

/// A menu of `items` under `prompt`, with `default` highlighted.  It has
/// not been painted yet.
pub fn raw_select(prompt: &str, items: &[String], default: usize) -> (r: SelectMenu)
    ensures
        r.prompt@ == prompt@,
        texts(r.items@) == texts(items@),
        r.pos == default,
        r.renderer.previous_line_count == 0,
{
    let mut copies: Vec<String> = Vec::new();
    let mut i: usize = 0;
    assert(texts(copies@) =~= texts(items@).take(0));
    while i < items.len()
        invariant
            i <= items.len(),
            texts(copies@) == texts(items@).take(i as int),
        decreases items.len() - i,
    {
        push_text(&mut copies, items[i].clone());
        proof {
            let all = texts(items@);
            assert(all.take(i + 1) =~= all.take(i as int).push(all[i as int]));
        }
        i += 1;
    }
    assert(texts(items@).take(items@.len() as int) =~= texts(items@));
    SelectMenu {
        prompt: String::from_str(prompt),
        items: copies,
        pos: default,
        renderer: FrameRenderer::new(),
    }
}

/// What a key does to a menu of `len` items with the highlight at `pos`:
/// the outcome and the new highlight.
pub fn select_step(pos: usize, len: usize, key: KeyEvent) -> (r: (SelectOutcome, usize))
    requires
        moves_up(key) || moves_down(key) ==> len > 0,
        moves_down(key) ==> pos < usize::MAX,
    ensures
        r.0 == select_outcome(pos, key),
        r.1 == select_next_pos(pos as int, len as int, key),
        pos < len ==> r.1 < len,
{
    if !key.press {
        return (SelectOutcome::Pending, pos);
    }
    match key.code {
        KeyCode::Up => (SelectOutcome::Pending, if pos == 0 { len - 1 } else { pos - 1 }),
        KeyCode::Down => (SelectOutcome::Pending, (pos + 1) % len),
        KeyCode::Enter => (SelectOutcome::Chosen(pos), pos),
        KeyCode::Esc => (SelectOutcome::Cancelled, pos),
        KeyCode::Char(c) => {
            if c == 'k' {
                (SelectOutcome::Pending, if pos == 0 { len - 1 } else { pos - 1 })
            } else if c == 'j' {
                (SelectOutcome::Pending, (pos + 1) % len)
            } else if c == 'q' || (c == 'c' && key.ctrl) {
                (SelectOutcome::Cancelled, pos)
            } else {
                (SelectOutcome::Pending, pos)
            }
        },
        _ => (SelectOutcome::Pending, pos),
    }
}

// ---------------------------------------------------------------------------
// Confirm
// ---------------------------------------------------------------------------
/// What a key press did to a yes/no question.
#[derive(Clone, Copy, Debug, PartialEq, Eq, Structural)]
pub enum ConfirmOutcome {
    /// The question stays open.
    Pending,
    Answered(bool),
    Cancelled,
}

/// The hint behind the question; the capital letter is the default.
pub open spec fn confirm_hint(default: bool) -> Seq<char> {
    if default {
        "[Y/n]"@
    } else {
        "[y/N]"@
    }
}

/// The one line of a yes/no question.
pub open spec fn confirm_spans(prompt: Seq<char>, default: bool) -> Seq<SpanView> {
    seq![
        span_of("  "@, Style::plain()),
        span_of(prompt, Style::plain()),
        span_of(" "@, Style::plain()),
        span_of(confirm_hint(default), Style::plain().dimmed()),
    ]
}

/// What a key does to a yes/no question: `y` and `n` in either case answer
/// it, Enter gives the default, Escape and control-C cancel.
pub open spec fn confirm_outcome(key: KeyEvent, default: bool) -> ConfirmOutcome {
    if key.is_char('y') || key.is_char('Y') {
        ConfirmOutcome::Answered(true)
    } else if key.is_char('n') || key.is_char('N') {
        ConfirmOutcome::Answered(false)
    } else if key.is_key(KeyCode::Enter) {
        ConfirmOutcome::Answered(default)
    } else if key.is_key(KeyCode::Esc) || key.is_ctrl('c') {
        ConfirmOutcome::Cancelled
    } else {
        ConfirmOutcome::Pending
    }
}

/// A yes/no question.
#[derive(Debug, PartialEq, Eq)]
pub struct Confirm {
    pub prompt: String,
    /// The answer that Enter gives.
    pub default: bool,
}

/// The question `prompt`, with `default` for its answer where the user
/// only presses Enter.
pub fn raw_confirm(prompt: &str, default: bool) -> (r: Confirm)
    ensures
        r.prompt@ == prompt@,
        r.default == default,
{
    Confirm { prompt: String::from_str(prompt), default }
}

impl Confirm {
    /// The line of the question.
    pub fn line(&self) -> (r: Vec<Span>)
        ensures
            line_view(r@) == confirm_spans(self.prompt@, self.default),
    {
        let mut line: Vec<Span> = Vec::new();
        push_span(&mut line, plain("  "));
        push_span(&mut line, plain(self.prompt.as_str()));
        push_span(&mut line, plain(" "));
        let hint = if self.default {
            "[Y/n]"
        } else {
            "[y/N]"
        };
        push_span(&mut line, span(hint, Style::plain().dimmed()));
        assert(line_view(line@) =~= confirm_spans(self.prompt@, self.default));
        line
    }

    /// Shows the question: exactly one line.
    pub fn open(&self) -> (ops: Vec<TermOp>)
        ensures
            exists|shown: Seq<char>|
                is_painting(confirm_spans(self.prompt@, self.default), shown) && ops_view(ops@)
                    == #[trigger] println_ops(shown),
    {
        let line = self.line();
        let shown = paint_line(&line);
        let mut ops: Vec<TermOp> = Vec::new();
        emit(&mut ops, TermOp::Print(shown));
        emit(&mut ops, TermOp::LineBreak);
        emit(&mut ops, TermOp::Flush);
        assert(ops_view(ops@) =~= println_ops(shown@));
        ops
    }

    /// Takes one keyboard event.  Once the question is answered or
    /// cancelled, its line is cleared.
    pub fn on_key(&self, key: KeyEvent) -> (r: (ConfirmOutcome, Vec<TermOp>))
        ensures
            r.0 == confirm_outcome(key, self.default),
            ops_view(r.1@) == if r.0 is Pending {
                Seq::<TermOpView>::empty()
            } else {
                clear_lines_ops(1)
            },
    {
        let outcome = if !key.press {
            ConfirmOutcome::Pending
        } else {
            match key.code {
                KeyCode::Enter => ConfirmOutcome::Answered(self.default),
                KeyCode::Esc => ConfirmOutcome::Cancelled,
                KeyCode::Char(c) => {
                    if c == 'y' || c == 'Y' {
                        ConfirmOutcome::Answered(true)
                    } else if c == 'n' || c == 'N' {
                        ConfirmOutcome::Answered(false)
                    } else if c == 'c' && key.ctrl {
                        ConfirmOutcome::Cancelled
                    } else {
                        ConfirmOutcome::Pending
                    }
                },
                _ => ConfirmOutcome::Pending,
            }
        };
        match outcome {
            ConfirmOutcome::Pending => {
                let ops: Vec<TermOp> = Vec::new();
                assert(ops_view(ops@) =~= Seq::<TermOpView>::empty());
                (outcome, ops)
            },
            _ => (outcome, raw_clear_lines(1)),
        }
    }
}

// ---------------------------------------------------------------------------
// Text and password input
// ---------------------------------------------------------------------------
/// One line of text being typed.
#[derive(Debug, PartialEq, Eq)]
pub struct TextInput {
    pub prompt: String,
    /// What has been typed so far.
    pub value: String,
    /// Whether the text is a secret, echoed as asterisks.
    pub masked: bool,
}

/// What a key press did to a text input.
#[derive(Debug, PartialEq, Eq)]
pub enum InputOutcome {
    /// The input stays open.
    Pending,
    /// Enter: the text as it stood.
    Committed(String),
    Cancelled,
}

/// The kind of an [`InputOutcome`], and the committed text as a sequence.
pub ghost enum InputOutcomeView {
    Pending,
    Committed(Seq<char>),
    Cancelled,
}

impl View for InputOutcome {
    type V = InputOutcomeView;

    open spec fn view(&self) -> InputOutcomeView {
        match *self {
            InputOutcome::Pending => InputOutcomeView::Pending,
            InputOutcome::Committed(s) => InputOutcomeView::Committed(s@),
            InputOutcome::Cancelled => InputOutcomeView::Cancelled,
        }
    }
}

/// What is echoed for the text typed so far: the text, or one asterisk for
/// each of its characters.
pub open spec fn input_echo(value: Seq<char>, masked: bool) -> Seq<char> {
    if masked {
        repeated("*"@, value.len())
    } else {
        value
    }
}

/// The input line as it is shown.
pub open spec fn input_display(prompt: Seq<char>, value: Seq<char>, masked: bool) -> Seq<char> {
    "  "@ + prompt + ": "@ + input_echo(value, masked)
}

/// The text after a key press: a character is added at the end, Backspace
/// takes the last one away, control-U empties the line.
pub open spec fn input_next_value(value: Seq<char>, key: KeyEvent) -> Seq<char> {
    if !key.press {
        value
    } else {
        match key.code {
            KeyCode::Backspace => if value.len() > 0 {
                value.drop_last()
            } else {
                value
            },
            KeyCode::Char(c) => if key.ctrl && c == 'u' {
                Seq::empty()
            } else if key.ctrl && c == 'c' {
                value
            } else {
                value.push(c)
            },
            _ => value,
        }
    }
}

/// What a key does to an input that holds `value`: Enter commits, Escape
/// and control-C cancel, every other key leaves it open.
pub open spec fn input_outcome(value: Seq<char>, key: KeyEvent) -> InputOutcomeView {
    if key.is_key(KeyCode::Enter) {
        InputOutcomeView::Committed(value)
    } else if key.is_key(KeyCode::Esc) || key.is_ctrl('c') {
        InputOutcomeView::Cancelled
    } else {
        InputOutcomeView::Pending
    }
}

/// Redrawing the input line: the whole line is cleared and written again.
pub open spec fn input_redraw_ops(display: Seq<char>) -> Seq<TermOpView> {
    seq![
        TermOpView::MoveToLineStart,
        TermOpView::ClearLine,
        TermOpView::Print(display),
        TermOpView::Flush,
    ]
}

/// Opening an input: the cursor is shown while the user types.
pub open spec fn input_open_ops(display: Seq<char>) -> Seq<TermOpView> {
    seq![TermOpView::ShowCursor, TermOpView::Flush] + input_redraw_ops(display)
}

/// Closing an input: the line is cleared and the cursor hidden again.
pub open spec fn input_close_ops() -> Seq<TermOpView> {
    seq![
        TermOpView::MoveToLineStart,
        TermOpView::ClearLine,
        TermOpView::HideCursor,
        TermOpView::Flush,
    ]
}

impl TextInput {
    /// Whether `next`, `outcome` and `ops` are what the key makes of this
    /// input.  While the input stays open the line is drawn again; once it
    /// is committed or cancelled the line is cleared and the cursor hidden.
    pub open spec fn stepped(
        &self,
        key: KeyEvent,
        next: TextInput,
        outcome: InputOutcomeView,
        ops: Seq<TermOpView>,
    ) -> bool {
        &&& outcome == input_outcome(self.value@, key)
        &&& next.value@ == input_next_value(self.value@, key)
        &&& next.prompt == self.prompt
        &&& next.masked == self.masked
        &&& ops == if outcome is Pending {
            input_redraw_ops(input_display(next.prompt@, next.value@, next.masked))
        } else {
            input_close_ops()
        }
    }

    /// The line as it is shown: the prompt, a colon, and the echo of what
    /// has been typed.
    pub fn display(&self) -> (r: String)
        ensures
            r@ == input_display(self.prompt@, self.value@, self.masked),
    {
        let mut line = String::from_str("  ");
        line.append(self.prompt.as_str());
        line.append(": ");
        if self.masked {
            let stars = repeat_str("*", self.value.as_str().unicode_len());
            line.append(stars.as_str());
        } else {
            line.append(self.value.as_str());
        }
        line
    }

    fn redraw(&self, ops: &mut Vec<TermOp>)
        ensures
            ops_view(final(ops)@) == ops_view(old(ops)@) + input_redraw_ops(
                input_display(self.prompt@, self.value@, self.masked),
            ),
    {
        let ghost before = ops_view(ops@);
        emit(ops, TermOp::MoveToLineStart);
        emit(ops, TermOp::ClearLine);
        emit(ops, TermOp::Print(self.display()));
        emit(ops, TermOp::Flush);
        assert(ops_view(ops@) =~= before + input_redraw_ops(
            input_display(self.prompt@, self.value@, self.masked),
        ));
    }

    /// Shows the cursor and draws the line for the first time.
    pub fn open(&self) -> (ops: Vec<TermOp>)
        ensures
            ops_view(ops@) == input_open_ops(
                input_display(self.prompt@, self.value@, self.masked),
            ),
    {
        let mut ops: Vec<TermOp> = Vec::new();
        emit(&mut ops, TermOp::ShowCursor);
        emit(&mut ops, TermOp::Flush);
        assert(ops_view(ops@) =~= seq![TermOpView::ShowCursor, TermOpView::Flush]);
        self.redraw(&mut ops);
        ops
    }

    /// Takes one keyboard event.  While the input stays open the line is
    /// drawn again after every event; when it is committed or cancelled the
    /// line is cleared and the cursor hidden.
    pub fn on_key(&mut self, key: KeyEvent) -> (r: (InputOutcome, Vec<TermOp>))
        ensures
            old(self).stepped(key, *final(self), r.0@, ops_view(r.1@)),
    {
        let mut ops: Vec<TermOp> = Vec::new();
        let mut done: Option<bool> = None;
        if key.press {
            match key.code {
                KeyCode::Enter => {
                    done = Some(true);
                },
                KeyCode::Esc => {
                    done = Some(false);
                },
                KeyCode::Backspace => {
                    let _ = pop_char(&mut self.value);
                },
                KeyCode::Char(c) => {
                    if key.ctrl && c == 'u' {
                        self.value = String::new();
                    } else if key.ctrl && c == 'c' {
                        done = Some(false);
                    } else {
                        push_char(&mut self.value, c);
                    }
                },
                _ => {},
            }
        }
        match done {
            None => {
                assert(ops_view(ops@) =~= Seq::<TermOpView>::empty());
                self.redraw(&mut ops);
                assert(ops_view(ops@) =~= input_redraw_ops(
                    input_display(self.prompt@, self.value@, self.masked),
                ));
                (InputOutcome::Pending, ops)
            },
            Some(commit) => {
                emit(&mut ops, TermOp::MoveToLineStart);
                emit(&mut ops, TermOp::ClearLine);
                emit(&mut ops, TermOp::HideCursor);
                emit(&mut ops, TermOp::Flush);
                assert(ops_view(ops@) =~= input_close_ops());
                if commit {
                    (InputOutcome::Committed(self.value.clone()), ops)
                } else {
                    (InputOutcome::Cancelled, ops)
                }
            },
        }
    }
}

/// A text input under `prompt` that starts with `default` already typed.
pub fn raw_input(prompt: &str, default: &str) -> (r: TextInput)
    ensures
        r.prompt@ == prompt@,
        r.value@ == default@,
        !r.masked,
{
    TextInput { prompt: String::from_str(prompt), value: String::from_str(default), masked: false }
}

/// A password input under `prompt`: it starts empty and echoes one
/// asterisk for each character.
pub fn raw_password(prompt: &str) -> (r: TextInput)
    ensures
        r.prompt@ == prompt@,
        r.value@ == Seq::<char>::empty(),
        r.masked,
{
    TextInput { prompt: String::from_str(prompt), value: String::new(), masked: true }
}

// ---------------------------------------------------------------------------
// Any prompt
// ---------------------------------------------------------------------------
/// The widget that puts a [`Prompt`] to the user.
#[derive(Debug, PartialEq, Eq)]
pub enum Widget {
    Select(SelectMenu),
    Confirm(Confirm),
    Input(TextInput),
}

/// The answer that a menu's outcome is; none while the menu is open.
pub open spec fn select_answer(outcome: SelectOutcome) -> Option<AnswerView> {
    match outcome {
        SelectOutcome::Pending => None,
        SelectOutcome::Chosen(i) => Some(AnswerView::Index(Some(i))),
        SelectOutcome::Cancelled => Some(AnswerView::Index(None)),
    }
}

/// The answer that a yes/no question's outcome is.
pub open spec fn confirm_answer(outcome: ConfirmOutcome) -> Option<AnswerView> {
    match outcome {
        ConfirmOutcome::Pending => None,
        ConfirmOutcome::Answered(yes) => Some(AnswerView::Flag(Some(yes))),
        ConfirmOutcome::Cancelled => Some(AnswerView::Flag(None)),
    }
}

/// The answer that an input's outcome is.
pub open spec fn input_answer(outcome: InputOutcomeView) -> Option<AnswerView> {
    match outcome {
        InputOutcomeView::Pending => None,
        InputOutcomeView::Committed(text) => Some(AnswerView::Text(Some(text))),
        InputOutcomeView::Cancelled => Some(AnswerView::Text(None)),
    }
}

/// What an optional answer denotes.
pub open spec fn answer_view(answer: Option<Answer>) -> Option<AnswerView> {
    match answer {
        Some(a) => Some(a@),
        None => None,
    }
}

/// Whether `ops` shows the yes/no question `prompt`: the prompt is painted,
/// the hint is put behind it, and the line is written.
pub open spec fn shows_question(
    prompt: Seq<SpanView>,
    default: bool,
    ops: Seq<TermOpView>,
) -> bool {
    exists|painted: Seq<char>, shown: Seq<char>|
        #![trigger is_painting(prompt, painted), println_ops(shown)]
        is_painting(prompt, painted) && is_painting(confirm_spans(painted, default), shown)
            && ops == println_ops(shown)
}

impl Widget {
    /// Whether this is the widget for `prompt`, as it is before any key,
    /// and `ops` what it shows first.
    pub open spec fn opens(&self, prompt: PromptView, ops: Seq<TermOpView>) -> bool {
        match (*self, prompt) {
            (Widget::Select(menu), PromptView::Select { prompt, items, default }) => {
                &&& is_painting(prompt, menu.prompt@)
                &&& frame_paints(items, texts(menu.items@))
                &&& menu.pos == default
                &&& menu.renderer.previous_line_count == items.len() + 1
                &&& repaints(menu.frame(), 0, ops)
            },
            (Widget::Confirm(question), PromptView::Confirm { prompt, default }) => {
                &&& is_painting(prompt, question.prompt@)
                &&& question.default == default
                &&& shows_question(prompt, default, ops)
            },
            (Widget::Input(input), PromptView::Input { prompt, default }) => {
                &&& input.prompt@ == prompt
                &&& input.value@ == default
                &&& !input.masked
                &&& ops == input_open_ops(input_display(prompt, default, false))
            },
            (Widget::Input(input), PromptView::Password { prompt }) => {
                &&& input.prompt@ == prompt
                &&& input.value@ == Seq::<char>::empty()
                &&& input.masked
                &&& ops == input_open_ops(input_display(prompt, Seq::empty(), true))
            },
            _ => false,
        }
    }

    /// Whether `next`, `answer` and `ops` are what the key makes of this
    /// widget.  A menu that cannot take the key stays as it is.
    pub open spec fn stepped(
        &self,
        key: KeyEvent,
        next: Widget,
        answer: Option<AnswerView>,
        ops: Seq<TermOpView>,
    ) -> bool {
        match *self {
            Widget::Select(menu) => if menu.takes(key) {
                &&& next is Select
                &&& exists|outcome: SelectOutcome|
                    #![trigger select_answer(outcome)]
                    menu.stepped(key, next->Select_0, outcome, ops) && answer == select_answer(
                        outcome,
                    )
            } else {
                next == *self && answer is None && ops == Seq::<TermOpView>::empty()
            },
            Widget::Confirm(question) => {
                &&& next == *self
                &&& answer == confirm_answer(confirm_outcome(key, question.default))
                &&& ops == if answer is None {
                    Seq::<TermOpView>::empty()
                } else {
                    clear_lines_ops(1)
                }
            },
            Widget::Input(input) => {
                &&& next is Input
                &&& exists|outcome: InputOutcomeView|
                    #![trigger input_answer(outcome)]
                    input.stepped(key, next->Input_0, outcome, ops) && answer == input_answer(
                        outcome,
                    )
            },
        }
    }

    /// The widget for `prompt`, and what it shows first.
    pub fn open(prompt: &Prompt) -> (r: (Widget, Vec<TermOp>))
        ensures
            r.0.opens(prompt@, ops_view(r.1@)),
    {
        match prompt {
            Prompt::Select { prompt, items, default } => {
                let painted = paint_line(prompt);
                let rows = paint_frame(items);
                let mut menu = raw_select(painted.as_str(), rows.as_slice(), *default);
                let ops = menu.paint();
                (Widget::Select(menu), ops)
            },
            Prompt::Confirm { prompt, default } => {
                let painted = paint_line(prompt);
                let question = raw_confirm(painted.as_str(), *default);
                let ops = question.open();
                proof {
                    let shown = choose|shown: Seq<char>|
                        is_painting(confirm_spans(painted@, *default), shown) && ops_view(ops@)
                            == #[trigger] println_ops(shown);
                    assert(is_painting(line_view(prompt@), painted@) && is_painting(
                        confirm_spans(painted@, *default),
                        shown,
                    ) && ops_view(ops@) == println_ops(shown));
                }
                (Widget::Confirm(question), ops)
            },
            Prompt::Input { prompt, default } => {
                let input = raw_input(prompt.as_str(), default.as_str());
                let ops = input.open();
                (Widget::Input(input), ops)
            },
            Prompt::Password { prompt } => {
                let input = raw_password(prompt.as_str());
                let ops = input.open();
                (Widget::Input(input), ops)
            },
        }
    }

    /// Takes one keyboard event, and gives the user's answer once there is
    /// one.
    pub fn on_key(&mut self, key: KeyEvent) -> (r: (Option<Answer>, Vec<TermOp>))
        ensures
            old(self).stepped(key, *final(self), answer_view(r.0), ops_view(r.1@)),
    {
        match self {
            Widget::Select(menu) => {
                if !menu_takes(menu, key) {
                    let ops: Vec<TermOp> = Vec::new();
                    assert(ops_view(ops@) =~= Seq::<TermOpView>::empty());
                    return (None, ops);
                }
                let ghost before = *menu;
                let (outcome, ops) = menu.on_key(key);
                assert(before.stepped(key, *menu, outcome, ops_view(ops@)));
                let answer = match outcome {
                    SelectOutcome::Pending => None,
                    SelectOutcome::Chosen(i) => Some(Answer::Index(Some(i))),
                    SelectOutcome::Cancelled => Some(Answer::Index(None)),
                };
                assert(answer_view(answer) == select_answer(outcome));
                (answer, ops)
            },
            Widget::Confirm(question) => {
                let (outcome, ops) = question.on_key(key);
                let answer = match outcome {
                    ConfirmOutcome::Pending => None,
                    ConfirmOutcome::Answered(yes) => Some(Answer::Flag(Some(yes))),
                    ConfirmOutcome::Cancelled => Some(Answer::Flag(None)),
                };
                (answer, ops)
            },
            Widget::Input(input) => {
                let ghost before = *input;
                let (outcome, ops) = input.on_key(key);
                let ghost outcome_view = outcome@;
                assert(before.stepped(key, *input, outcome_view, ops_view(ops@)));
                let answer = match outcome {
                    InputOutcome::Pending => None,
                    InputOutcome::Committed(text) => Some(Answer::Text(Some(text))),
                    InputOutcome::Cancelled => Some(Answer::Text(None)),
                };
                assert(answer_view(answer) == input_answer(outcome_view));
                (answer, ops)
            },
        }
    }
}

/// Whether the menu can take the key.
pub fn menu_takes(menu: &SelectMenu, key: KeyEvent) -> (r: bool)
    ensures
        r == menu.takes(key),
{
    if !key.press {
        return true;
    }
    let up = match key.code {
        KeyCode::Up => true,
        KeyCode::Char(c) => c == 'k',
        _ => false,
    };
    let down = match key.code {
        KeyCode::Down => true,
        KeyCode::Char(c) => c == 'j',
        _ => false,
    };
    (!(up || down) || menu.items.len() > 0) && (!down || menu.pos < usize::MAX)
}

} // verus!
