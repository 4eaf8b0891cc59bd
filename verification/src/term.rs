//! What is sent to the terminal and what comes back from it, as plain data.
//! Nothing here touches the terminal: every paint operation is a list of
//! commands that ends in a flush, for the caller to carry out in order.

use vstd::prelude::*;

verus! {

/// One command to the terminal.
#[derive(Debug, PartialEq, Eq)]
pub enum TermOp {
    EnableRawMode,
    DisableRawMode,
    HideCursor,
    ShowCursor,
    /// Move the cursor up by so many lines.
    MoveUp(u16),
    /// Move the cursor to the first column of its line.
    MoveToLineStart,
    /// Clear the line the cursor is on.
    ClearLine,
    /// Clear from the cursor to the end of the screen.
    ClearBelow,
    /// Write the text where the cursor is.
    Print(String),
    /// Carriage return and line feed: raw mode does not add the return.
    LineBreak,
    /// Hand everything queued so far to the terminal.
    Flush,
}

/// What a [`TermOp`] denotes.
pub ghost enum TermOpView {
    EnableRawMode,
    DisableRawMode,
    HideCursor,
    ShowCursor,
    MoveUp(u16),
    MoveToLineStart,
    ClearLine,
    ClearBelow,
    Print(Seq<char>),
    LineBreak,
    Flush,
}

impl View for TermOp {
    type V = TermOpView;

    open spec fn view(&self) -> TermOpView {
        match *self {
            TermOp::EnableRawMode => TermOpView::EnableRawMode,
            TermOp::DisableRawMode => TermOpView::DisableRawMode,
            TermOp::HideCursor => TermOpView::HideCursor,
            TermOp::ShowCursor => TermOpView::ShowCursor,
            TermOp::MoveUp(n) => TermOpView::MoveUp(n),
            TermOp::MoveToLineStart => TermOpView::MoveToLineStart,
            TermOp::ClearLine => TermOpView::ClearLine,
            TermOp::ClearBelow => TermOpView::ClearBelow,
            TermOp::Print(s) => TermOpView::Print(s@),
            TermOp::LineBreak => TermOpView::LineBreak,
            TermOp::Flush => TermOpView::Flush,
        }
    }
}

/// What a list of commands denotes.
pub open spec fn ops_view(ops: Seq<TermOp>) -> Seq<TermOpView> {
    Seq::new(ops.len(), |i: int| ops[i]@)
}

/// A key on the keyboard, as far as the widgets tell keys apart.
#[derive(Clone, Copy, Debug, PartialEq, Eq, Structural)]
pub enum KeyCode {
    Up,
    Down,
    Enter,
    Esc,
    Backspace,
    Delete,
    Char(char),
    /// Any key that no widget reacts to.
    Other,
}

/// One event from the keyboard.
#[derive(Clone, Copy, Debug, PartialEq, Eq, Structural)]
pub struct KeyEvent {
    pub code: KeyCode,
    /// Whether the control key was held.
    pub ctrl: bool,
    /// Whether the key went down.  Some platforms also report the release;
    /// the widgets react to presses only.
    pub press: bool,
}

impl KeyEvent {
    /// A press of a key, without the control key.
    pub fn press(code: KeyCode) -> (r: KeyEvent)
        ensures
            r == (KeyEvent { code, ctrl: false, press: true }),
    {
        KeyEvent { code, ctrl: false, press: true }
    }

    /// A press of a character key while the control key is held.
    pub fn ctrl(c: char) -> (r: KeyEvent)
        ensures
            r == (KeyEvent { code: KeyCode::Char(c), ctrl: true, press: true }),
    {
        KeyEvent { code: KeyCode::Char(c), ctrl: true, press: true }
    }

    /// Whether this is a press of the character `c`, whatever else is held.
    pub open spec fn is_char(self, c: char) -> bool {
        self.press && self.code == KeyCode::Char(c)
    }

    /// Whether this is a press of `c` with the control key held.
    pub open spec fn is_ctrl(self, c: char) -> bool {
        self.press && self.ctrl && self.code == KeyCode::Char(c)
    }

    /// Whether this is a press of the given key, other than a character.
    pub open spec fn is_key(self, code: KeyCode) -> bool {
        self.press && self.code == code
    }
}

/// How far down one command moves the cursor, in lines: a line break moves
/// it down by one, a move up by its count.
pub open spec fn row_step(op: TermOpView) -> int {
    match op {
        TermOpView::LineBreak => 1,
        TermOpView::MoveUp(n) => -(n as int),
        _ => 0,
    }
}

/// How many lines one command clears.
pub open spec fn clear_step(op: TermOpView) -> nat {
    match op {
        TermOpView::ClearLine => 1,
        _ => 0,
    }
}

/// How many times one command flushes: once for a flush, else never.
pub open spec fn flush_step(op: TermOpView) -> nat {
    match op {
        TermOpView::Flush => 1,
        _ => 0,
    }
}

/// How far down the cursor has moved after the commands, in lines.
pub open spec fn rows_moved(ops: Seq<TermOpView>) -> int
    decreases ops.len(),
{
    if ops.len() == 0 {
        0
    } else {
        rows_moved(ops.drop_last()) + row_step(ops.last())
    }
}

/// How many of the commands clear a line.
pub open spec fn line_clears(ops: Seq<TermOpView>) -> nat
    decreases ops.len(),
{
    if ops.len() == 0 {
        0
    } else {
        line_clears(ops.drop_last()) + clear_step(ops.last())
    }
}

/// How many of the commands are flushes.
pub open spec fn flushes(ops: Seq<TermOpView>) -> nat
    decreases ops.len(),
{
    if ops.len() == 0 {
        0
    } else {
        flushes(ops.drop_last()) + flush_step(ops.last())
    }
}

/// The moves of two command lists add up.
pub proof fn lemma_rows_moved_concat(a: Seq<TermOpView>, b: Seq<TermOpView>)
    ensures
        rows_moved(a + b) == rows_moved(a) + rows_moved(b),
    decreases b.len(),
{
    if b.len() == 0 {
        assert(a + b =~= a);
    } else {
        assert((a + b).drop_last() =~= a + b.drop_last());
        assert((a + b).last() == b.last());
        lemma_rows_moved_concat(a, b.drop_last());
    }
}

/// The line clears of two command lists add up.
pub proof fn lemma_line_clears_concat(a: Seq<TermOpView>, b: Seq<TermOpView>)
    ensures
        line_clears(a + b) == line_clears(a) + line_clears(b),
    decreases b.len(),
{
    if b.len() == 0 {
        assert(a + b =~= a);
    } else {
        assert((a + b).drop_last() =~= a + b.drop_last());
        assert((a + b).last() == b.last());
        lemma_line_clears_concat(a, b.drop_last());
    }
}

/// The flushes of two command lists add up.
pub proof fn lemma_flushes_concat(a: Seq<TermOpView>, b: Seq<TermOpView>)
    ensures
        flushes(a + b) == flushes(a) + flushes(b),
    decreases b.len(),
{
    if b.len() == 0 {
        assert(a + b =~= a);
    } else {
        assert((a + b).drop_last() =~= a + b.drop_last());
        assert((a + b).last() == b.last());
        lemma_flushes_concat(a, b.drop_last());
    }
}

} // verus!
