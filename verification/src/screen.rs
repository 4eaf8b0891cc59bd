//! A model of the screen, to say what the renderer's commands come to.
//!
//! The model knows rows of text and a cursor.  It does not know the
//! screen's height: it holds for frames that fit on the screen, where
//! moving up is never cut short.

use vstd::prelude::*;
use crate::term::TermOpView;
use crate::render::{
    blank_ops, clear_frame_ops, clear_lines_ops, move_up_ops, paint_ops, render_ops, shrink_ops,
};

verus! {

/// What the screen shows and where the cursor is.
pub ghost struct Screen {
    /// The text of each row that has any.
    pub rows: Map<int, Seq<char>>,
    /// The cursor's row; rows count downwards.
    pub row: int,
    /// The cursor's column.
    pub col: int,
}

/// The line after `text` has been written into it from column `col` on.
pub open spec fn overwritten(line: Seq<char>, col: int, text: Seq<char>) -> Seq<char> {
    if col <= 0 {
        if text.len() >= line.len() {
            text
        } else {
            text + line.skip(text.len() as int)
        }
    } else if col >= line.len() {
        line + Seq::new((col - line.len()) as nat, |i: int| ' ') + text
    } else if col + text.len() >= line.len() {
        line.take(col) + text
    } else {
        line.take(col) + text + line.skip(col + text.len())
    }
}

/// What is left of the line in front of column `col`.
pub open spec fn kept_before(line: Seq<char>, col: int) -> Seq<char> {
    if col >= line.len() {
        line
    } else {
        line.take(col)
    }
}

impl Screen {
    /// What row `r` shows: nothing, unless something was written there.
    pub open spec fn line(self, r: int) -> Seq<char> {
        if self.rows.contains_key(r) {
            self.rows[r]
        } else {
            Seq::empty()
        }
    }

    /// The screen after one command.
    pub open spec fn after_one(self, op: TermOpView) -> Screen {
        match op {
            TermOpView::MoveUp(n) => Screen { row: self.row - n, ..self },
            TermOpView::MoveToLineStart => Screen { col: 0, ..self },
            TermOpView::ClearLine => Screen { rows: self.rows.remove(self.row), ..self },
            TermOpView::ClearBelow => Screen {
                rows: Map::new(
                    |r: int|
                        self.rows.contains_key(r) && (r < self.row || (r == self.row && self.col
                            > 0)),
                    |r: int|
                        if r == self.row {
                            kept_before(self.rows[r], self.col)
                        } else {
                            self.rows[r]
                        },
                ),
                ..self
            },
            TermOpView::Print(text) => Screen {
                rows: self.rows.insert(self.row, overwritten(self.line(self.row), self.col, text)),
                col: self.col + text.len(),
                ..self
            },
            TermOpView::LineBreak => Screen { row: self.row + 1, col: 0, ..self },
            _ => self,
        }
    }

    /// The screen after the commands, carried out in order.
    pub open spec fn after(self, ops: Seq<TermOpView>) -> Screen
        decreases ops.len(),
    {
        if ops.len() == 0 {
            self
        } else {
            self.after(ops.drop_last()).after_one(ops.last())
        }
    }

    /// Whether rows `top .. top + lines.len()` show `lines`.
    pub open spec fn shows(self, top: int, lines: Seq<Seq<char>>) -> bool {
        forall|i: int| 0 <= i < lines.len() ==> #[trigger] self.line(top + i) == lines[i]
    }

    /// Whether every row from `top` on is empty.
    pub open spec fn blank_from(self, top: int) -> bool {
        forall|r: int| r >= top ==> (#[trigger] self.line(r)).len() == 0
    }

    /// Whether the rows above `top` are what they are on `other`.
    pub open spec fn same_above(self, top: int, other: Screen) -> bool {
        forall|r: int| r < top ==> #[trigger] self.line(r) == other.line(r)
    }
}

/// Carrying out two lists of commands one after the other is carrying out
/// the lists joined.
pub proof fn lemma_after_concat(screen: Screen, a: Seq<TermOpView>, b: Seq<TermOpView>)
    ensures
        screen.after(a + b) == screen.after(a).after(b),
    decreases b.len(),
{
    if b.len() == 0 {
        assert(a + b =~= a);
    } else {
        assert((a + b).drop_last() =~= a + b.drop_last());
        assert((a + b).last() == b.last());
        lemma_after_concat(screen, a, b.drop_last());
    }
}

proof fn lemma_after_single(screen: Screen, op: TermOpView)
    ensures
        screen.after(seq![op]) == screen.after_one(op),
{
    reveal_with_fuel(Screen::after, 2);
    assert(seq![op].drop_last() =~= Seq::<TermOpView>::empty());
    assert(seq![op].last() == op);
}

proof fn lemma_after_pair(screen: Screen, a: TermOpView, b: TermOpView)
    ensures
        screen.after(seq![a, b]) == screen.after_one(a).after_one(b),
{
    assert(seq![a, b] =~= seq![a] + seq![b]);
    lemma_after_concat(screen, seq![a], seq![b]);
    lemma_after_single(screen, a);
    lemma_after_single(screen.after_one(a), b);
}

proof fn lemma_after_triple(screen: Screen, a: TermOpView, b: TermOpView, c: TermOpView)
    ensures
        screen.after(seq![a, b, c]) == screen.after_one(a).after_one(b).after_one(c),
{
    assert(seq![a, b, c] =~= seq![a, b] + seq![c]);
    lemma_after_concat(screen, seq![a, b], seq![c]);
    lemma_after_pair(screen, a, b);
    lemma_after_single(screen.after_one(a).after_one(b), c);
}

/// Overwriting lines from the start of a row on: the rows from the
/// cursor's on show the lines, the cursor ends at the start of the row
/// below them, and no other row has changed.
pub proof fn lemma_paint_shows(screen: Screen, lines: Seq<Seq<char>>)
    requires
        screen.col == 0,
    ensures
        ({
            let after = screen.after(paint_ops(lines));
            &&& after.row == screen.row + lines.len()
            &&& after.col == 0
            &&& after.shows(screen.row, lines)
            &&& forall|r: int|
                r < screen.row || r >= screen.row + lines.len() ==> #[trigger] after.line(r)
                    == screen.line(r)
        }),
    decreases lines.len(),
{
    if lines.len() > 0 {
        let rest = lines.drop_last();
        lemma_paint_shows(screen, rest);
        let before = screen.after(paint_ops(rest));
        let step = seq![
            TermOpView::ClearLine,
            TermOpView::Print(lines.last()),
            TermOpView::LineBreak,
        ];
        lemma_after_concat(screen, paint_ops(rest), step);
        lemma_after_triple(
            before,
            TermOpView::ClearLine,
            TermOpView::Print(lines.last()),
            TermOpView::LineBreak,
        );
        let after = screen.after(paint_ops(lines));
        let row = screen.row + rest.len();
        let cleared = before.after_one(TermOpView::ClearLine);
        assert(cleared.line(row).len() == 0);
        assert(overwritten(cleared.line(row), 0, lines.last()) == lines.last());
        assert(after.line(row) == lines.last());
        assert forall|i: int| 0 <= i < lines.len() implies #[trigger] after.line(screen.row + i)
            == lines[i] by {
            if i < rest.len() {
                assert(before.line(screen.row + i) == rest[i]);
            }
        }
        assert forall|r: int|
            r < screen.row || r >= screen.row + lines.len() implies #[trigger] after.line(r)
            == screen.line(r) by {
            assert(before.line(r) == screen.line(r));
        }
    }
}

/// Clearing `n` rows downwards: the rows are empty, the cursor is below
/// them, and no other row has changed.
pub proof fn lemma_blank_clears(screen: Screen, n: int)
    requires
        n >= 0,
    ensures
        ({
            let after = screen.after(blank_ops(n));
            &&& after.row == screen.row + n
            &&& n > 0 ==> after.col == 0
            &&& n == 0 ==> after.col == screen.col
            &&& forall|r: int|
                screen.row <= r < screen.row + n ==> (#[trigger] after.line(r)).len() == 0
            &&& forall|r: int|
                r < screen.row || r >= screen.row + n ==> #[trigger] after.line(r) == screen.line(
                    r,
                )
        }),
    decreases n,
{
    if n > 0 {
        lemma_blank_clears(screen, n - 1);
        let before = screen.after(blank_ops(n - 1));
        let step = seq![TermOpView::ClearLine, TermOpView::LineBreak];
        lemma_after_concat(screen, blank_ops(n - 1), step);
        lemma_after_pair(before, TermOpView::ClearLine, TermOpView::LineBreak);
        let after = screen.after(blank_ops(n));
        assert forall|r: int| screen.row <= r < screen.row + n implies (#[trigger] after.line(
            r,
        )).len() == 0 by {
            if r < screen.row + n - 1 {
                assert(before.line(r).len() == 0);
            }
        }
        assert forall|r: int| r < screen.row || r >= screen.row + n implies #[trigger] after.line(
            r,
        ) == screen.line(r) by {
            assert(before.line(r) == screen.line(r));
        }
    }
}

/// What a repaint comes to.  The cursor is at the start of the row below
/// an earlier frame of `prev` rows that begins at row `top`.  Afterwards
/// the rows from `top` on show the new frame and nothing else, the cursor
/// is at the start of the row directly below the new frame, and the rows
/// above `top` are untouched.  This holds as long as the earlier frame's
/// row count fits the terminal's 16-bit counter.
pub proof fn lemma_render_shows_frame(
    screen: Screen,
    top: int,
    prev: int,
    lines: Seq<Seq<char>>,
)
    requires
        0 <= prev <= u16::MAX,
        screen.row == top + prev,
        screen.col == 0,
    ensures
        ({
            let after = screen.after(render_ops(prev, lines));
            &&& after.shows(top, lines)
            &&& after.blank_from(top + lines.len())
            &&& after.same_above(top, screen)
            &&& after.row == top + lines.len()
            &&& after.col == 0
        }),
{
    let n = lines.len() as int;
    let head = move_up_ops(prev);
    let body = paint_ops(lines);
    let rest = shrink_ops(prev, n);
    let tail = seq![TermOpView::ClearBelow, TermOpView::Flush];
    lemma_after_concat(screen, head, body);
    lemma_after_concat(screen, head + body, rest);
    lemma_after_concat(screen, head + body + rest, tail);

    let s1 = screen.after(head);
    if prev > 0 {
        lemma_after_single(screen, TermOpView::MoveUp(prev as u16));
    }
    assert(s1.row == top && s1.col == 0 && s1.rows == screen.rows);

    let s2 = s1.after(body);
    lemma_paint_shows(s1, lines);

    let s3 = s2.after(rest);
    if n < prev {
        let blank = blank_ops(prev - n);
        let back = seq![TermOpView::MoveUp((prev - n) as u16)];
        lemma_after_concat(s2, blank, back);
        lemma_blank_clears(s2, prev - n);
        lemma_after_single(s2.after(blank), TermOpView::MoveUp((prev - n) as u16));
        let blanked = s2.after(blank);
        assert(s3 == blanked.after_one(TermOpView::MoveUp((prev - n) as u16)));
        assert(s3.row == top + n);
        assert forall|r: int| r < top + n implies #[trigger] s3.line(r) == s2.line(r) by {
            assert(blanked.line(r) == s2.line(r));
        }
    }
    assert(s3.row == top + n && s3.col == 0);

    let s4 = s3.after(tail);
    lemma_after_pair(s3, TermOpView::ClearBelow, TermOpView::Flush);
    assert(s4 == s3.after_one(TermOpView::ClearBelow));
    assert forall|r: int| r >= top + n implies (#[trigger] s4.line(r)).len() == 0 by {}
    assert forall|r: int| r < top + n implies #[trigger] s4.line(r) == s3.line(r) by {}
    assert forall|i: int| 0 <= i < lines.len() implies #[trigger] s4.line(top + i) == lines[i] by {
        assert(s3.line(top + i) == s2.line(top + i));
    }
    assert forall|r: int| r < top implies #[trigger] s4.line(r) == screen.line(r) by {
        assert(s3.line(r) == s2.line(r));
        assert(s2.line(r) == s1.line(r));
    }
}

/// What removing a frame comes to: from the frame's first row on the
/// screen is empty, and the cursor is where the frame began.
pub proof fn lemma_clear_frame_blanks(screen: Screen, top: int, prev: int)
    requires
        0 <= prev <= u16::MAX,
        screen.row == top + prev,
        screen.col == 0,
    ensures
        ({
            let after = screen.after(clear_frame_ops(prev));
            &&& prev > 0 ==> after.blank_from(top)
            &&& after.same_above(top, screen)
            &&& after.row == top
            &&& after.col == 0
        }),
{
    if prev > 0 {
        let up = TermOpView::MoveUp(prev as u16);
        lemma_after_triple(screen, up, TermOpView::ClearBelow, TermOpView::Flush);
        let after = screen.after(clear_frame_ops(prev));
        assert(after == screen.after_one(up).after_one(TermOpView::ClearBelow));
        assert forall|r: int| r >= top implies (#[trigger] after.line(r)).len() == 0 by {}
        assert forall|r: int| r < top implies #[trigger] after.line(r) == screen.line(r) by {}
    }
}

/// What clearing the `count` rows above the cursor comes to: these rows
/// are empty, the cursor is on the first of them, and no other row has
/// changed.
pub proof fn lemma_clear_lines_blanks(screen: Screen, count: int)
    requires
        0 <= count <= u16::MAX,
    ensures
        ({
            let after = screen.after(clear_lines_ops(count));
            &&& after.row == screen.row - count
            &&& forall|r: int|
                screen.row - count <= r < screen.row ==> (#[trigger] after.line(r)).len() == 0
            &&& forall|r: int|
                r < screen.row - count || r >= screen.row ==> #[trigger] after.line(r)
                    == screen.line(r)
        }),
{
    if count > 0 {
        let up = seq![TermOpView::MoveUp(count as u16)];
        let blank = blank_ops(count);
        let tail = seq![TermOpView::MoveUp(count as u16), TermOpView::Flush];
        lemma_after_concat(screen, up, blank);
        lemma_after_concat(screen, up + blank, tail);
        lemma_after_single(screen, TermOpView::MoveUp(count as u16));
        let s1 = screen.after(up);
        lemma_blank_clears(s1, count);
        let s2 = s1.after(blank);
        lemma_after_pair(s2, TermOpView::MoveUp(count as u16), TermOpView::Flush);
        let after = screen.after(clear_lines_ops(count));
        assert forall|r: int| screen.row - count <= r < screen.row implies (#[trigger] after.line(
            r,
        )).len() == 0 by {
            assert(s2.line(r).len() == 0);
        }
        assert forall|r: int|
            r < screen.row - count || r >= screen.row implies #[trigger] after.line(r)
            == screen.line(r) by {
            assert(s2.line(r) == s1.line(r));
        }
    }
}

} // verus!
