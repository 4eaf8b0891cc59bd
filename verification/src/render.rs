//! The frame renderer.
//!
//! A frame is repainted in place: the cursor goes back to the top of the
//! frame painted before, each line is cleared and overwritten, and what the
//! earlier frame had beyond the new one is blanked.  The screen is never
//! cleared as a whole, so nothing flashes.

use vstd::prelude::*;
use crate::term::{
    TermOp, TermOpView, clear_step, flush_step, flushes, lemma_flushes_concat,
    lemma_line_clears_concat, lemma_rows_moved_concat, line_clears, ops_view, row_step,
    rows_moved,
};
use crate::text::texts;

verus! {

/// Adds one command to the list.
pub fn emit(ops: &mut Vec<TermOp>, op: TermOp)
    ensures
        ops_view(final(ops)@) == ops_view(old(ops)@).push(op@),
{
    ops.push(op);
    assert(ops_view(ops@) =~= ops_view(old(ops)@).push(op@));
}

/// Moving the cursor up by `n` lines; nothing for `n == 0`.  The terminal
/// counts lines in 16 bits, and a larger count is cut down to them.
pub open spec fn move_up_ops(n: int) -> Seq<TermOpView> {
    if n > 0 {
        seq![TermOpView::MoveUp(n as u16)]
    } else {
        Seq::empty()
    }
}

/// Overwriting one line after the other, each cleared first.
pub open spec fn paint_ops(lines: Seq<Seq<char>>) -> Seq<TermOpView>
    decreases lines.len(),
{
    if lines.len() == 0 {
        Seq::empty()
    } else {
        paint_ops(lines.drop_last()) + seq![
            TermOpView::ClearLine,
            TermOpView::Print(lines.last()),
            TermOpView::LineBreak,
        ]
    }
}

/// Clearing `n` lines downwards from the cursor.
pub open spec fn blank_ops(n: int) -> Seq<TermOpView>
    decreases n,
{
    if n <= 0 {
        Seq::empty()
    } else {
        blank_ops(n - 1) + seq![TermOpView::ClearLine, TermOpView::LineBreak]
    }
}

/// After a frame of `now` lines has been painted over one of `prev`: the
/// surplus lines are cleared and the cursor goes back up over them.
pub open spec fn shrink_ops(prev: int, now: int) -> Seq<TermOpView> {
    if now < prev {
        blank_ops(prev - now) + seq![TermOpView::MoveUp((prev - now) as u16)]
    } else {
        Seq::empty()
    }
}

/// Painting `lines` over a frame of `prev` lines whose end the cursor is at.
pub open spec fn render_ops(prev: int, lines: Seq<Seq<char>>) -> Seq<TermOpView> {
    move_up_ops(prev) + paint_ops(lines) + shrink_ops(prev, lines.len() as int) + seq![
        TermOpView::ClearBelow,
        TermOpView::Flush,
    ]
}

/// Removing a frame of `prev` lines whose end the cursor is at.
pub open spec fn clear_frame_ops(prev: int) -> Seq<TermOpView> {
    if prev > 0 {
        seq![TermOpView::MoveUp(prev as u16), TermOpView::ClearBelow, TermOpView::Flush]
    } else {
        Seq::empty()
    }
}

/// Clearing the `count` lines above the cursor, line by line, and leaving
/// the cursor on the first of them.
pub open spec fn clear_lines_ops(count: int) -> Seq<TermOpView> {
    if count <= 0 {
        Seq::empty()
    } else {
        seq![TermOpView::MoveUp(count as u16)] + blank_ops(count) + seq![
            TermOpView::MoveUp(count as u16),
            TermOpView::Flush,
        ]
    }
}

/// Writing one line and handing it to the terminal.
pub open spec fn println_ops(msg: Seq<char>) -> Seq<TermOpView> {
    seq![TermOpView::Print(msg), TermOpView::LineBreak, TermOpView::Flush]
}

/// Writing the lines as they are, without clearing, and then flushing.
pub open spec fn write_ops(lines: Seq<Seq<char>>) -> Seq<TermOpView>
    decreases lines.len(),
{
    if lines.len() == 0 {
        Seq::empty()
    } else {
        write_ops(lines.drop_last()) + seq![
            TermOpView::Print(lines.last()),
            TermOpView::LineBreak,
        ]
    }
}

/// Adds the commands that clear `n` lines downwards.
pub fn emit_blank(ops: &mut Vec<TermOp>, n: usize)
    ensures
        ops_view(final(ops)@) == ops_view(old(ops)@) + blank_ops(n as int),
{
    let mut i: usize = 0;
    assert(ops_view(ops@) =~= ops_view(old(ops)@) + blank_ops(0));
    while i < n
        invariant
            i <= n,
            ops_view(ops@) == ops_view(old(ops)@) + blank_ops(i as int),
        decreases n - i,
    {
        let ghost before = ops_view(ops@);
        emit(ops, TermOp::ClearLine);
        emit(ops, TermOp::LineBreak);
        i += 1;
        assert(ops_view(ops@) =~= ops_view(old(ops)@) + blank_ops(i as int)) by {
            assert(before.push(TermOpView::ClearLine).push(TermOpView::LineBreak) =~= before
                + seq![TermOpView::ClearLine, TermOpView::LineBreak]);
        }
    }
}

/// Where the frame painted last ends: the renderer's whole state is how
/// many lines that frame had.
#[derive(Debug, PartialEq, Eq)]
pub struct FrameRenderer {
    pub previous_line_count: usize,
}

impl FrameRenderer {
    /// A renderer that has painted nothing yet.
    pub fn new() -> (r: FrameRenderer)
        ensures
            r.previous_line_count == 0,
    {
        FrameRenderer { previous_line_count: 0 }
    }

    /// Paints `lines` over the frame painted before and remembers their
    /// number.
    pub fn render(&mut self, lines: &Vec<String>) -> (ops: Vec<TermOp>)
        ensures
            ops_view(ops@) == render_ops(old(self).previous_line_count as int, texts(lines@)),
            final(self).previous_line_count == lines@.len(),
    {
        let prev = self.previous_line_count;
        let mut ops: Vec<TermOp> = Vec::new();
        if prev > 0 {
            emit(&mut ops, TermOp::MoveUp(#[verifier::truncate] (prev as u16)));
        }
        assert(ops_view(ops@) =~= move_up_ops(prev as int));
        let mut i: usize = 0;
        assert(texts(lines@).take(0) =~= Seq::<Seq<char>>::empty());
        assert(ops_view(ops@) =~= move_up_ops(prev as int) + paint_ops(texts(lines@).take(0)));
        while i < lines.len()
            invariant
                i <= lines.len(),
                ops_view(ops@) == move_up_ops(prev as int) + paint_ops(
                    texts(lines@).take(i as int),
                ),
            decreases lines.len() - i,
        {
            let ghost before = ops_view(ops@);
            emit(&mut ops, TermOp::ClearLine);
            emit(&mut ops, TermOp::Print(lines[i].clone()));
            emit(&mut ops, TermOp::LineBreak);
            proof {
                let done = texts(lines@).take(i as int);
                let more = texts(lines@).take(i + 1);
                assert(more.drop_last() =~= done);
                assert(more.last() == lines@[i as int]@);
                assert(ops_view(ops@) =~= before + seq![
                    TermOpView::ClearLine,
                    TermOpView::Print(lines@[i as int]@),
                    TermOpView::LineBreak,
                ]);
                assert(ops_view(ops@) =~= move_up_ops(prev as int) + paint_ops(more));
            }
            i += 1;
        }
        assert(texts(lines@).take(lines@.len() as int) =~= texts(lines@));
        let ghost painted = ops_view(ops@);
        if lines.len() < prev {
            let extra = prev - lines.len();
            emit_blank(&mut ops, extra);
            emit(&mut ops, TermOp::MoveUp(#[verifier::truncate] (extra as u16)));
        }
        assert(ops_view(ops@) =~= painted + shrink_ops(prev as int, lines@.len() as int));
        emit(&mut ops, TermOp::ClearBelow);
        emit(&mut ops, TermOp::Flush);
        assert(ops_view(ops@) =~= render_ops(prev as int, texts(lines@)));
        self.previous_line_count = lines.len();
        ops
    }

    /// Removes the frame painted last from the screen and forgets it.
    pub fn clear_frame(&mut self) -> (ops: Vec<TermOp>)
        ensures
            ops_view(ops@) == clear_frame_ops(old(self).previous_line_count as int),
            final(self).previous_line_count == 0,
    {
        let mut ops: Vec<TermOp> = Vec::new();
        if self.previous_line_count > 0 {
            emit(
                &mut ops,
                TermOp::MoveUp(#[verifier::truncate] (self.previous_line_count as u16)),
            );
            emit(&mut ops, TermOp::ClearBelow);
            emit(&mut ops, TermOp::Flush);
            self.previous_line_count = 0;
        }
        assert(ops_view(ops@) =~= clear_frame_ops(old(self).previous_line_count as int));
        ops
    }
}

/// Clearing `n` lines downwards clears `n` lines and moves `n` lines down.
pub proof fn lemma_blank_ops(n: int)
    requires
        n >= 0,
    ensures
        rows_moved(blank_ops(n)) == n,
        line_clears(blank_ops(n)) == n,
        flushes(blank_ops(n)) == 0,
    decreases n,
{
    if n > 0 {
        lemma_blank_ops(n - 1);
        let tail = seq![TermOpView::ClearLine, TermOpView::LineBreak];
        lemma_rows_moved_concat(blank_ops(n - 1), tail);
        lemma_line_clears_concat(blank_ops(n - 1), tail);
        lemma_flushes_concat(blank_ops(n - 1), tail);
        lemma_pair(TermOpView::ClearLine, TermOpView::LineBreak);
    }
}

/// Overwriting lines clears one line for each and moves as many lines down.
pub proof fn lemma_paint_ops(lines: Seq<Seq<char>>)
    ensures
        rows_moved(paint_ops(lines)) == lines.len(),
        line_clears(paint_ops(lines)) == lines.len(),
        flushes(paint_ops(lines)) == 0,
    decreases lines.len(),
{
    if lines.len() > 0 {
        lemma_paint_ops(lines.drop_last());
        let tail = seq![
            TermOpView::ClearLine,
            TermOpView::Print(lines.last()),
            TermOpView::LineBreak,
        ];
        lemma_rows_moved_concat(paint_ops(lines.drop_last()), tail);
        lemma_line_clears_concat(paint_ops(lines.drop_last()), tail);
        lemma_flushes_concat(paint_ops(lines.drop_last()), tail);
        lemma_triple(
            TermOpView::ClearLine,
            TermOpView::Print(lines.last()),
            TermOpView::LineBreak,
        );
    }
}

proof fn lemma_single(a: TermOpView)
    ensures
        rows_moved(seq![a]) == row_step(a),
        line_clears(seq![a]) == clear_step(a),
        flushes(seq![a]) == flush_step(a),
{
    reveal_with_fuel(rows_moved, 2);
    reveal_with_fuel(line_clears, 2);
    reveal_with_fuel(flushes, 2);
    assert(seq![a].drop_last() =~= Seq::<TermOpView>::empty());
    assert(seq![a].last() == a);
}

proof fn lemma_pair(a: TermOpView, b: TermOpView)
    ensures
        rows_moved(seq![a, b]) == row_step(a) + row_step(b),
        line_clears(seq![a, b]) == clear_step(a) + clear_step(b),
        flushes(seq![a, b]) == flush_step(a) + flush_step(b),
{
    assert(seq![a, b] =~= seq![a] + seq![b]);
    lemma_rows_moved_concat(seq![a], seq![b]);
    lemma_line_clears_concat(seq![a], seq![b]);
    lemma_flushes_concat(seq![a], seq![b]);
    lemma_single(a);
    lemma_single(b);
}

proof fn lemma_triple(a: TermOpView, b: TermOpView, c: TermOpView)
    ensures
        rows_moved(seq![a, b, c]) == row_step(a) + row_step(b) + row_step(c),
        line_clears(seq![a, b, c]) == clear_step(a) + clear_step(b) + clear_step(c),
        flushes(seq![a, b, c]) == flush_step(a) + flush_step(b) + flush_step(c),
{
    assert(seq![a, b, c] =~= seq![a, b] + seq![c]);
    lemma_rows_moved_concat(seq![a, b], seq![c]);
    lemma_line_clears_concat(seq![a, b], seq![c]);
    lemma_flushes_concat(seq![a, b], seq![c]);
    lemma_pair(a, b);
    lemma_single(c);
}

/// A repaint clears as many lines as the taller of the two frames has: one
/// for each line it overwrites and one for each line that the earlier frame
/// had beyond the new one.
pub proof fn lemma_render_line_clears(prev: int, lines: Seq<Seq<char>>)
    requires
        prev >= 0,
    ensures
        line_clears(render_ops(prev, lines)) == if prev > lines.len() {
            prev
        } else {
            lines.len() as int
        },
{
    let n = lines.len() as int;
    let head = move_up_ops(prev);
    let body = paint_ops(lines);
    let rest = shrink_ops(prev, n);
    let tail = seq![TermOpView::ClearBelow, TermOpView::Flush];
    lemma_line_clears_concat(head, body);
    lemma_line_clears_concat(head + body, rest);
    lemma_line_clears_concat(head + body + rest, tail);
    lemma_paint_ops(lines);
    lemma_pair(TermOpView::ClearBelow, TermOpView::Flush);
    if prev > 0 {
        lemma_single(TermOpView::MoveUp(prev as u16));
    }
    if n < prev {
        lemma_blank_ops(prev - n);
        lemma_line_clears_concat(blank_ops(prev - n), seq![TermOpView::MoveUp((prev - n) as u16)]);
        lemma_single(TermOpView::MoveUp((prev - n) as u16));
    }
}

/// After a repaint the cursor is directly below the new frame: it started
/// below a frame of `prev` lines and ends below one of `lines.len()` lines
/// that begins on the same line.  This holds as long as the earlier frame's
/// line count fits the terminal's 16-bit counter.
pub proof fn lemma_render_rows_moved(prev: int, lines: Seq<Seq<char>>)
    requires
        0 <= prev <= u16::MAX,
    ensures
        rows_moved(render_ops(prev, lines)) == lines.len() - prev,
{
    let n = lines.len() as int;
    let head = move_up_ops(prev);
    let body = paint_ops(lines);
    let rest = shrink_ops(prev, n);
    let tail = seq![TermOpView::ClearBelow, TermOpView::Flush];
    lemma_rows_moved_concat(head, body);
    lemma_rows_moved_concat(head + body, rest);
    lemma_rows_moved_concat(head + body + rest, tail);
    lemma_paint_ops(lines);
    lemma_pair(TermOpView::ClearBelow, TermOpView::Flush);
    if prev > 0 {
        lemma_single(TermOpView::MoveUp(prev as u16));
    }
    if n < prev {
        lemma_blank_ops(prev - n);
        lemma_rows_moved_concat(blank_ops(prev - n), seq![TermOpView::MoveUp((prev - n) as u16)]);
        lemma_single(TermOpView::MoveUp((prev - n) as u16));
    }
}

/// Clearing the `count` lines above the cursor clears `count` lines and
/// leaves the cursor `count` lines higher, on the first of them.
pub proof fn lemma_clear_lines(count: int)
    requires
        0 <= count <= u16::MAX,
    ensures
        line_clears(clear_lines_ops(count)) == count,
        rows_moved(clear_lines_ops(count)) == -count,
{
    if count > 0 {
        let up = seq![TermOpView::MoveUp(count as u16)];
        let tail = seq![TermOpView::MoveUp(count as u16), TermOpView::Flush];
        lemma_blank_ops(count);
        lemma_single(TermOpView::MoveUp(count as u16));
        lemma_pair(TermOpView::MoveUp(count as u16), TermOpView::Flush);
        lemma_rows_moved_concat(up, blank_ops(count));
        lemma_rows_moved_concat(up + blank_ops(count), tail);
        lemma_line_clears_concat(up, blank_ops(count));
        lemma_line_clears_concat(up + blank_ops(count), tail);
    }
}

/// Removing a frame leaves the cursor where the frame began.
pub proof fn lemma_clear_frame_rows_moved(prev: int)
    requires
        0 <= prev <= u16::MAX,
    ensures
        rows_moved(clear_frame_ops(prev)) == -prev,
{
    if prev > 0 {
        let a = TermOpView::MoveUp(prev as u16);
        assert(clear_frame_ops(prev) =~= seq![a, TermOpView::ClearBelow] + seq![
            TermOpView::Flush,
        ]);
        lemma_rows_moved_concat(seq![a, TermOpView::ClearBelow], seq![TermOpView::Flush]);
        lemma_pair(a, TermOpView::ClearBelow);
        lemma_single(TermOpView::Flush);
    }
}

/// A repaint hands its commands to the terminal once, at its end: the
/// last command is the only flush.  Nothing is shown half painted.
pub proof fn lemma_render_flushes_once(prev: int, lines: Seq<Seq<char>>)
    ensures
        flushes(render_ops(prev, lines)) == 1,
        render_ops(prev, lines).last() == TermOpView::Flush,
{
    let n = lines.len() as int;
    let head = move_up_ops(prev);
    let body = paint_ops(lines);
    let rest = shrink_ops(prev, n);
    let tail = seq![TermOpView::ClearBelow, TermOpView::Flush];
    lemma_flushes_concat(head, body);
    lemma_flushes_concat(head + body, rest);
    lemma_flushes_concat(head + body + rest, tail);
    lemma_paint_ops(lines);
    lemma_pair(TermOpView::ClearBelow, TermOpView::Flush);
    if prev > 0 {
        lemma_single(TermOpView::MoveUp(prev as u16));
    }
    if n < prev {
        lemma_blank_ops(prev - n);
        lemma_flushes_concat(blank_ops(prev - n), seq![TermOpView::MoveUp((prev - n) as u16)]);
        lemma_single(TermOpView::MoveUp((prev - n) as u16));
    }
}

/// Clearing lines flushes once, at its end, where there is anything to
/// clear.
pub proof fn lemma_clear_lines_flushes_once(count: int)
    requires
        count > 0,
    ensures
        flushes(clear_lines_ops(count)) == 1,
        clear_lines_ops(count).last() == TermOpView::Flush,
{
    let up = seq![TermOpView::MoveUp(count as u16)];
    let tail = seq![TermOpView::MoveUp(count as u16), TermOpView::Flush];
    lemma_blank_ops(count);
    lemma_single(TermOpView::MoveUp(count as u16));
    lemma_pair(TermOpView::MoveUp(count as u16), TermOpView::Flush);
    lemma_flushes_concat(up, blank_ops(count));
    lemma_flushes_concat(up + blank_ops(count), tail);
}

} // verus!
