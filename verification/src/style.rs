//! Styled text.  A display line is a sequence of spans, each a piece of text
//! with a style; what the spans are is decided here and is exact.  Turning a
//! span into terminal text is the `colored` crate's work, and its result
//! depends on the environment, which may switch colours off.

use vstd::prelude::*;
use colored::{ColoredString, Colorize};
use crate::text::texts;

verus! {

/// A foreground colour, or none.
#[derive(Clone, Copy, Debug, PartialEq, Eq, Structural)]
pub enum Hue {
    Plain,
    Red,
    Yellow,
    Green,
    Cyan,
    White,
}

/// How a span is shown.
#[derive(Clone, Copy, Debug, PartialEq, Eq, Structural)]
pub struct Style {
    pub hue: Hue,
    pub bold: bool,
    pub dimmed: bool,
    pub italic: bool,
}

impl Style {
    pub open spec fn spec_plain() -> Style {
        Style { hue: Hue::Plain, bold: false, dimmed: false, italic: false }
    }

    /// No colour and no attribute.
    #[verifier::when_used_as_spec(spec_plain)]
    pub fn plain() -> (r: Style)
        ensures
            r == Style::spec_plain(),
    {
        Style { hue: Hue::Plain, bold: false, dimmed: false, italic: false }
    }

    pub open spec fn spec_hue(hue: Hue) -> Style {
        Style { hue, bold: false, dimmed: false, italic: false }
    }

    /// A colour and no attribute.
    #[verifier::when_used_as_spec(spec_hue)]
    pub fn hue(hue: Hue) -> (r: Style)
        ensures
            r == Style::spec_hue(hue),
    {
        Style { hue, bold: false, dimmed: false, italic: false }
    }

    pub open spec fn spec_bold(self) -> Style {
        Style { bold: true, ..self }
    }

    /// The same style, bold.
    #[verifier::when_used_as_spec(spec_bold)]
    pub fn bold(self) -> (r: Style)
        ensures
            r == self.spec_bold(),
    {
        Style { hue: self.hue, bold: true, dimmed: self.dimmed, italic: self.italic }
    }

    pub open spec fn spec_dimmed(self) -> Style {
        Style { dimmed: true, ..self }
    }

    /// The same style, dimmed.
    #[verifier::when_used_as_spec(spec_dimmed)]
    pub fn dimmed(self) -> (r: Style)
        ensures
            r == self.spec_dimmed(),
    {
        Style { hue: self.hue, bold: self.bold, dimmed: true, italic: self.italic }
    }

    pub open spec fn spec_italic(self) -> Style {
        Style { italic: true, ..self }
    }

    /// The same style, italic.
    #[verifier::when_used_as_spec(spec_italic)]
    pub fn italic(self) -> (r: Style)
        ensures
            r == self.spec_italic(),
    {
        Style { hue: self.hue, bold: self.bold, dimmed: self.dimmed, italic: true }
    }

    pub open spec fn spec_is_plain(self) -> bool {
        self == Style::spec_plain()
    }

    /// Whether the style changes nothing.
    #[verifier::when_used_as_spec(spec_is_plain)]
    pub fn is_plain(self) -> (r: bool)
        ensures
            r == self.spec_is_plain(),
    {
        self.hue == Hue::Plain && !self.bold && !self.dimmed && !self.italic
    }
}

/// A piece of text with its style.
#[derive(Debug, PartialEq, Eq)]
pub struct Span {
    pub text: String,
    pub style: Style,
}

/// What a [`Span`] denotes.
pub ghost struct SpanView {
    pub text: Seq<char>,
    pub style: Style,
}

impl View for Span {
    type V = SpanView;

    open spec fn view(&self) -> SpanView {
        SpanView { text: self.text@, style: self.style }
    }
}

/// A span of the given text and style.
pub open spec fn span_of(text: Seq<char>, style: Style) -> SpanView {
    SpanView { text, style }
}

/// What a line of spans denotes.
pub open spec fn line_view(line: Seq<Span>) -> Seq<SpanView> {
    Seq::new(line.len(), |i: int| line[i]@)
}

/// What a frame, a sequence of lines, denotes.
pub open spec fn frame_view(frame: Seq<Vec<Span>>) -> Seq<Seq<SpanView>> {
    Seq::new(frame.len(), |i: int| line_view(frame[i]@))
}

/// The parts one after the other.
pub open spec fn joined(parts: Seq<Seq<char>>) -> Seq<char>
    decreases parts.len(),
{
    if parts.len() == 0 {
        Seq::empty()
    } else {
        joined(parts.drop_last()) + parts.last()
    }
}

/// The text of a line with every style taken away.
pub open spec fn line_text(line: Seq<SpanView>) -> Seq<char>
    decreases line.len(),
{
    if line.len() == 0 {
        Seq::empty()
    } else {
        line_text(line.drop_last()) + line.last().text
    }
}

/// Whether `parts` can be what painting the spans of `line` gave, one part
/// for each span: a plain span is its own text, and of a styled span nothing
/// is fixed.
pub open spec fn paints(line: Seq<SpanView>, parts: Seq<Seq<char>>) -> bool {
    &&& parts.len() == line.len()
    &&& forall|i: int|
        0 <= i < line.len() && (#[trigger] line[i]).style.is_plain() ==> parts[i] == line[i].text
}

/// Whether `out` can be the painted form of `line`: the painted spans in
/// order, with nothing between them.
pub open spec fn is_painting(line: Seq<SpanView>, out: Seq<char>) -> bool {
    exists|parts: Seq<Seq<char>>| paints(line, parts) && out == joined(parts)
}

/// Whether `painted` can be the painted form of `frame`, line by line.
pub open spec fn frame_paints(frame: Seq<Seq<SpanView>>, painted: Seq<Seq<char>>) -> bool {
    &&& painted.len() == frame.len()
    &&& forall|i: int| 0 <= i < frame.len() ==> is_painting(#[trigger] frame[i], painted[i])
}

/// Whether no span of `line` has a style.
pub open spec fn all_plain(line: Seq<SpanView>) -> bool {
    forall|i: int| 0 <= i < line.len() ==> (#[trigger] line[i]).style.is_plain()
}

/// A line without styles has one painted form, its text.
pub proof fn lemma_plain_line_paints_as_text(line: Seq<SpanView>, out: Seq<char>)
    requires
        all_plain(line),
        is_painting(line, out),
    ensures
        out == line_text(line),
{
    let parts = choose|parts: Seq<Seq<char>>| paints(line, parts) && out == joined(parts);
    lemma_plain_parts(line, parts);
}

proof fn lemma_plain_parts(line: Seq<SpanView>, parts: Seq<Seq<char>>)
    requires
        all_plain(line),
        paints(line, parts),
    ensures
        joined(parts) == line_text(line),
    decreases line.len(),
{
    if line.len() > 0 {
        assert(line[line.len() - 1].style.is_plain());
        lemma_plain_parts(line.drop_last(), parts.drop_last());
    }
}

/// The `colored` crate's text with a colour and attributes.  Nothing of
/// its inside is known here.
#[verifier::external_type_specification]
#[verifier::external_body]
pub struct ExColoredString(ColoredString);

/// `ColoredString::from`: the text with no colour and no attribute yet.
/// Nothing is claimed of the result.
#[verifier::external_body]
fn unstyled(text: &str) -> ColoredString {
    ColoredString::from(text)
}

/// `Colorize::red` on a `ColoredString`.  Nothing is claimed of the result:
/// it is only handed on until it is turned into text.
#[verifier::external_body]
fn in_red(c: ColoredString) -> ColoredString {
    c.red()
}

/// `Colorize::yellow` on a `ColoredString`.  Nothing is claimed of the result:
/// it is only handed on until it is turned into text.
#[verifier::external_body]
fn in_yellow(c: ColoredString) -> ColoredString {
    c.yellow()
}

/// `Colorize::green` on a `ColoredString`.  Nothing is claimed of the result:
/// it is only handed on until it is turned into text.
#[verifier::external_body]
fn in_green(c: ColoredString) -> ColoredString {
    c.green()
}

/// `Colorize::cyan` on a `ColoredString`.  Nothing is claimed of the result:
/// it is only handed on until it is turned into text.
#[verifier::external_body]
fn in_cyan(c: ColoredString) -> ColoredString {
    c.cyan()
}

/// `Colorize::white` on a `ColoredString`.  Nothing is claimed of the result:
/// it is only handed on until it is turned into text.
#[verifier::external_body]
fn in_white(c: ColoredString) -> ColoredString {
    c.white()
}

/// `Colorize::bold` on a `ColoredString`.  Nothing is claimed of the result:
/// it is only handed on until it is turned into text.
#[verifier::external_body]
fn in_bold(c: ColoredString) -> ColoredString {
    c.bold()
}

/// `Colorize::dimmed` on a `ColoredString`.  Nothing is claimed of the result:
/// it is only handed on until it is turned into text.
#[verifier::external_body]
fn in_dimmed(c: ColoredString) -> ColoredString {
    c.dimmed()
}

/// `Colorize::italic` on a `ColoredString`.  Nothing is claimed of the result:
/// it is only handed on until it is turned into text.
#[verifier::external_body]
fn in_italic(c: ColoredString) -> ColoredString {
    c.italic()
}

/// `ToString::to_string` on a `ColoredString`: the text between the escape
/// codes of its colour and attributes, or the bare text where the
/// environment has colours switched off.  Nothing is claimed of the result.
#[verifier::external_body]
fn to_terminal_text(c: &ColoredString) -> String {
    c.to_string()
}

/// The text as the terminal is to receive it.  A plain style leaves the text
/// as it is; for any other style the result is whatever `colored` makes of
/// it in the present environment.
pub fn paint(text: &str, style: Style) -> (r: String)
    ensures
        style.is_plain() ==> r@ == text@,
{
    if style.is_plain() {
        return String::from_str(text);
    }
    let mut c = unstyled(text);
    match style.hue {
        Hue::Plain => {},
        Hue::Red => {
            c = in_red(c);
        },
        Hue::Yellow => {
            c = in_yellow(c);
        },
        Hue::Green => {
            c = in_green(c);
        },
        Hue::Cyan => {
            c = in_cyan(c);
        },
        Hue::White => {
            c = in_white(c);
        },
    }
    if style.bold {
        c = in_bold(c);
    }
    if style.dimmed {
        c = in_dimmed(c);
    }
    if style.italic {
        c = in_italic(c);
    }
    to_terminal_text(&c)
}

/// A span that owns a copy of `text`.
pub fn span(text: &str, style: Style) -> (r: Span)
    ensures
        r@ == span_of(text@, style),
{
    Span { text: String::from_str(text), style }
}

/// A span of a string that is handed over.
pub fn span_owned(text: String, style: Style) -> (r: Span)
    ensures
        r@ == span_of(text@, style),
{
    Span { text, style }
}

/// A span without style.
pub fn plain(text: &str) -> (r: Span)
    ensures
        r@ == span_of(text@, Style::plain()),
{
    Span { text: String::from_str(text), style: Style::plain() }
}

/// Paints the spans of a line and puts the results together.
pub fn paint_line(line: &Vec<Span>) -> (r: String)
    ensures
        is_painting(line_view(line@), r@),
{
    let mut out = String::new();
    let ghost mut parts: Seq<Seq<char>> = Seq::empty();
    let mut i: usize = 0;
    while i < line.len()
        invariant
            i <= line.len(),
            parts.len() == i,
            out@ == joined(parts),
            forall|j: int|
                0 <= j < i && (#[trigger] line@[j]).style.is_plain() ==> parts[j] == line@[j].text@,
        decreases line.len() - i,
    {
        let piece = paint(line[i].text.as_str(), line[i].style);
        out.append(piece.as_str());
        proof {
            let grown = parts.push(piece@);
            assert(grown.drop_last() =~= parts);
            parts = grown;
        }
        i += 1;
    }
    proof {
        assert(paints(line_view(line@), parts));
    }
    out
}

/// Adds one span to the line.
pub fn push_span(line: &mut Vec<Span>, span: Span)
    ensures
        line_view(final(line)@) == line_view(old(line)@).push(span@),
{
    line.push(span);
    assert(line_view(line@) =~= line_view(old(line)@).push(span@));
}

/// Adds one line to the frame.
pub fn push_line(frame: &mut Vec<Vec<Span>>, line: Vec<Span>)
    ensures
        frame_view(final(frame)@) == frame_view(old(frame)@).push(line_view(line@)),
{
    frame.push(line);
    assert(frame_view(frame@) =~= frame_view(old(frame)@).push(line_view(line@)));
}

/// Paints every line of a frame.
pub fn paint_frame(frame: &Vec<Vec<Span>>) -> (r: Vec<String>)
    ensures
        frame_paints(frame_view(frame@), texts(r@)),
{
    let mut out: Vec<String> = Vec::new();
    let mut i: usize = 0;
    while i < frame.len()
        invariant
            i <= frame.len(),
            out@.len() == i,
            forall|j: int| 0 <= j < i ==> is_painting(#[trigger] frame_view(frame@)[j], out@[j]@),
        decreases frame.len() - i,
    {
        out.push(paint_line(&frame[i]));
        i += 1;
    }
    out
}

} // verus!
