use gitas::style::{paint, paint_frame, paint_line, plain, span, Hue, Style};

fn colours_on() {
    colored::control::set_override(true);
}

#[test]
fn plain_text_is_never_touched() {
    colours_on();
    assert_eq!(paint("hello", Style::plain()), "hello");
    assert_eq!(paint("", Style::plain()), "");
}

#[test]
fn each_colour_has_its_escape_code() {
    colours_on();
    assert_eq!(paint("x", Style::hue(Hue::Red)), "\u{1b}[31mx\u{1b}[0m");
    assert_eq!(paint("x", Style::hue(Hue::Green)), "\u{1b}[32mx\u{1b}[0m");
    assert_eq!(paint("x", Style::hue(Hue::Yellow)), "\u{1b}[33mx\u{1b}[0m");
    assert_eq!(paint("x", Style::hue(Hue::Cyan)), "\u{1b}[36mx\u{1b}[0m");
    assert_eq!(paint("x", Style::hue(Hue::White)), "\u{1b}[37mx\u{1b}[0m");
}

#[test]
fn each_attribute_has_its_escape_code() {
    colours_on();
    assert_eq!(paint("x", Style::plain().bold()), "\u{1b}[1mx\u{1b}[0m");
    assert_eq!(paint("x", Style::plain().dimmed()), "\u{1b}[2mx\u{1b}[0m");
    assert_eq!(paint("x", Style::plain().italic()), "\u{1b}[3mx\u{1b}[0m");
}

#[test]
fn colour_and_attributes_combine() {
    colours_on();
    assert_eq!(paint(">", Style::hue(Hue::Yellow).bold()), "\u{1b}[1;33m>\u{1b}[0m");
    assert_eq!(paint("x", Style::plain().italic().dimmed()), "\u{1b}[2;3mx\u{1b}[0m");
    assert_eq!(paint("x", Style::plain().dimmed().italic()), "\u{1b}[2;3mx\u{1b}[0m");
}

#[test]
fn a_line_is_its_painted_spans_in_order() {
    colours_on();
    let line = vec![plain("  "), span(">", Style::hue(Hue::Yellow).bold()), plain(" item")];
    assert_eq!(paint_line(&line), "  \u{1b}[1;33m>\u{1b}[0m item");
    assert_eq!(paint_line(&Vec::new()), "");
}

#[test]
fn a_frame_is_painted_line_by_line() {
    colours_on();
    let frame = vec![vec![plain("a")], vec![], vec![span("b", Style::hue(Hue::Green))]];
    assert_eq!(paint_frame(&frame), vec!["a", "", "\u{1b}[32mb\u{1b}[0m"]);
}

#[test]
fn style_builders_set_one_thing_each() {
    let style = Style::hue(Hue::Cyan).bold();
    assert_eq!(style, Style { hue: Hue::Cyan, bold: true, dimmed: false, italic: false });
    assert!(Style::plain().is_plain());
    assert!(!style.is_plain());
    assert!(!Style::plain().dimmed().is_plain());
    assert!(!Style::plain().italic().is_plain());
    assert!(!Style::hue(Hue::White).is_plain());
}
