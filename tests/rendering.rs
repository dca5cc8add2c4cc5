use powerline::{Color, Distrobox, DistroboxScheme, FgColor, Powerline, Style};

fn fg(n: u8) -> String {
    format!("\x1b[38;5;{}m", n)
}

fn bg(n: u8) -> String {
    format!("\x1b[48;5;{}m", n)
}

const RESET: &str = "\x1b[0m";

#[test]
fn empty_prompt_renders_nothing() {
    let p = Powerline::new();
    assert_eq!(p.render(), "");
    assert_eq!(p.render(), "");
}

#[test]
fn single_segment_renders_with_final_separator() {
    let mut p = Powerline::new();
    p.add_segment("hi", Style::simple(Color(7), Color(4)));
    let expected = format!("{}{}hi {}{} {}", bg(4), fg(7), RESET, fg(4), RESET);
    assert_eq!(p.render(), expected);
}

#[test]
fn separator_uses_previous_segment_colour_and_glyph() {
    let mut p = Powerline::new();
    p.add_segment("a", Style::special(Color(1), Color(2), '>', Color(3)));
    p.add_segment("b", Style::simple(Color(5), Color(6)));
    let expected = format!(
        "{}{}a {}{}>{}b {}{} {}",
        bg(2), fg(1), bg(6), fg(3), fg(5), RESET, fg(6), RESET
    );
    assert_eq!(p.render(), expected);
}

#[test]
fn foreground_code_elided_when_separator_colour_matches() {
    let mut p = Powerline::new();
    p.add_segment("a", Style::special(Color(1), Color(2), '>', Color(9)));
    p.add_segment("b", Style::simple(Color(9), Color(6)));
    let expected = format!(
        "{}{}a {}{}>b {}{} {}",
        bg(2), fg(1), bg(6), fg(9), RESET, fg(6), RESET
    );
    assert_eq!(p.render(), expected);
}

#[test]
fn short_segment_has_no_trailing_space() {
    let mut p = Powerline::new();
    p.add_short_segment("x", Style::simple(Color(1), Color(2)));
    p.add_segment("y", Style::simple(Color(1), Color(2)));
    let expected = format!("{}{}x{}{} {}y {}{} {}", bg(2), fg(1), bg(2), fg(2), fg(1), RESET, fg(2), RESET);
    assert_eq!(p.render(), expected);
}

#[test]
fn last_style_can_be_rewritten() {
    let mut p = Powerline::new();
    assert!(p.last_style_mut().is_none());
    p.add_segment("a", Style::simple(Color(1), Color(2)));
    if let Some(style) = p.last_style_mut() {
        style.sep = '|';
        style.sep_fg = FgColor(200);
    }
    let expected = format!("{}{}a {}{}|{}", bg(2), fg(1), RESET, fg(200), RESET);
    assert_eq!(p.render(), expected);
}

#[test]
fn three_digit_colours_are_written_whole() {
    let mut p = Powerline::new();
    p.add_segment("z", Style::simple(Color(255), Color(0)));
    let expected = format!("{}{}z {}{} {}", bg(0), fg(255), RESET, fg(0), RESET);
    assert_eq!(p.render(), expected);
}

#[test]
fn module_appends_its_segments() {
    let scheme = DistroboxScheme { distrobox_fg: Color(1), distrobox_bg: Color(1) };
    let mut p = Powerline::new();
    p.add_segment("0", Style::simple(Color(1), Color(1)));
    let before = p.render();
    p.add_module(Distrobox::new(scheme, Some("2".to_string())));
    let expected = format!(
        "{}{}0 {}{} \u{1F4E6}\u{FE0F}{}{} 2 {}{} {}",
        bg(1), fg(1), bg(1), fg(1), bg(1), fg(1), RESET, fg(1), RESET
    );
    assert_eq!(p.render(), expected);
    let mut q = Powerline::new();
    q.add_segment("0", Style::simple(Color(1), Color(1)));
    q.add_module(Distrobox::new(scheme, None));
    assert_eq!(q.render(), before);
}

#[test]
fn default_prompt_is_empty() {
    let p = Powerline::default();
    assert_eq!(p.render(), "");
}
