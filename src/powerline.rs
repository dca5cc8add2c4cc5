//! The rendering engine: it joins styled segments into one escape-coded line,
//! drawing each separator in the colours chosen by the segment before it.

use vstd::prelude::*;
use crate::modules::Module;
use crate::terminal::{bg_code, fg_code, push_bg, push_fg, push_reset, reset_code, BgColor, Color, FgColor};
use crate::text::push_char;

verus! {

/// How one segment is drawn: its text and background colours, and the glyph
/// and colour of the separator that follows it.
#[derive(Clone, Copy, Debug, PartialEq, Eq, Structural)]
pub struct Style {
    pub fg: FgColor,
    pub bg: BgColor,
    pub sep: char,
    pub sep_fg: FgColor,
}

impl Style {
    /// A style whose separator is an invisible space in the background colour.
    pub fn simple(fg: Color, bg: Color) -> (r: Style)
        ensures
            r == (Style { fg: FgColor(fg.0), bg: BgColor(bg.0), sep: ' ', sep_fg: FgColor(bg.0) }),
    {
        Style { fg: fg.fg(), bg: bg.bg(), sep: ' ', sep_fg: bg.fg() }
    }

    /// A style with an explicit separator glyph and separator colour.
    pub fn special(fg: Color, bg: Color, sep: char, sep_fg: Color) -> (r: Style)
        ensures
            r == (Style { fg: FgColor(fg.0), bg: BgColor(bg.0), sep, sep_fg: FgColor(sep_fg.0) }),
    {
        Style { fg: fg.fg(), bg: bg.bg(), sep, sep_fg: sep_fg.fg() }
    }
}

/// What a prompt holds: the text written so far and the style of the last
/// segment, if any.
pub struct PowerlineView {
    pub text: Seq<char>,
    pub last: Option<Style>,
}

/// The codes that end the previous segment (if any) and begin one in `style`:
/// the new background, then the previous separator in its own colour, then the
/// new foreground unless the previous separator colour already selected it.
pub open spec fn transition(prev: Option<Style>, style: Style) -> Seq<char> {
    let divider = match prev {
        Some(p) => bg_code(style.bg) + fg_code(p.sep_fg) + seq![p.sep],
        None => bg_code(style.bg),
    };
    let fg = match prev {
        Some(p) => if p.sep_fg == style.fg { Seq::empty() } else { fg_code(style.fg) },
        None => fg_code(style.fg),
    };
    divider + fg
}

/// Everything one segment writes: its transition, its text, and a trailing
/// space when `spaced`.
pub open spec fn segment_code(prev: Option<Style>, style: Style, seg: Seq<char>, spaced: bool) -> Seq<char> {
    transition(prev, style) + seg + if spaced { seq![' '] } else { Seq::empty() }
}

/// The prompt after one more segment.
pub open spec fn appended(v: PowerlineView, style: Style, seg: Seq<char>, spaced: bool) -> PowerlineView {
    PowerlineView { text: v.text + segment_code(v.last, style, seg, spaced), last: Some(style) }
}

/// The finished line: empty when no segment was written; otherwise the text,
/// a reset, the last segment's separator in its colour, and a reset.
pub open spec fn rendered(v: PowerlineView) -> Seq<char> {
    match v.last {
        None => Seq::empty(),
        Some(s) => v.text + reset_code() + fg_code(s.sep_fg) + seq![s.sep] + reset_code(),
    }
}

/// A prompt being built.
pub struct Powerline {
    buffer: String,
    last_style: Option<Style>,
}

impl View for Powerline {
    type V = PowerlineView;

    closed spec fn view(&self) -> PowerlineView {
        PowerlineView { text: self.buffer@, last: self.last_style }
    }
}

impl Powerline {
    /// Well-formed: a style is remembered exactly when some text was written.
    pub closed spec fn wf(&self) -> bool {
        self.last_style.is_none() <==> self.buffer@.len() == 0
    }

    /// An empty prompt.
    pub fn new() -> (r: Powerline)
        ensures
            r.wf(),
            r@.text == Seq::<char>::empty(),
            r@.last.is_none(),
    {
        Powerline { buffer: String::new(), last_style: None }
    }

    fn write_segment(&mut self, seg: &str, style: Style, spaces: bool)
        requires
            old(self).wf(),
        ensures
            final(self).wf(),
            final(self)@ == appended(old(self)@, style, seg@, spaces),
    {
        match self.last_style {
            Some(prev) => {
                push_bg(&mut self.buffer, style.bg);
                push_fg(&mut self.buffer, prev.sep_fg);
                push_char(&mut self.buffer, prev.sep);
                if prev.sep_fg != style.fg {
                    push_fg(&mut self.buffer, style.fg);
                }
            },
            None => {
                push_bg(&mut self.buffer, style.bg);
                push_fg(&mut self.buffer, style.fg);
            },
        }
        self.buffer.append(seg);
        if spaces {
            push_char(&mut self.buffer, ' ');
        }
        self.last_style = Some(style);
        assert(self@.text =~= old(self)@.text + segment_code(old(self)@.last, style, seg@, spaces));
        assert(bg_code(style.bg).len() > 0);
    }

    /// Appends a segment followed by a space.
    pub fn add_segment(&mut self, seg: &str, style: Style)
        requires
            old(self).wf(),
        ensures
            final(self).wf(),
            final(self)@ == appended(old(self)@, style, seg@, true),
    {
        self.write_segment(seg, style, true)
    }

    /// Appends a segment with no trailing space, glued to the next one.
    pub fn add_short_segment(&mut self, seg: &str, style: Style)
        requires
            old(self).wf(),
        ensures
            final(self).wf(),
            final(self)@ == appended(old(self)@, style, seg@, false),
    {
        self.write_segment(seg, style, false)
    }

    /// Lets `module` append its segments.
    pub fn add_module<M: Module>(&mut self, mut module: M)
        requires
            old(self).wf(),
        ensures
            final(self).wf(),
            final(self)@ == module.contributed(old(self)@),
            old(self)@.text.is_prefix_of(final(self)@.text),
    {
        module.append_segments(self)
    }

    /// The style of the last segment, to change the separator that follows it
    /// before the next segment is appended.
    pub fn last_style_mut(&mut self) -> (r: Option<&mut Style>)
        requires
            old(self).wf(),
        ensures
            r.is_none() <==> old(self)@.last.is_none(),
            match r {
                Some(st) => {
                    &&& *st == old(self)@.last.unwrap()
                    &&& final(self)@ == (PowerlineView { text: old(self)@.text, last: Some(*final(st)) })
                    &&& final(self).wf()
                },
                None => *final(self) == *old(self),
            },
    {
        self.last_style.as_mut()
    }

    /// The finished line.
    pub fn render(&self) -> (r: String)
        requires
            self.wf(),
        ensures
            r@ == rendered(self@),
    {
        match self.last_style {
            Some(s) => {
                let mut out = self.buffer.clone();
                push_reset(&mut out);
                push_fg(&mut out, s.sep_fg);
                push_char(&mut out, s.sep);
                push_reset(&mut out);
                assert(out@ =~= rendered(self@));
                out
            },
            None => {
                String::new()
            },
        }
    }
}

impl Default for Powerline {
    fn default() -> (r: Powerline)
        ensures
            r.wf(),
            r@.text == Seq::<char>::empty(),
            r@.last.is_none(),
    {
        Powerline::new()
    }
}

/// Between two appended segments stand, in order: the second segment's
/// background, the first segment's separator colour and separator glyph, and
/// the second segment's foreground only where it differs from the first
/// segment's separator colour; then the second segment's text.
pub proof fn lemma_separator_between(
    v: PowerlineView,
    s1: Style,
    t1: Seq<char>,
    spaced1: bool,
    s2: Style,
    t2: Seq<char>,
    spaced2: bool,
)
    ensures
        appended(appended(v, s1, t1, spaced1), s2, t2, spaced2).text
            == appended(v, s1, t1, spaced1).text
                + bg_code(s2.bg) + fg_code(s1.sep_fg) + seq![s1.sep]
                + (if s1.sep_fg == s2.fg { Seq::<char>::empty() } else { fg_code(s2.fg) })
                + t2 + (if spaced2 { seq![' '] } else { Seq::<char>::empty() }),
        appended(appended(v, s1, t1, spaced1), s2, t2, spaced2).last == Some(s2),
{
    let w = appended(v, s1, t1, spaced1);
    assert(w.last == Some(s1));
    assert(appended(w, s2, t2, spaced2).text =~= w.text
        + bg_code(s2.bg) + fg_code(s1.sep_fg) + seq![s1.sep]
        + (if s1.sep_fg == s2.fg { Seq::<char>::empty() } else { fg_code(s2.fg) })
        + t2 + (if spaced2 { seq![' '] } else { Seq::<char>::empty() }));
}

/// Appending a segment keeps what was written before in front.
pub proof fn lemma_appended_extends(v: PowerlineView, style: Style, seg: Seq<char>, spaced: bool)
    ensures
        v.text.is_prefix_of(appended(v, style, seg, spaced).text),
{
    let w = appended(v, style, seg, spaced);
    assert(w.text.subrange(0, v.text.len() as int) =~= v.text);
}

/// A prompt to which no segment was appended renders as nothing, however
/// often it is rendered.
pub proof fn lemma_empty_renders_nothing(p: Powerline)
    requires
        p.wf(),
        p@.last.is_none(),
    ensures
        rendered(p@) == Seq::<char>::empty(),
        p@.text == Seq::<char>::empty(),
{
}

} // verus!
