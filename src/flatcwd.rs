//! The working-directory provider: the whole path as one segment, written
//! relative to the home directory where it lies inside it.

use vstd::prelude::*;
use crate::git::simple_style;
use crate::modules::Module;
use crate::powerline::{appended, lemma_appended_extends, Powerline, PowerlineView, Style};
use crate::terminal::{BgColor, Color, FgColor};
use crate::text::push_char;

verus! {

/// The thin separator drawn after the path while it is being written.
pub const THIN_SEPARATOR: char = '\u{E0B1}';
/// The solid separator that ends the path segment.
pub const SOLID_SEPARATOR: char = '\u{E0B0}';

/// The colours of the path segment.
#[derive(Clone, Copy, Debug, PartialEq, Eq, Structural)]
pub struct FlatCwdScheme {
    pub cwd_fg: Color,
    pub path_fg: Color,
    pub path_bg: Color,
    pub home_fg: Color,
    pub home_bg: Color,
    pub separator_fg: Color,
}

/// A style that ends in a solid separator of its own background colour.
pub open spec fn solid_style(fg: Color, bg: Color) -> Style {
    Style { fg: FgColor(fg.0), bg: BgColor(bg.0), sep: SOLID_SEPARATOR, sep_fg: FgColor(bg.0) }
}

/// The path segment: the root alone in the path colours; a path under `home`
/// as `~` and the rest in the home colours; any other path whole in the path
/// colours. Only the root keeps an invisible separator.
pub open spec fn cwd_segment(cwd: Seq<char>, home: Option<Seq<char>>, scheme: FlatCwdScheme) -> (Seq<char>, Style) {
    if cwd == seq!['/'] {
        (cwd, simple_style(scheme.path_fg, scheme.path_bg))
    } else if home matches Some(h) && h.is_prefix_of(cwd) {
        (seq!['~'] + cwd.skip(home.unwrap().len() as int), solid_style(scheme.home_fg, scheme.home_bg))
    } else {
        (cwd, solid_style(scheme.path_fg, scheme.path_bg))
    }
}

fn starts_with(s: &str, prefix: &str) -> (r: bool)
    ensures
        r == prefix@.is_prefix_of(s@),
{
    let n = s.unicode_len();
    let m = prefix.unicode_len();
    if m > n {
        return false;
    }
    let mut i: usize = 0;
    while i < m
        invariant
            m <= n,
            n == s@.len(),
            m == prefix@.len(),
            i <= m,
            forall|j: int| 0 <= j < i ==> prefix@[j] == s@[j],
        decreases m - i,
    {
        if prefix.get_char(i) != s.get_char(i) {
            return false;
        }
        i = i + 1;
    }
    true
}

/// Appends the path segment of `cwd`, as `cwd_segment` gives it.
pub fn append_cwd(powerline: &mut Powerline, cwd: &str, home: Option<&str>, scheme: &FlatCwdScheme)
    requires
        old(powerline).wf(),
    ensures
        final(powerline).wf(),
        final(powerline)@ == appended(
            old(powerline)@,
            cwd_segment(cwd@, match home { Some(h) => Some(h@), None => None::<Seq<char>> }, *scheme).1,
            cwd_segment(cwd@, match home { Some(h) => Some(h@), None => None::<Seq<char>> }, *scheme).0,
            true,
        ),
{
    let n = cwd.unicode_len();
    if n == 1 && cwd.get_char(0) == '/' {
        assert(cwd@ =~= seq!['/']);
        powerline.add_segment(cwd, Style::simple(scheme.path_fg, scheme.path_bg));
        return;
    }
    assert(cwd@ != seq!['/']) by {
        if cwd@ == seq!['/'] {
            assert(cwd@.len() == 1 && cwd@[0] == '/');
        }
    }
    let at_home = match home {
        Some(h) => starts_with(cwd, h),
        None => false,
    };
    if at_home {
        let h = home.unwrap();
        let mut text = String::new();
        push_char(&mut text, '~');
        text.append(cwd.substring_char(h.unicode_len(), n));
        assert(text@ =~= seq!['~'] + cwd@.skip(h@.len() as int));
        powerline.add_segment(text.as_str(), Style::special(scheme.home_fg, scheme.home_bg, THIN_SEPARATOR, scheme.separator_fg));
    } else {
        powerline.add_segment(cwd, Style::special(scheme.path_fg, scheme.path_bg, THIN_SEPARATOR, scheme.separator_fg));
    }
    if let Some(style) = powerline.last_style_mut() {
        style.sep = SOLID_SEPARATOR;
        style.sep_fg = style.bg.transpose();
    }
    assert(powerline@ =~= appended(
        old(powerline)@,
        cwd_segment(cwd@, match home { Some(h) => Some(h@), None => None::<Seq<char>> }, *scheme).1,
        cwd_segment(cwd@, match home { Some(h) => Some(h@), None => None::<Seq<char>> }, *scheme).0,
        true,
    ));
}

/// The working-directory provider.
pub struct FlatCwd {
    scheme: FlatCwdScheme,
    cwd: Option<String>,
    home: Option<String>,
}

impl FlatCwd {
    /// A provider for the working directory `cwd`, where it could be read,
    /// and the home directory `home`, where one is known.
    pub fn new(scheme: FlatCwdScheme, cwd: Option<String>, home: Option<String>) -> (r: FlatCwd)
        ensures
            r.scheme() == scheme,
            r.cwd() == cwd,
            r.home() == home,
    {
        FlatCwd { scheme, cwd, home }
    }

    /// The colours.
    pub closed spec fn scheme(&self) -> FlatCwdScheme {
        self.scheme
    }

    /// The working directory.
    pub closed spec fn cwd(&self) -> Option<String> {
        self.cwd
    }

    /// The home directory.
    pub closed spec fn home(&self) -> Option<String> {
        self.home
    }
}

impl Module for FlatCwd {
    /// The path segment; nothing where the working directory is unknown.
    open spec fn contributed(&self, v: PowerlineView) -> PowerlineView {
        match self.cwd() {
            Some(c) => {
                let home = match self.home() {
                    Some(h) => Some(h@),
                    None => None::<Seq<char>>,
                };
                appended(v, cwd_segment(c@, home, self.scheme()).1, cwd_segment(c@, home, self.scheme()).0, true)
            },
            None => v,
        }
    }

    fn append_segments(&mut self, powerline: &mut Powerline) {
        if let Some(cwd) = &self.cwd {
            let home = match &self.home {
                Some(h) => Some(h.as_str()),
                None => None,
            };
            append_cwd(powerline, cwd.as_str(), home, &self.scheme);
            proof {
                let hv = match self.home() {
                    Some(h) => Some(h@),
                    None => None::<Seq<char>>,
                };
                lemma_appended_extends(old(powerline)@, cwd_segment(cwd@, hv, self.scheme).1, cwd_segment(cwd@, hv, self.scheme).0, true);
            }
        } else {
            assert(powerline@.text.subrange(0, powerline@.text.len() as int) =~= powerline@.text);
        }
    }
}

} // verus!
