//! The container provider: a package glyph and the container's id.

use vstd::prelude::*;
use crate::git::simple_style;
use crate::modules::Module;
use crate::powerline::{appended, lemma_appended_extends, Powerline, PowerlineView, Style};
use crate::terminal::Color;
use crate::text::push_char;

verus! {

/// The colours of the container segment.
#[derive(Clone, Copy, Debug, PartialEq, Eq, Structural)]
pub struct DistroboxScheme {
    pub distrobox_fg: Color,
    pub distrobox_bg: Color,
}

/// The glyph drawn before a container id: a package and the emoji selector.
pub open spec fn package_glyph() -> Seq<char> {
    seq!['\u{1F4E6}', '\u{FE0F}']
}

/// Appends the glyph, glued to the container id that follows it, both in the
/// container colours.
pub fn append_container(powerline: &mut Powerline, container_id: &str, scheme: &DistroboxScheme)
    requires
        old(powerline).wf(),
    ensures
        final(powerline).wf(),
        final(powerline)@ == appended(
            appended(old(powerline)@, simple_style(scheme.distrobox_fg, scheme.distrobox_bg), package_glyph(), false),
            simple_style(scheme.distrobox_fg, scheme.distrobox_bg),
            container_id@,
            true,
        ),
{
    let style = Style::simple(scheme.distrobox_fg, scheme.distrobox_bg);
    let mut glyph = String::new();
    push_char(&mut glyph, '\u{1F4E6}');
    push_char(&mut glyph, '\u{FE0F}');
    assert(glyph@ =~= package_glyph());
    powerline.add_short_segment(glyph.as_str(), style);
    powerline.add_segment(container_id, style);
}

/// The container provider: draws the container id, where the prompt runs in
/// one.
pub struct Distrobox {
    scheme: DistroboxScheme,
    container_id: Option<String>,
}

impl Distrobox {
    /// A provider for the container `container_id`, or for none.
    pub fn new(scheme: DistroboxScheme, container_id: Option<String>) -> (r: Distrobox)
        ensures
            r.scheme() == scheme,
            r.container_id() == container_id,
    {
        Distrobox { scheme, container_id }
    }

    /// The colours.
    pub closed spec fn scheme(&self) -> DistroboxScheme {
        self.scheme
    }

    /// The container id.
    pub closed spec fn container_id(&self) -> Option<String> {
        self.container_id
    }
}

impl Module for Distrobox {
    /// The glyph and the container id; nothing outside a container.
    open spec fn contributed(&self, v: PowerlineView) -> PowerlineView {
        match self.container_id() {
            Some(id) => {
                let style = simple_style(self.scheme().distrobox_fg, self.scheme().distrobox_bg);
                appended(appended(v, style, package_glyph(), false), style, id@, true)
            },
            None => v,
        }
    }

    fn append_segments(&mut self, powerline: &mut Powerline) {
        if let Some(id) = &self.container_id {
            append_container(powerline, id.as_str(), &self.scheme);
            proof {
                let style = simple_style(self.scheme.distrobox_fg, self.scheme.distrobox_bg);
                let w = appended(old(powerline)@, style, package_glyph(), false);
                lemma_appended_extends(old(powerline)@, style, package_glyph(), false);
                lemma_appended_extends(w, style, id@, true);
                assert(powerline@.text.subrange(0, old(powerline)@.text.len() as int)
                    =~= w.text.subrange(0, old(powerline)@.text.len() as int));
            }
        } else {
            assert(powerline@.text.subrange(0, powerline@.text.len() as int) =~= powerline@.text);
        }
    }
}

} // verus!
