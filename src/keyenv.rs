//! The key-list provider: each word of a list, marked with a key glyph.

use vstd::prelude::*;
use crate::git::simple_style;
use crate::modules::Module;
use crate::powerline::{appended, lemma_appended_extends, Powerline, PowerlineView, Style};
use crate::terminal::Color;
use crate::text::push_char;

verus! {

/// The glyph before each key.
pub const KEY_GLYPH: char = '\u{1F511}';

/// The colours of the key-list segment.
#[derive(Clone, Copy, Debug, PartialEq, Eq, Structural)]
pub struct KeyEnvScheme {
    pub key_env_bg: Color,
    pub key_env_fg: Color,
}

/// Whether `c` has the Unicode White_Space property.
pub open spec fn is_white_space(c: char) -> bool {
    ('\u{9}' <= c && c <= '\u{d}') || c == ' ' || c == '\u{85}' || c == '\u{a0}' || c == '\u{1680}'
        || ('\u{2000}' <= c && c <= '\u{200a}') || c == '\u{2028}' || c == '\u{2029}' || c == '\u{202f}'
        || c == '\u{205f}' || c == '\u{3000}'
}

/// The words of a text, split at runs of Unicode whitespace, in order and
/// without empty words.
pub uninterp spec fn whitespace_words(s: Seq<char>) -> Seq<Seq<char>>;

/// Relies on `str::split_whitespace`: the words of `s`, which depend on its
/// characters alone.
#[verifier::external_body]
fn split_words(s: &str) -> (r: Vec<String>)
    ensures
        r@.map_values(|w: String| w@) == whitespace_words(s@),
        forall|i: int| 0 <= i < r@.len() ==> #[trigger] r@[i]@.len() > 0,
        forall|i: int, j: int| 0 <= i < r@.len() && 0 <= j < r@[i]@.len() ==> !is_white_space(#[trigger] r@[i]@[j]),
{
    s.split_whitespace().map(|w| w.to_string()).collect()
}

/// Each word behind a key glyph, joined by single spaces.
pub open spec fn key_text(words: Seq<Seq<char>>) -> Seq<char>
    decreases words.len(),
{
    if words.len() == 0 {
        Seq::empty()
    } else if words.len() == 1 {
        seq![KEY_GLYPH] + words[0]
    } else {
        key_text(words.drop_last()) + seq![' ', KEY_GLYPH] + words.last()
    }
}

/// Each of `words` behind a key glyph, joined by single spaces.
pub fn join_keys(words: &Vec<String>) -> (r: String)
    ensures
        r@ == key_text(words@.map_values(|w: String| w@)),
{
    let ghost views = words@.map_values(|w: String| w@);
    let mut out = String::new();
    let mut i: usize = 0;
    while i < words.len()
        invariant
            i <= words@.len(),
            views == words@.map_values(|w: String| w@),
            out@ == key_text(views.take(i as int)),
        decreases words@.len() - i,
    {
        assert(views.take(i + 1).drop_last() =~= views.take(i as int));
        assert(views.take(i + 1).last() == words@[i as int]@);
        if i > 0 {
            push_char(&mut out, ' ');
        } else {
            assert(views.take(1) =~= seq![views[0]]);
        }
        push_char(&mut out, KEY_GLYPH);
        out.append(words[i].as_str());
        proof {
            if i > 0 {
                assert(out@ =~= key_text(views.take(i as int)) + seq![' ', KEY_GLYPH] + views.take(i + 1).last());
            } else {
                assert(out@ =~= seq![KEY_GLYPH] + views.take(1)[0]);
            }
        }
        i = i + 1;
    }
    assert(views.take(i as int) =~= views);
    out
}

/// The words of `keys`, each behind a key glyph, joined by single spaces.
pub fn key_list(keys: &str) -> (r: String)
    ensures
        r@ == key_text(whitespace_words(keys@)),
{
    let words = split_words(keys);
    join_keys(&words)
}

/// Appends the key list of `keys` as one segment.
pub fn append_keys(powerline: &mut Powerline, keys: &str, scheme: &KeyEnvScheme)
    requires
        old(powerline).wf(),
    ensures
        final(powerline).wf(),
        final(powerline)@ == appended(
            old(powerline)@,
            simple_style(scheme.key_env_fg, scheme.key_env_bg),
            key_text(whitespace_words(keys@)),
            true,
        ),
{
    let text = key_list(keys);
    powerline.add_segment(text.as_str(), Style::simple(scheme.key_env_fg, scheme.key_env_bg));
}

/// The key-list provider: draws the listed keys, where a list is set.
pub struct KeyEnv {
    scheme: KeyEnvScheme,
    keys: Option<String>,
}

impl KeyEnv {
    /// A provider for the whitespace-separated list `keys`, or for none.
    pub fn new(scheme: KeyEnvScheme, keys: Option<String>) -> (r: KeyEnv)
        ensures
            r.scheme() == scheme,
            r.keys() == keys,
    {
        KeyEnv { scheme, keys }
    }

    /// The colours.
    pub closed spec fn scheme(&self) -> KeyEnvScheme {
        self.scheme
    }

    /// The key list.
    pub closed spec fn keys(&self) -> Option<String> {
        self.keys
    }
}

impl Module for KeyEnv {
    /// One segment of the listed keys; nothing without a list.
    open spec fn contributed(&self, v: PowerlineView) -> PowerlineView {
        match self.keys() {
            Some(k) => appended(
                v,
                simple_style(self.scheme().key_env_fg, self.scheme().key_env_bg),
                key_text(whitespace_words(k@)),
                true,
            ),
            None => v,
        }
    }

    fn append_segments(&mut self, powerline: &mut Powerline) {
        if let Some(keys) = &self.keys {
            append_keys(powerline, keys.as_str(), &self.scheme);
            proof {
                lemma_appended_extends(
                    old(powerline)@,
                    simple_style(self.scheme.key_env_fg, self.scheme.key_env_bg),
                    key_text(whitespace_words(keys@)),
                    true,
                );
            }
        } else {
            assert(powerline@.text.subrange(0, powerline@.text.len() as int) =~= powerline@.text);
        }
    }
}

} // verus!
