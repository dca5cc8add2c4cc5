//! Terminal colours and the escape codes that select them.

use vstd::prelude::*;
use crate::text::{decimal, push_char, push_decimal};

verus! {

/// A colour of the terminal's 256-colour palette.
#[derive(Clone, Copy, Debug, PartialEq, Eq, Structural)]
pub struct Color(pub u8);

/// A colour used as the text (foreground) colour.
#[derive(Clone, Copy, Debug, PartialEq, Eq, Structural)]
pub struct FgColor(pub u8);

/// A colour used as the background colour.
#[derive(Clone, Copy, Debug, PartialEq, Eq, Structural)]
pub struct BgColor(pub u8);

impl Color {
    /// This colour as a foreground colour.
    pub fn fg(self) -> (r: FgColor)
        ensures
            r.0 == self.0,
    {
        FgColor(self.0)
    }

    /// This colour as a background colour.
    pub fn bg(self) -> (r: BgColor)
        ensures
            r.0 == self.0,
    {
        BgColor(self.0)
    }
}

impl BgColor {
    /// The same palette entry, as a foreground colour.
    pub fn transpose(self) -> (r: FgColor)
        ensures
            r.0 == self.0,
    {
        FgColor(self.0)
    }
}

/// The control sequence introducer, `ESC [`.
pub open spec fn csi() -> Seq<char> {
    seq!['\x1b', '[']
}

/// The escape code that selects foreground colour `c`: `ESC [ 38;5;<c> m`.
pub open spec fn fg_code(c: FgColor) -> Seq<char> {
    csi() + seq!['3', '8', ';', '5', ';'] + decimal(c.0 as nat) + seq!['m']
}

/// The escape code that selects background colour `c`: `ESC [ 48;5;<c> m`.
pub open spec fn bg_code(c: BgColor) -> Seq<char> {
    csi() + seq!['4', '8', ';', '5', ';'] + decimal(c.0 as nat) + seq!['m']
}

/// The escape code that resets all attributes: `ESC [ 0 m`.
pub open spec fn reset_code() -> Seq<char> {
    csi() + seq!['0', 'm']
}

fn push_color_code(s: &mut String, layer: char, c: u8)
    ensures
        final(s)@ == old(s)@ + csi() + seq![layer, '8', ';', '5', ';'] + decimal(c as nat) + seq!['m'],
{
    push_char(s, '\x1b');
    push_char(s, '[');
    push_char(s, layer);
    push_char(s, '8');
    push_char(s, ';');
    push_char(s, '5');
    push_char(s, ';');
    push_decimal(s, c as u64);
    push_char(s, 'm');
    assert(final(s)@ =~= old(s)@ + csi() + seq![layer, '8', ';', '5', ';'] + decimal(c as nat) + seq!['m']);
}

/// Appends the escape code of foreground colour `c`.
pub fn push_fg(s: &mut String, c: FgColor)
    ensures
        final(s)@ == old(s)@ + fg_code(c),
{
    push_color_code(s, '3', c.0);
    assert(final(s)@ =~= old(s)@ + fg_code(c));
}

/// Appends the escape code of background colour `c`.
pub fn push_bg(s: &mut String, c: BgColor)
    ensures
        final(s)@ == old(s)@ + bg_code(c),
{
    push_color_code(s, '4', c.0);
    assert(final(s)@ =~= old(s)@ + bg_code(c));
}

/// Appends the reset code.
pub fn push_reset(s: &mut String)
    ensures
        final(s)@ == old(s)@ + reset_code(),
{
    push_char(s, '\x1b');
    push_char(s, '[');
    push_char(s, '0');
    push_char(s, 'm');
    assert(final(s)@ =~= old(s)@ + reset_code());
}

} // verus!
