//! Shell-dialect aware serialization of terminal colors.  Each dialect wraps
//! the raw SGR 256-color codes differently (some shells need zero-width
//! markers so line editing does not count the codes); the wrapping is a pure
//! function of the color and the dialect, stated exactly over `Seq<char>`.

use vstd::prelude::*;

use crate::colors::Color;
use crate::text::{dec_rep, lemma_dec_rep_len, push_dec_u64};

verus! {

/// The shell dialect the prompt is rendered for; it decides how escape
/// codes are wrapped in the output.
#[derive(Clone, Copy, PartialEq, Eq, Structural, Debug)]
pub enum Shell {
    Bash,
    Bare,
    Zsh,
}

/// A palette index used in foreground position.
#[derive(Clone, Copy, PartialEq, Eq, Structural, Debug)]
pub struct FgColor(pub u8);

/// A palette index used in background position.
#[derive(Clone, Copy, PartialEq, Eq, Structural, Debug)]
pub struct BgColor(pub u8);

/// The marker for the code that clears all colors.
#[derive(Clone, Copy, PartialEq, Eq, Structural, Debug)]
pub struct Reset;

/// The exact character sequence that paints the foreground color `c` in
/// dialect `sh`.
pub open spec fn fg_code_seq(sh: Shell, c: nat) -> Seq<char> {
    match sh {
        Shell::Bash => "\\[\\e[38;5;"@ + dec_rep(c) + "m\\]"@,
        Shell::Bare => "\u{1b}[38;5;"@ + dec_rep(c) + "m"@,
        Shell::Zsh => "%{\u{1b}[38;5;"@ + dec_rep(c) + "m%}"@,
    }
}

/// The exact character sequence that paints the background color `c` in
/// dialect `sh`.
pub open spec fn bg_code_seq(sh: Shell, c: nat) -> Seq<char> {
    match sh {
        Shell::Bash => "\\[\\e[48;5;"@ + dec_rep(c) + "m\\]"@,
        Shell::Bare => "\u{1b}[48;5;"@ + dec_rep(c) + "m"@,
        Shell::Zsh => "%{\u{1b}[48;5;"@ + dec_rep(c) + "m%}"@,
    }
}

/// The exact character sequence that clears the colors in dialect `sh`.
pub open spec fn reset_code_seq(sh: Shell) -> Seq<char> {
    match sh {
        Shell::Bash => "\\[\\e[0m\\]"@,
        Shell::Bare => "\u{1b}[0m"@,
        Shell::Zsh => "%{\u{1b}[39m%}%{\u{1b}[49m%}"@,
    }
}

pub proof fn lemma_reset_code_len(sh: Shell)
    ensures
        reset_code_seq(sh).len() >= 4,
{
    reveal_strlit("\\[\\e[0m\\]");
    reveal_strlit("\u{1b}[0m");
    reveal_strlit("%{\u{1b}[39m%}%{\u{1b}[49m%}");
}

pub proof fn lemma_fg_code_len(sh: Shell, c: nat)
    ensures
        fg_code_seq(sh, c).len() >= 9,
{
    reveal_strlit("\\[\\e[38;5;");
    reveal_strlit("\u{1b}[38;5;");
    reveal_strlit("%{\u{1b}[38;5;");
    reveal_strlit("m\\]");
    reveal_strlit("m");
    reveal_strlit("m%}");
    lemma_dec_rep_len(c);
}

pub proof fn lemma_bg_code_len(sh: Shell, c: nat)
    ensures
        bg_code_seq(sh, c).len() >= 9,
{
    reveal_strlit("\\[\\e[48;5;");
    reveal_strlit("\u{1b}[48;5;");
    reveal_strlit("%{\u{1b}[48;5;");
    reveal_strlit("m\\]");
    reveal_strlit("m");
    reveal_strlit("m%}");
    lemma_dec_rep_len(c);
}

/// Appends the foreground paint code for `c` in dialect `sh`.
pub fn push_fg_code(out: &mut String, sh: Shell, c: u8)
    ensures
        final(out)@ == old(out)@ + fg_code_seq(sh, c as nat),
{
    match sh {
        Shell::Bash => {
            out.append("\\[\\e[38;5;");
            push_dec_u64(out, c as u64);
            out.append("m\\]");
        },
        Shell::Bare => {
            out.append("\u{1b}[38;5;");
            push_dec_u64(out, c as u64);
            out.append("m");
        },
        Shell::Zsh => {
            out.append("%{\u{1b}[38;5;");
            push_dec_u64(out, c as u64);
            out.append("m%}");
        },
    }
    proof {
        assert(final(out)@ =~= old(out)@ + fg_code_seq(sh, c as nat));
    }
}

/// Appends the background paint code for `c` in dialect `sh`.
pub fn push_bg_code(out: &mut String, sh: Shell, c: u8)
    ensures
        final(out)@ == old(out)@ + bg_code_seq(sh, c as nat),
{
    match sh {
        Shell::Bash => {
            out.append("\\[\\e[48;5;");
            push_dec_u64(out, c as u64);
            out.append("m\\]");
        },
        Shell::Bare => {
            out.append("\u{1b}[48;5;");
            push_dec_u64(out, c as u64);
            out.append("m");
        },
        Shell::Zsh => {
            out.append("%{\u{1b}[48;5;");
            push_dec_u64(out, c as u64);
            out.append("m%}");
        },
    }
    proof {
        assert(final(out)@ =~= old(out)@ + bg_code_seq(sh, c as nat));
    }
}

/// Appends the color-clearing code for dialect `sh`.
pub fn push_reset_code(out: &mut String, sh: Shell)
    ensures
        final(out)@ == old(out)@ + reset_code_seq(sh),
{
    match sh {
        Shell::Bash => out.append("\\[\\e[0m\\]"),
        Shell::Bare => out.append("\u{1b}[0m"),
        Shell::Zsh => out.append("%{\u{1b}[39m%}%{\u{1b}[49m%}"),
    }
}

impl FgColor {
    /// The same palette index, moved into background position.
    pub fn transpose(self) -> (r: BgColor)
        ensures
            r.0 == self.0,
    {
        BgColor(self.0)
    }

    /// The paint code for this color in dialect `sh`.
    pub fn code(self, sh: Shell) -> (r: String)
        ensures
            r@ == fg_code_seq(sh, self.0 as nat),
    {
        let mut out = String::new();
        push_fg_code(&mut out, sh, self.0);
        proof {
            assert(out@ =~= fg_code_seq(sh, self.0 as nat));
        }
        out
    }
}

impl BgColor {
    /// The same palette index, moved into foreground position.
    pub fn transpose(self) -> (r: FgColor)
        ensures
            r.0 == self.0,
    {
        FgColor(self.0)
    }

    /// The paint code for this color in dialect `sh`.
    pub fn code(self, sh: Shell) -> (r: String)
        ensures
            r@ == bg_code_seq(sh, self.0 as nat),
    {
        let mut out = String::new();
        push_bg_code(&mut out, sh, self.0);
        proof {
            assert(out@ =~= bg_code_seq(sh, self.0 as nat));
        }
        out
    }
}

impl Reset {
    /// The color-clearing code for dialect `sh`.
    pub fn code(self, sh: Shell) -> (r: String)
        ensures
            r@ == reset_code_seq(sh),
    {
        let mut out = String::new();
        push_reset_code(&mut out, sh);
        proof {
            assert(out@ =~= reset_code_seq(sh));
        }
        out
    }
}

impl From<Color> for FgColor {
    fn from(c: Color) -> (r: Self) {
        FgColor(c.0)
    }
}

impl vstd::std_specs::convert::FromSpecImpl<Color> for FgColor {
    open spec fn obeys_from_spec() -> bool {
        true
    }

    open spec fn from_spec(c: Color) -> Self {
        FgColor(c.0)
    }
}

impl From<Color> for BgColor {
    fn from(c: Color) -> (r: Self) {
        BgColor(c.0)
    }
}

impl vstd::std_specs::convert::FromSpecImpl<Color> for BgColor {
    open spec fn obeys_from_spec() -> bool {
        true
    }

    open spec fn from_spec(c: Color) -> Self {
        BgColor(c.0)
    }
}

} // verus!
