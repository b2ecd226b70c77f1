//! A producer that appends how long the last command ran, when it ran
//! longer than a configured threshold.

use vstd::prelude::*;

use core::marker::PhantomData;

use crate::colors::Color;
use crate::modules::Module;
use crate::powerline::{simple_style, Powerline, SegRec, Style};
use crate::text::{dec_rep, digit_char, push_dec_u64, push_digit};
use crate::themes::DefaultColors;

verus! {

/// The duration producer: the last command's duration and the display
/// threshold, both in milliseconds.
pub struct LastCmdDuration<S> {
    pub min_display_time: u64,
    pub cmd_duration: Option<u64>,
    pub scheme: PhantomData<S>,
}

pub trait LastCmdDurationScheme: DefaultColors {
    fn time_bg() -> Color {
        Self::default_bg()
    }

    fn time_fg() -> Color {
        Self::default_fg()
    }

    fn time_icon() -> &'static str {
        "\u{f1acc}"
    }
}

impl<S: LastCmdDurationScheme> LastCmdDuration<S> {
    pub fn new(cmd_duration: Option<u64>, min_duration: u64) -> (r: LastCmdDuration<S>)
        ensures
            r.cmd_duration == cmd_duration,
            r.min_display_time == min_duration,
    {
        LastCmdDuration { min_display_time: min_duration, cmd_duration, scheme: PhantomData }
    }
}

/// A human-friendly rendering of a duration in milliseconds: minutes and
/// seconds above a minute, seconds with two (truncated) decimals above a
/// second, whole milliseconds above one, microsecond units below.
pub open spec fn nice_duration_spec(ms: nat) -> Seq<char> {
    if ms > 60000 {
        dec_rep(ms / 1000 / 60) + seq!['m'] + dec_rep((ms / 1000) % 60) + seq!['s']
    } else if ms > 1000 {
        dec_rep(ms / 1000) + seq!['.', digit_char((ms % 1000) / 100), digit_char(((ms % 1000) / 10) % 10), 's']
    } else if ms > 1 {
        dec_rep(ms) + seq!['m', 's']
    } else {
        dec_rep(ms) + seq!['\u{b5}', 's']
    }
}

/// Renders a duration in milliseconds as text.
pub fn nice_duration(ms: u64) -> (r: String)
    ensures
        r@ == nice_duration_spec(ms as nat),
{
    let mut out = String::new();
    if ms > 60000 {
        push_dec_u64(&mut out, ms / 1000 / 60);
        out.append("m");
        push_dec_u64(&mut out, (ms / 1000) % 60);
        out.append("s");
        proof {
            reveal_strlit("m");
            reveal_strlit("s");
            assert(out@ =~= nice_duration_spec(ms as nat));
        }
    } else if ms > 1000 {
        push_dec_u64(&mut out, ms / 1000);
        out.append(".");
        push_digit(&mut out, ((ms % 1000) / 100) as u8);
        push_digit(&mut out, (((ms % 1000) / 10) % 10) as u8);
        out.append("s");
        proof {
            reveal_strlit(".");
            reveal_strlit("s");
            assert(out@ =~= nice_duration_spec(ms as nat));
        }
    } else if ms > 1 {
        push_dec_u64(&mut out, ms);
        out.append("ms");
        proof {
            reveal_strlit("ms");
            assert(out@ =~= nice_duration_spec(ms as nat));
        }
    } else {
        push_dec_u64(&mut out, ms);
        out.append("\u{b5}s");
        proof {
            reveal_strlit("\u{b5}s");
            assert(out@ =~= nice_duration_spec(ms as nat));
        }
    }
    out
}

/// The duration segment's content: a leading space, the rendered duration,
/// the clock icon.
pub open spec fn duration_content(ms: nat, icon: Seq<char>) -> Seq<char> {
    seq![' '] + nice_duration_spec(ms) + icon
}

/// Appends one unpadded duration segment.
pub fn append_duration_segment(powerline: &mut Powerline, ms: u64, icon: &str, fg: Color, bg: Color)
    requires
        old(powerline).wf(),
    ensures
        final(powerline).wf(),
        final(powerline).direction == old(powerline).direction,
        final(powerline).shell == old(powerline).shell,
        final(powerline).separator == old(powerline).separator,
        final(powerline).seg_log@ == old(powerline).seg_log@.push(
            (SegRec {
                content: duration_content(ms as nat, icon@),
                style: simple_style(fg, bg),
                padded: false,
                dir: old(powerline).direction,
            }),
        ),
{
    let mut content = String::new();
    content.append(" ");
    let rendered = nice_duration(ms);
    content.append(rendered.as_str());
    content.append(icon);
    proof {
        reveal_strlit(" ");
        assert(content@ =~= duration_content(ms as nat, icon@));
    }
    powerline.add_short_segment(content.as_str(), Style::simple(fg, bg));
}

impl<S: LastCmdDurationScheme> Module for LastCmdDuration<S> {
    fn append_segments(&mut self, powerline: &mut Powerline)
        ensures
            (old(self).cmd_duration is None || old(self).cmd_duration.unwrap() <= old(
                self,
            ).min_display_time) ==> *final(powerline) == *old(powerline),
            (old(self).cmd_duration is Some && old(self).cmd_duration.unwrap() > old(
                self,
            ).min_display_time) ==> exists|st: Style, icon: Seq<char>|
                final(powerline).seg_log@ == old(powerline).seg_log@.push(
                    (SegRec {
                        content: duration_content(old(self).cmd_duration.unwrap() as nat, icon),
                        style: st,
                        padded: false,
                        dir: old(powerline).direction,
                    }),
                ),
    {
        match self.cmd_duration {
            Some(ms) => {
                if ms > self.min_display_time {
                    let icon = S::time_icon();
                    let fg = S::time_fg();
                    let bg = S::time_bg();
                    append_duration_segment(powerline, ms, icon, fg, bg);
                    proof {
                        assert(powerline.seg_log@ == old(powerline).seg_log@.push(
                            (SegRec {
                                content: duration_content(ms as nat, icon@),
                                style: simple_style(fg, bg),
                                padded: false,
                                dir: old(powerline).direction,
                            }),
                        ));
                    }
                }
            },
            None => {},
        }
    }
}

} // verus!
