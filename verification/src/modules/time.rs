//! A producer that appends the current local time, rendered with a
//! configurable strftime format.

use vstd::prelude::*;

use core::marker::PhantomData;

use crate::colors::Color;
use crate::modules::Module;
use crate::powerline::{simple_style, Powerline, SegRec, Style};
use crate::themes::DefaultColors;

verus! {

pub struct Time<S: TimeScheme> {
    pub time_format: String,
    pub scheme: PhantomData<S>,
}

pub trait TimeScheme: DefaultColors {
    fn time_bg() -> Color {
        Self::default_bg()
    }

    fn time_fg() -> Color {
        Self::default_fg()
    }
}

impl<S: TimeScheme> Time<S> {
    /// A producer with the default hour-minute-second format.
    pub fn new() -> (r: Time<S>)
        ensures
            r.time_format@ == "%H:%M:%S"@,
    {
        Time { time_format: "%H:%M:%S".to_owned(), scheme: PhantomData }
    }

    /// A producer with the given strftime format.
    pub fn with_time_format(time_format: String) -> (r: Time<S>)
        ensures
            r.time_format == time_format,
    {
        Time { time_format, scheme: PhantomData }
    }
}

/// Appends one padded clock segment.
pub fn append_time_segment(powerline: &mut Powerline, now: &str, fg: Color, bg: Color)
    requires
        old(powerline).wf(),
    ensures
        final(powerline).wf(),
        final(powerline).direction == old(powerline).direction,
        final(powerline).shell == old(powerline).shell,
        final(powerline).separator == old(powerline).separator,
        final(powerline).seg_log@ == old(powerline).seg_log@.push(
            (SegRec {
                content: now@,
                style: simple_style(fg, bg),
                padded: true,
                dir: old(powerline).direction,
            }),
        ),
{
    powerline.add_segment(now, Style::simple(fg, bg));
}

impl<S: TimeScheme> Module for Time<S> {
    fn append_segments(&mut self, powerline: &mut Powerline)
        ensures
            *final(powerline) == *old(powerline) || exists|st: Style, now: Seq<char>|
                final(powerline).seg_log@ == old(powerline).seg_log@.push(
                    (SegRec { content: now, style: st, padded: true, dir: old(
                        powerline,
                    ).direction }),
                ),
    {
        match crate::probes::format_local_time(self.time_format.as_str()) {
            Some(now) => {
                let fg = S::time_fg();
                let bg = S::time_bg();
                append_time_segment(powerline, now.as_str(), fg, bg);
                proof {
                    assert(powerline.seg_log@ == old(powerline).seg_log@.push(
                        (SegRec {
                            content: now@,
                            style: simple_style(fg, bg),
                            padded: true,
                            dir: old(powerline).direction,
                        }),
                    ));
                }
            },
            None => {},
        }
    }
}

} // verus!
