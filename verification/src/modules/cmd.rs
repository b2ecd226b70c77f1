//! A producer that appends the shell's prompt symbol, or the last command's
//! failing exit status.

use vstd::prelude::*;

use core::marker::PhantomData;

use crate::colors::Color;
use crate::modules::Module;
use crate::powerline::{simple_style, Powerline, SegRec, Style};
use crate::text::str_eq;
use crate::themes::DefaultColors;

verus! {

pub struct Cmd<S: CmdScheme> {
    pub status: String,
    pub scheme: PhantomData<S>,
}

pub trait CmdScheme: DefaultColors {
    fn cmd_passed_fg() -> Color {
        Self::default_fg()
    }

    fn cmd_passed_bg() -> Color {
        Self::default_bg()
    }

    fn cmd_failed_bg() -> Color {
        Self::default_bg()
    }

    fn cmd_failed_fg() -> Color {
        Self::default_fg()
    }

    fn cmd_root_symbol() -> &'static str {
        "#"
    }

    fn cmd_user_symbol() -> &'static str {
        "$"
    }
}

impl<S: CmdScheme> Cmd<S> {
    pub fn new(status: &str) -> (r: Cmd<S>)
        ensures
            r.status@ == status@,
    {
        Cmd { status: status.to_owned(), scheme: PhantomData }
    }
}

/// What the command segment shows: the prompt symbol for a clean exit, the
/// status text itself otherwise.
pub open spec fn cmd_content(
    status: Seq<char>,
    is_root: bool,
    root_sym: Seq<char>,
    user_sym: Seq<char>,
) -> Seq<char> {
    if status == "0"@ {
        if is_root {
            root_sym
        } else {
            user_sym
        }
    } else {
        status
    }
}

/// The command segment's style: the passed pair for a clean exit, the
/// failed pair otherwise.
pub open spec fn cmd_style(
    status: Seq<char>,
    passed_fg: Color,
    passed_bg: Color,
    failed_fg: Color,
    failed_bg: Color,
) -> Style {
    if status == "0"@ {
        simple_style(passed_fg, passed_bg)
    } else {
        simple_style(failed_fg, failed_bg)
    }
}

/// Appends the command segment for a given status and user.
pub fn append_cmd_segment(
    powerline: &mut Powerline,
    status: &str,
    is_root: bool,
    root_symbol: &str,
    user_symbol: &str,
    passed_fg: Color,
    passed_bg: Color,
    failed_fg: Color,
    failed_bg: Color,
)
    requires
        old(powerline).wf(),
    ensures
        final(powerline).wf(),
        final(powerline).direction == old(powerline).direction,
        final(powerline).shell == old(powerline).shell,
        final(powerline).separator == old(powerline).separator,
        final(powerline).seg_log@ == old(powerline).seg_log@.push(
            (SegRec {
                content: cmd_content(status@, is_root, root_symbol@, user_symbol@),
                style: cmd_style(status@, passed_fg, passed_bg, failed_fg, failed_bg),
                padded: false,
                dir: old(powerline).direction,
            }),
        ),
{
    if str_eq(status, "0") {
        let sym = if is_root {
            root_symbol
        } else {
            user_symbol
        };
        powerline.add_short_segment(sym, Style::simple(passed_fg, passed_bg));
    } else {
        powerline.add_short_segment(status, Style::simple(failed_fg, failed_bg));
    }
}

impl<S: CmdScheme> Module for Cmd<S> {
    fn append_segments(&mut self, powerline: &mut Powerline)
        ensures
            final(powerline).seg_log@.len() == old(powerline).seg_log@.len() + 1,
            final(powerline).seg_log@.drop_last() == old(powerline).seg_log@,
            final(powerline).seg_log@.last().padded == false,
            final(powerline).seg_log@.last().dir == old(powerline).direction,
            old(self).status@ != "0"@ ==> final(powerline).seg_log@.last().content == old(
                self,
            ).status@,
    {
        let uid = crate::probes::current_uid();
        append_cmd_segment(
            powerline,
            self.status.as_str(),
            uid == 0,
            S::cmd_root_symbol(),
            S::cmd_user_symbol(),
            S::cmd_passed_fg(),
            S::cmd_passed_bg(),
            S::cmd_failed_fg(),
            S::cmd_failed_bg(),
        );
        proof {
            assert(powerline.seg_log@.drop_last() =~= old(powerline).seg_log@);
        }
    }
}

} // verus!
