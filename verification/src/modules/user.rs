//! A producer that appends the current account's name, with a distinct
//! background for the superuser.

use vstd::prelude::*;

use core::marker::PhantomData;

use crate::colors::Color;
use crate::modules::Module;
use crate::powerline::{simple_style, Powerline, SegRec, Style};
use crate::themes::DefaultColors;

verus! {

/// The username producer.  `show_on_local` shows the segment always;
/// without it the segment appears only in a remote session, as the driver
/// detected it.
pub struct User<S: UserScheme> {
    pub show_on_local: bool,
    pub remote_session: bool,
    pub scheme: PhantomData<S>,
}

pub trait UserScheme: DefaultColors {
    fn username_root_bg() -> Color {
        Self::default_bg()
    }

    fn username_bg() -> Color {
        Self::default_bg()
    }

    fn username_fg() -> Color {
        Self::default_fg()
    }
}

impl<S: UserScheme> User<S> {
    /// A producer that always shows the account name.
    pub fn new() -> (r: User<S>)
        ensures
            r.show_on_local,
            !r.remote_session,
    {
        User { show_on_local: true, remote_session: false, scheme: PhantomData }
    }

    /// A producer that shows the account name only in a remote session.
    pub fn show_on_remote_shell() -> (r: User<S>)
        ensures
            !r.show_on_local,
            !r.remote_session,
    {
        User { show_on_local: false, remote_session: false, scheme: PhantomData }
    }

    /// The same producer, told whether this is a remote session.
    pub fn with_session(self, remote_session: bool) -> (r: User<S>)
        ensures
            r.show_on_local == self.show_on_local,
            r.remote_session == remote_session,
    {
        User { show_on_local: self.show_on_local, remote_session, scheme: PhantomData }
    }
}

/// Appends one padded account-name segment; the superuser gets the root
/// background.
pub fn append_user_segment(
    powerline: &mut Powerline,
    name: &str,
    is_root: bool,
    fg: Color,
    root_bg: Color,
    user_bg: Color,
)
    requires
        old(powerline).wf(),
    ensures
        final(powerline).wf(),
        final(powerline).direction == old(powerline).direction,
        final(powerline).shell == old(powerline).shell,
        final(powerline).separator == old(powerline).separator,
        final(powerline).seg_log@ == old(powerline).seg_log@.push(
            (SegRec {
                content: name@,
                style: simple_style(
                    fg,
                    if is_root {
                        root_bg
                    } else {
                        user_bg
                    },
                ),
                padded: true,
                dir: old(powerline).direction,
            }),
        ),
{
    let bg = if is_root {
        root_bg
    } else {
        user_bg
    };
    powerline.add_segment(name, Style::simple(fg, bg));
}

impl<S: UserScheme> Module for User<S> {
    fn append_segments(&mut self, powerline: &mut Powerline)
        ensures
            !(old(self).show_on_local || old(self).remote_session) ==> *final(powerline) == *old(
                powerline,
            ),
            *final(powerline) == *old(powerline) || exists|st: Style, name: Seq<char>|
                final(powerline).seg_log@ == old(powerline).seg_log@.push(
                    (SegRec { content: name, style: st, padded: true, dir: old(
                        powerline,
                    ).direction }),
                ),
    {
        if self.show_on_local || self.remote_session {
            let uid = crate::probes::current_uid();
            match crate::probes::user_name_of(uid) {
                Some(name) => {
                    let fg = S::username_fg();
                    let root_bg = S::username_root_bg();
                    let user_bg = S::username_bg();
                    append_user_segment(powerline, name.as_str(), uid == 0, fg, root_bg, user_bg);
                    proof {
                        assert(powerline.seg_log@ == old(powerline).seg_log@.push(
                            (SegRec {
                                content: name@,
                                style: simple_style(
                                    fg,
                                    if uid == 0 {
                                        root_bg
                                    } else {
                                        user_bg
                                    },
                                ),
                                padded: true,
                                dir: old(powerline).direction,
                            }),
                        ));
                    }
                },
                None => {},
            }
        }
    }
}

} // verus!
