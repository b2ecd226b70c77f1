//! A producer that appends the machine's hostname.

use vstd::prelude::*;

use core::marker::PhantomData;

use crate::colors::Color;
use crate::modules::Module;
use crate::powerline::{simple_style, Powerline, SegRec, Style};
use crate::themes::DefaultColors;

verus! {

/// The hostname producer.  `show_on_local` shows the segment always;
/// without it the segment appears only in a remote session, as the driver
/// detected it.
pub struct Host<S: HostScheme> {
    pub show_on_local: bool,
    pub remote_session: bool,
    pub scheme: PhantomData<S>,
}

pub trait HostScheme: DefaultColors {
    fn hostname_fg() -> Color {
        Self::default_fg()
    }

    fn hostname_bg() -> Color {
        Self::default_bg()
    }
}

impl<S: HostScheme> Host<S> {
    /// A producer that always shows the hostname.
    pub fn new() -> (r: Host<S>)
        ensures
            r.show_on_local,
            !r.remote_session,
    {
        Host { show_on_local: true, remote_session: false, scheme: PhantomData }
    }

    /// A producer that shows the hostname only in a remote session.
    pub fn show_on_remote_shell() -> (r: Host<S>)
        ensures
            !r.show_on_local,
            !r.remote_session,
    {
        Host { show_on_local: false, remote_session: false, scheme: PhantomData }
    }

    /// The same producer, told whether this is a remote session.
    pub fn with_session(self, remote_session: bool) -> (r: Host<S>)
        ensures
            r.show_on_local == self.show_on_local,
            r.remote_session == remote_session,
    {
        Host { show_on_local: self.show_on_local, remote_session, scheme: PhantomData }
    }
}

/// Appends one padded hostname segment.
pub fn append_host_segment(powerline: &mut Powerline, name: &str, fg: Color, bg: Color)
    requires
        old(powerline).wf(),
    ensures
        final(powerline).wf(),
        final(powerline).direction == old(powerline).direction,
        final(powerline).shell == old(powerline).shell,
        final(powerline).separator == old(powerline).separator,
        final(powerline).seg_log@ == old(powerline).seg_log@.push(
            (SegRec {
                content: name@,
                style: simple_style(fg, bg),
                padded: true,
                dir: old(powerline).direction,
            }),
        ),
{
    powerline.add_segment(name, Style::simple(fg, bg));
}

impl<S: HostScheme> Module for Host<S> {
    fn append_segments(&mut self, powerline: &mut Powerline)
        ensures
            !(old(self).show_on_local || old(self).remote_session) ==> *final(powerline) == *old(
                powerline,
            ),
            *final(powerline) == *old(powerline) || exists|st: Style, name: Seq<char>|
                final(powerline).seg_log@ == old(powerline).seg_log@.push(
                    (SegRec { content: name, style: st, padded: true, dir: old(
                        powerline,
                    ).direction }),
                ),
    {
        if self.show_on_local || self.remote_session {
            match crate::probes::query_hostname() {
                Some(host) => {
                    let fg = S::hostname_fg();
                    let bg = S::hostname_bg();
                    append_host_segment(powerline, host.as_str(), fg, bg);
                    proof {
                        assert(powerline.seg_log@ == old(powerline).seg_log@.push(
                            (SegRec {
                                content: host@,
                                style: simple_style(fg, bg),
                                padded: true,
                                dir: old(powerline).direction,
                            }),
                        ));
                    }
                },
                None => {},
            }
        }
    }
}

} // verus!
