//! A producer that appends the active (or wanted) node version.

use vstd::prelude::*;

use core::marker::PhantomData;

use crate::colors::Color;
use crate::modules::Module;
use crate::powerline::{simple_style, Powerline, SegRec, Style};
use crate::themes::DefaultColors;

verus! {

/// The node-version producer: the version the manager has active, and the
/// version a local `.nvmrc` file asks for, as the driver probed them.
pub struct Nvm<S> {
    pub current_version: Option<String>,
    pub nvmrc: Option<String>,
    pub scheme: PhantomData<S>,
}

pub trait NvmScheme: DefaultColors {
    fn nvm_fg() -> Color {
        Self::default_fg()
    }

    fn nvm_bg() -> Color {
        Self::default_bg()
    }

    fn nvm_inactive_bg() -> Color {
        Self::default_bg()
    }

    fn icon() -> &'static str {
        "\u{ed0d}"
    }
}

impl<S: NvmScheme> Nvm<S> {
    /// A producer with nothing probed; it appends nothing.
    pub fn new() -> (r: Nvm<S>)
        ensures
            r.current_version is None,
            r.nvmrc is None,
    {
        Nvm { current_version: None, nvmrc: None, scheme: PhantomData }
    }

    /// A producer with the probes' outcomes.
    pub fn with_versions(current_version: Option<String>, nvmrc: Option<String>) -> (r: Nvm<S>)
        ensures
            r.current_version == current_version,
            r.nvmrc == nvmrc,
    {
        Nvm { current_version, nvmrc, scheme: PhantomData }
    }
}

/// An icon-and-text segment's content: the icon, a space, the text.
pub open spec fn icon_content(icon: Seq<char>, text: Seq<char>) -> Seq<char> {
    icon + seq![' '] + text
}

/// Appends one padded segment of an icon, a space, and a text.
pub fn append_icon_segment(powerline: &mut Powerline, icon: &str, text: &str, fg: Color, bg: Color)
    requires
        old(powerline).wf(),
    ensures
        final(powerline).wf(),
        final(powerline).direction == old(powerline).direction,
        final(powerline).shell == old(powerline).shell,
        final(powerline).separator == old(powerline).separator,
        final(powerline).seg_log@ == old(powerline).seg_log@.push(
            (SegRec {
                content: icon_content(icon@, text@),
                style: simple_style(fg, bg),
                padded: true,
                dir: old(powerline).direction,
            }),
        ),
{
    let mut content = icon.to_owned();
    content.append(" ");
    content.append(text);
    proof {
        reveal_strlit(" ");
        assert(content@ =~= icon_content(icon@, text@));
    }
    powerline.add_segment(content.as_str(), Style::simple(fg, bg));
}

impl<S: NvmScheme> Module for Nvm<S> {
    fn append_segments(&mut self, powerline: &mut Powerline)
        ensures
            (old(self).current_version is None && old(self).nvmrc is None) ==> *final(powerline)
                == *old(powerline),
            old(self).current_version is Some ==> exists|st: Style, icon: Seq<char>|
                final(powerline).seg_log@ == old(powerline).seg_log@.push(
                    (SegRec {
                        content: icon_content(icon, old(self).current_version.unwrap()@),
                        style: st,
                        padded: true,
                        dir: old(powerline).direction,
                    }),
                ),
            (old(self).current_version is None && old(self).nvmrc is Some) ==> exists|
                st: Style,
                icon: Seq<char>,
            |
                final(powerline).seg_log@ == old(powerline).seg_log@.push(
                    (SegRec {
                        content: icon_content(icon, old(self).nvmrc.unwrap()@),
                        style: st,
                        padded: true,
                        dir: old(powerline).direction,
                    }),
                ),
    {
        match (&self.current_version, &self.nvmrc) {
            (Some(version), _) => {
                let icon = S::icon();
                let fg = S::nvm_fg();
                let bg = S::nvm_bg();
                append_icon_segment(powerline, icon, version.as_str(), fg, bg);
                proof {
                    assert(powerline.seg_log@ == old(powerline).seg_log@.push(
                        (SegRec {
                            content: icon_content(icon@, old(self).current_version.unwrap()@),
                            style: simple_style(fg, bg),
                            padded: true,
                            dir: old(powerline).direction,
                        }),
                    ));
                }
            },
            (None, Some(nvmrc)) => {
                let icon = S::icon();
                let fg = S::nvm_fg();
                let bg = S::nvm_inactive_bg();
                append_icon_segment(powerline, icon, nvmrc.as_str(), fg, bg);
                proof {
                    assert(powerline.seg_log@ == old(powerline).seg_log@.push(
                        (SegRec {
                            content: icon_content(icon@, old(self).nvmrc.unwrap()@),
                            style: simple_style(fg, bg),
                            padded: true,
                            dir: old(powerline).direction,
                        }),
                    ));
                }
            },
            _ => {},
        }
    }
}

} // verus!
