//! A producer that appends the running shell's name.

use vstd::prelude::*;

use core::marker::PhantomData;

use crate::colors::Color;
use crate::modules::Module;
use crate::powerline::{Powerline, SegRec, Style};
use crate::themes::DefaultColors;

verus! {

pub struct ShellName<S: ShellScheme> {
    pub name: String,
    pub scheme: PhantomData<S>,
}

pub trait ShellScheme: DefaultColors {
    fn shellname_fg() -> Color {
        Self::default_fg()
    }

    fn shellname_bg() -> Color {
        Self::default_bg()
    }
}

impl<S: ShellScheme> ShellName<S> {
    pub fn new(name: String) -> (r: ShellName<S>)
        ensures
            r.name_view() == name@,
    {
        ShellName { name, scheme: PhantomData }
    }

    pub open spec fn name_view(self) -> Seq<char> {
        self.name@
    }
}

impl<S: ShellScheme> Module for ShellName<S> {
    fn append_segments(&mut self, powerline: &mut Powerline)
        ensures
            exists|st: Style|
                final(powerline).seg_log@ == old(powerline).seg_log@.push(
                    (SegRec {
                        content: old(self).name_view(),
                        style: st,
                        padded: false,
                        dir: old(powerline).direction,
                    }),
                ),
    {
        let style = Style::simple(S::default_fg(), S::shellname_bg());
        powerline.add_short_segment(self.name.as_str(), style);
        proof {
            assert(powerline.seg_log@ == old(powerline).seg_log@.push(
                (SegRec {
                    content: old(self).name_view(),
                    style: style,
                    padded: false,
                    dir: old(powerline).direction,
                }),
            ));
        }
    }
}

} // verus!
