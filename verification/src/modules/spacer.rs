//! A producer that appends one empty segment, leaving a colored gap between
//! its neighbours.

use vstd::prelude::*;

use core::marker::PhantomData;

use crate::colors::Color;
use crate::modules::Module;
use crate::powerline::{Powerline, SegRec, Style};
use crate::themes::DefaultColors;

verus! {

/// An empty segment: padded (`large`) or not (`small`).
pub struct Spacer<S: SpacerScheme> {
    pub scheme: PhantomData<S>,
    pub large: bool,
}

pub trait SpacerScheme: DefaultColors {
    fn color_fg() -> Color {
        Self::default_fg()
    }

    fn color_bg() -> Color {
        Self::default_bg()
    }
}

impl<S: SpacerScheme> Spacer<S> {
    /// A spacer that appends a padded empty segment (two visible columns).
    pub fn large() -> (r: Spacer<S>)
        ensures
            r.is_large(),
    {
        Spacer { scheme: PhantomData, large: true }
    }

    /// A spacer that appends an unpadded empty segment (zero visible columns).
    pub fn small() -> (r: Spacer<S>)
        ensures
            !r.is_large(),
    {
        Spacer { scheme: PhantomData, large: false }
    }

    pub open spec fn is_large(self) -> bool {
        self.large
    }
}

impl<S: SpacerScheme> Module for Spacer<S> {
    fn append_segments(&mut self, powerline: &mut Powerline)
        ensures
            exists|st: Style|
                final(powerline).seg_log@ == old(powerline).seg_log@.push(
                    (SegRec {
                        content: Seq::<char>::empty(),
                        style: st,
                        padded: old(self).is_large(),
                        dir: old(powerline).direction,
                    }),
                ),
    {
        let style = Style::simple(S::color_fg(), S::color_bg());
        if self.large {
            powerline.add_segment("", style);
        } else {
            powerline.add_short_segment("", style);
        }
        proof {
            reveal_strlit("");
            assert(""@ =~= Seq::<char>::empty());
            assert(powerline.seg_log@ == old(powerline).seg_log@.push(
                (SegRec {
                    content: Seq::<char>::empty(),
                    style: style,
                    padded: old(self).is_large(),
                    dir: old(powerline).direction,
                }),
            ));
        }
    }
}

} // verus!
