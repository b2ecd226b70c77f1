//! A producer that appends a lock symbol when the working directory is not
//! writable.

use vstd::prelude::*;

use core::marker::PhantomData;

use crate::colors::Color;
use crate::modules::Module;
use crate::powerline::{Powerline, SegRec, Style};
use crate::themes::DefaultColors;

verus! {

pub struct ReadOnly<S> {
    pub readonly: bool,
    pub scheme: PhantomData<S>,
}

pub trait ReadOnlyScheme: DefaultColors {
    fn readonly_fg() -> Color {
        Self::default_fg()
    }

    fn readonly_bg() -> Color {
        Self::default_bg()
    }

    fn readonly_symbol() -> &'static str {
        "\u{e0a2}"
    }
}

impl<S: ReadOnlyScheme> ReadOnly<S> {
    /// A producer for a writable directory; it appends nothing.
    pub fn new() -> (r: ReadOnly<S>)
        ensures
            !r.readonly,
    {
        ReadOnly { readonly: false, scheme: PhantomData }
    }

    /// A producer with the writability probe's outcome.
    pub fn with_status(readonly: bool) -> (r: ReadOnly<S>)
        ensures
            r.readonly == readonly,
    {
        ReadOnly { readonly, scheme: PhantomData }
    }
}

impl<S: ReadOnlyScheme> Module for ReadOnly<S> {
    fn append_segments(&mut self, powerline: &mut Powerline)
        ensures
            !old(self).readonly ==> *final(powerline) == *old(powerline),
            old(self).readonly ==> exists|st: Style, sym: Seq<char>|
                final(powerline).seg_log@ == old(powerline).seg_log@.push(
                    (SegRec { content: sym, style: st, padded: true, dir: old(
                        powerline,
                    ).direction }),
                ),
    {
        if self.readonly {
            let style = Style::simple(S::readonly_fg(), S::readonly_bg());
            let sym = S::readonly_symbol();
            powerline.add_segment(sym, style);
            proof {
                assert(powerline.seg_log@ == old(powerline).seg_log@.push(
                    (SegRec {
                        content: sym@,
                        style: style,
                        padded: true,
                        dir: old(powerline).direction,
                    }),
                ));
            }
        }
    }
}

} // verus!
