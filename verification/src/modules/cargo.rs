//! A producer that appends a crate icon when the working directory holds a
//! package manifest.

use vstd::prelude::*;

use core::marker::PhantomData;

use crate::colors::Color;
use crate::modules::Module;
use crate::powerline::{Powerline, SegRec, Style};
use crate::themes::DefaultColors;

verus! {

pub struct Cargo<S> {
    pub manifest_found: bool,
    pub scheme: PhantomData<S>,
}

pub trait CargoScheme: DefaultColors {
    fn cargo_fg() -> Color {
        Self::default_fg()
    }

    fn cargo_bg() -> Color {
        Self::default_bg()
    }

    fn icon() -> &'static str {
        "\u{e68b}"
    }
}

impl<S: CargoScheme> Cargo<S> {
    /// A producer that has not seen a manifest; it appends nothing.
    pub fn new() -> (r: Cargo<S>)
        ensures
            !r.manifest_found,
    {
        Cargo { manifest_found: false, scheme: PhantomData }
    }

    /// A producer with the manifest probe's outcome.
    pub fn with_manifest(manifest_found: bool) -> (r: Cargo<S>)
        ensures
            r.manifest_found == manifest_found,
    {
        Cargo { manifest_found, scheme: PhantomData }
    }
}

impl<S: CargoScheme> Module for Cargo<S> {
    fn append_segments(&mut self, powerline: &mut Powerline)
        ensures
            !old(self).manifest_found ==> *final(powerline) == *old(powerline),
            old(self).manifest_found ==> exists|st: Style, icon: Seq<char>|
                final(powerline).seg_log@ == old(powerline).seg_log@.push(
                    (SegRec { content: icon, style: st, padded: true, dir: old(
                        powerline,
                    ).direction }),
                ),
    {
        if self.manifest_found {
            let style = Style::simple(S::cargo_fg(), S::cargo_bg());
            let icon = S::icon();
            powerline.add_segment(icon, style);
            proof {
                assert(powerline.seg_log@ == old(powerline).seg_log@.push(
                    (SegRec {
                        content: icon@,
                        style: style,
                        padded: true,
                        dir: old(powerline).direction,
                    }),
                ));
            }
        }
    }
}

} // verus!
