//! A producer that appends the last command's exit status when it was not
//! zero.

use vstd::prelude::*;

use core::marker::PhantomData;

use crate::colors::Color;
use crate::modules::Module;
use crate::powerline::{Powerline, SegRec, Style};
use crate::text::str_eq;
use crate::themes::DefaultColors;

verus! {

pub struct ExitCode<S: ExitCodeScheme> {
    pub code: Option<String>,
    pub scheme: PhantomData<S>,
}

pub trait ExitCodeScheme: DefaultColors {
    fn exit_code_bg() -> Color {
        Self::default_bg()
    }

    fn exit_code_fg() -> Color {
        Self::default_fg()
    }
}

impl<S: ExitCodeScheme> ExitCode<S> {
    /// A producer with no status to show; it appends nothing.
    pub fn new() -> (r: ExitCode<S>)
        ensures
            r.code is None,
    {
        ExitCode { code: None, scheme: PhantomData }
    }

    /// A producer that shows the given status when it is not zero.
    pub fn with_code(code: String) -> (r: ExitCode<S>)
        ensures
            r.code == Some(code),
    {
        ExitCode { code: Some(code), scheme: PhantomData }
    }
}

impl<S: ExitCodeScheme> Module for ExitCode<S> {
    fn append_segments(&mut self, powerline: &mut Powerline)
        ensures
            (old(self).code is None || old(self).code.unwrap()@ == "0"@) ==> *final(powerline)
                == *old(powerline),
            (old(self).code is Some && old(self).code.unwrap()@ != "0"@) ==> exists|st: Style|
                final(powerline).seg_log@ == old(powerline).seg_log@.push(
                    (SegRec {
                        content: old(self).code.unwrap()@,
                        style: st,
                        padded: true,
                        dir: old(powerline).direction,
                    }),
                ),
    {
        match &self.code {
            None => {},
            Some(code) => {
                if !str_eq(code.as_str(), "0") {
                    let style = Style::simple(S::exit_code_fg(), S::exit_code_bg());
                    powerline.add_segment(code.as_str(), style);
                    proof {
                        assert(powerline.seg_log@ == old(powerline).seg_log@.push(
                            (SegRec {
                                content: old(self).code.unwrap()@,
                                style: style,
                                padded: true,
                                dir: old(powerline).direction,
                            }),
                        ));
                    }
                }
            },
        }
    }
}

} // verus!
