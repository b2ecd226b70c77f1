//! A compact working-directory producer: the same component and truncation
//! rules as the main one, but with a fixed rainbow of backgrounds and a
//! chevron pinned to every segment.

use vstd::prelude::*;

use core::marker::PhantomData;

use crate::colors::Color;
use crate::modules::cwd::cwd_piece_list;
use crate::modules::Module;
use crate::powerline::{
    custom_style, simple_style, Direction, Powerline, SegRec, Separator, Style,
};
use crate::text::{opt_view, str_eq, str_views};

verus! {

/// The compact working-directory producer: its truncation options and the
/// probed paths.
pub struct ShortCwd<S: ShortCwdScheme> {
    pub max_length: usize,
    pub wanted_seg_num: usize,
    pub resolve_symlinks: bool,
    pub cwd: Option<String>,
    pub home: Option<String>,
    pub scheme: PhantomData<S>,
}

pub trait ShortCwdScheme {
    fn path_fg() -> Color;

    fn path_bg() -> Color;

    fn home_fg() -> Color;

    fn home_bg() -> Color;

    fn separator_fg() -> Color;
}

impl<S: ShortCwdScheme> ShortCwd<S> {
    /// A producer with no probed path; it appends nothing.
    pub fn new(max_length: usize, wanted_seg_num: usize, resolve_symlinks: bool) -> (r: ShortCwd<
        S,
    >)
        ensures
            r.max_length == max_length,
            r.wanted_seg_num == wanted_seg_num,
            r.resolve_symlinks == resolve_symlinks,
            r.cwd is None,
            r.home is None,
    {
        ShortCwd {
            max_length,
            wanted_seg_num,
            resolve_symlinks,
            cwd: None,
            home: None,
            scheme: PhantomData,
        }
    }

    /// The same producer, told the working directory and the home
    /// directory.
    pub fn with_paths(self, cwd: String, home: Option<String>) -> (r: ShortCwd<S>)
        ensures
            r.max_length == self.max_length,
            r.wanted_seg_num == self.wanted_seg_num,
            r.resolve_symlinks == self.resolve_symlinks,
            r.cwd == Some(cwd),
            r.home == home,
    {
        ShortCwd {
            max_length: self.max_length,
            wanted_seg_num: self.wanted_seg_num,
            resolve_symlinks: self.resolve_symlinks,
            cwd: Some(cwd),
            home,
            scheme: PhantomData,
        }
    }
}

/// The fixed cycle of backgrounds the compact producer paints with.
pub open spec fn rainbow_cycle() -> Seq<Color> {
    seq![Color(1), Color(130), Color(3), Color(2), Color(4), Color(55)]
}

/// The segments of the compact working-directory producer: a single padded
/// slash for the root; otherwise one unpadded segment per piece, with a
/// leading space, the cycle's backgrounds, and a chevron pinned to each.
pub open spec fn short_cwd_segments(
    cwd: Seq<char>,
    home: Option<Seq<char>>,
    max_length: nat,
    wanted: nat,
    path_fg: Color,
    path_bg: Color,
    dir: Direction,
) -> Seq<SegRec> {
    if cwd == "/"@ {
        seq![
            SegRec { content: "/"@, style: simple_style(path_fg, path_bg), padded: true, dir },
        ]
    } else {
        let pieces = crate::modules::cwd::cwd_pieces(cwd, home, max_length, wanted);
        Seq::new(
            pieces.len(),
            |i: int|
                SegRec {
                    content: seq![' '] + pieces[i],
                    style: custom_style(
                        path_fg,
                        rainbow_cycle()[i % rainbow_cycle().len() as int],
                        Separator::Chevron,
                    ),
                    padded: false,
                    dir,
                },
        )
    }
}

/// Appends the compact working-directory segments.
pub fn append_short_cwd_segments(
    powerline: &mut Powerline,
    cwd: &str,
    home: Option<&str>,
    max_length: usize,
    wanted_seg_num: usize,
    path_fg: Color,
    path_bg: Color,
)
    requires
        old(powerline).wf(),
    ensures
        final(powerline).wf(),
        final(powerline).direction == old(powerline).direction,
        final(powerline).shell == old(powerline).shell,
        final(powerline).separator == old(powerline).separator,
        final(powerline).seg_log@ == old(powerline).seg_log@ + short_cwd_segments(
            cwd@,
            opt_view(home),
            max_length as nat,
            wanted_seg_num as nat,
            path_fg,
            path_bg,
            old(powerline).direction,
        ),
{
    let ghost segs = short_cwd_segments(
        cwd@,
        opt_view(home),
        max_length as nat,
        wanted_seg_num as nat,
        path_fg,
        path_bg,
        old(powerline).direction,
    );
    if str_eq(cwd, "/") {
        powerline.add_segment("/", Style::simple(path_fg, path_bg));
        proof {
            assert(powerline.seg_log@ =~= old(powerline).seg_log@ + segs);
        }
        return ;
    }
    let pieces = cwd_piece_list(cwd, home, max_length, wanted_seg_num);
    let ghost pieces_spec = crate::modules::cwd::cwd_pieces(
        cwd@,
        opt_view(home),
        max_length as nat,
        wanted_seg_num as nat,
    );
    let mut cycle: Vec<Color> = Vec::new();
    cycle.push(Color(1));
    cycle.push(Color(130));
    cycle.push(Color(3));
    cycle.push(Color(2));
    cycle.push(Color(4));
    cycle.push(Color(55));
    proof {
        assert(cycle@ =~= rainbow_cycle());
    }
    let mut i: usize = 0;
    proof {
        assert(powerline.seg_log@ =~= old(powerline).seg_log@ + segs.take(0));
    }
    while i < pieces.len()
        invariant
            powerline.wf(),
            i <= pieces@.len(),
            str_views(pieces@) == pieces_spec,
            cwd@ != "/"@,
            cycle@ == rainbow_cycle(),
            segs == short_cwd_segments(
                cwd@,
                opt_view(home),
                max_length as nat,
                wanted_seg_num as nat,
                path_fg,
                path_bg,
                old(powerline).direction,
            ),
            pieces_spec == crate::modules::cwd::cwd_pieces(
                cwd@,
                opt_view(home),
                max_length as nat,
                wanted_seg_num as nat,
            ),
            powerline.direction == old(powerline).direction,
            powerline.shell == old(powerline).shell,
            powerline.separator == old(powerline).separator,
            powerline.seg_log@ == old(powerline).seg_log@ + segs.take(i as int),
        decreases pieces@.len() - i,
    {
        let mut content = String::new();
        content.append(" ");
        content.append(pieces[i].as_str());
        let bg = cycle[i % cycle.len()];
        powerline.add_short_segment(
            content.as_str(),
            Style::custom(path_fg, bg, Separator::Chevron),
        );
        proof {
            reveal_strlit(" ");
            assert(content@ =~= seq![' '] + pieces_spec[i as int]);
            assert(segs[i as int] == (SegRec {
                content: content@,
                style: custom_style(
                    path_fg,
                    rainbow_cycle()[i as int % rainbow_cycle().len() as int],
                    Separator::Chevron,
                ),
                padded: false,
                dir: old(powerline).direction,
            }));
            assert(segs.take(i + 1).drop_last() =~= segs.take(i as int));
            assert(powerline.seg_log@ =~= old(powerline).seg_log@ + segs.take(i + 1));
        }
        i = i + 1;
    }
    proof {
        assert(segs.take(pieces@.len() as int) =~= segs);
    }
}

impl<S: ShortCwdScheme> Module for ShortCwd<S> {
    fn append_segments(&mut self, powerline: &mut Powerline)
        ensures
            old(self).cwd is None ==> *final(powerline) == *old(powerline),
    {
        match &self.cwd {
            None => {},
            Some(cwd) => {
                let fg = S::path_fg();
                let bg = S::path_bg();
                match &self.home {
                    Some(home) => {
                        append_short_cwd_segments(
                            powerline,
                            cwd.as_str(),
                            Some(home.as_str()),
                            self.max_length,
                            self.wanted_seg_num,
                            fg,
                            bg,
                        );
                    },
                    None => {
                        append_short_cwd_segments(
                            powerline,
                            cwd.as_str(),
                            None,
                            self.max_length,
                            self.wanted_seg_num,
                            fg,
                            bg,
                        );
                    },
                }
            },
        }
    }
}

} // verus!
