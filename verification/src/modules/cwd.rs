//! A producer that appends the working directory, one segment per path
//! component with cycling backgrounds, the home directory abbreviated to a
//! tilde, and long paths truncated around an ellipsis.

use vstd::prelude::*;

use core::marker::PhantomData;

use crate::colors::Color;
use crate::modules::Module;
use crate::powerline::{simple_style, Direction, Powerline, SegRec, Style};
use crate::text::{is_prefix, opt_view, spec_split, split_on_char, str_eq, str_starts_with, str_views};
use crate::themes::DefaultColors;

verus! {

/// The working-directory producer: its truncation options, and the paths
/// the driver probed.
pub struct Cwd<S: CwdScheme> {
    pub max_length: usize,
    pub wanted_seg_num: usize,
    pub resolve_symlinks: bool,
    pub cwd: Option<String>,
    pub home: Option<String>,
    pub scheme: PhantomData<S>,
}

pub trait CwdScheme: DefaultColors {
    fn path_fg() -> Color {
        Self::default_fg()
    }

    fn path_bg_colors() -> (r: Vec<Color>)
        ensures
            r@.len() > 0,
    ;
}

impl<S: CwdScheme> Cwd<S> {
    /// A producer with no probed path; it appends nothing.
    pub fn new(max_length: usize, wanted_seg_num: usize, resolve_symlinks: bool) -> (r: Cwd<S>)
        ensures
            r.max_length == max_length,
            r.wanted_seg_num == wanted_seg_num,
            r.resolve_symlinks == resolve_symlinks,
            r.cwd is None,
            r.home is None,
    {
        Cwd {
            max_length,
            wanted_seg_num,
            resolve_symlinks,
            cwd: None,
            home: None,
            scheme: PhantomData,
        }
    }

    /// The same producer, told the working directory and the home
    /// directory.
    pub fn with_paths(self, cwd: String, home: Option<String>) -> (r: Cwd<S>)
        ensures
            r.max_length == self.max_length,
            r.wanted_seg_num == self.wanted_seg_num,
            r.resolve_symlinks == self.resolve_symlinks,
            r.cwd == Some(cwd),
            r.home == home,
    {
        Cwd {
            max_length: self.max_length,
            wanted_seg_num: self.wanted_seg_num,
            resolve_symlinks: self.resolve_symlinks,
            cwd: Some(cwd),
            home,
            scheme: PhantomData,
        }
    }
}

/// The texts of the path segments shown for a working directory: a single
/// tilde for the root, a tilde followed by the components below home when
/// the path lies under it, and otherwise the components after the leading
/// separator; a path longer than `max_length` with more than `wanted`
/// components keeps the first half and last half of `wanted` components
/// around an ellipsis.
pub open spec fn cwd_pieces(
    cwd: Seq<char>,
    home: Option<Seq<char>>,
    max_length: nat,
    wanted: nat,
) -> Seq<Seq<char>> {
    if cwd == "/"@ {
        seq!["~"@]
    } else {
        let tilde = home is Some && is_prefix(cwd, home.unwrap());
        let rest = if tilde {
            cwd.skip(home.unwrap().len() as int)
        } else {
            cwd
        };
        let parts = spec_split(rest, '/');
        let depth = (parts.len() - 1) as nat;
        let tail = if rest.len() > max_length && depth > wanted {
            let left = wanted / 2;
            let right = (wanted - left) as nat;
            parts.subrange(1, (left + 1) as int) + seq!["..."@] + parts.skip((depth - right + 1) as int)
        } else {
            parts.skip(1)
        };
        (if tilde {
            seq!["~"@]
        } else {
            Seq::<Seq<char>>::empty()
        }) + tail
    }
}

/// The segments shown for a working directory: each piece with one leading
/// space, unpadded, with the foreground color and the backgrounds cycling
/// through the theme's list.
pub open spec fn cwd_segments(
    pieces: Seq<Seq<char>>,
    path_fg: Color,
    bgs: Seq<Color>,
    dir: Direction,
) -> Seq<SegRec> {
    Seq::new(
        pieces.len(),
        |i: int|
            SegRec {
                content: seq![' '] + pieces[i],
                style: simple_style(path_fg, bgs[i % bgs.len() as int]),
                padded: false,
                dir,
            },
    )
}

/// Computes the path pieces for a working directory.
pub(crate) fn cwd_piece_list(cwd: &str, home: Option<&str>, max_length: usize, wanted_seg_num: usize) -> (r:
    Vec<String>)
    ensures
        str_views(r@) == cwd_pieces(cwd@, opt_view(home), max_length as nat, wanted_seg_num as nat),
{
    let ghost pieces_spec = cwd_pieces(
        cwd@,
        opt_view(home),
        max_length as nat,
        wanted_seg_num as nat,
    );
    let mut pieces: Vec<String> = Vec::new();
    if str_eq(cwd, "/") {
        pieces.push("~".to_owned());
        proof {
            assert(str_views(pieces@) =~= pieces_spec);
        }
        return pieces;
    }
    let mut rest: &str = cwd;
    let mut has_tilde = false;
    match home {
        Some(h) => {
            if str_starts_with(cwd, h) {
                has_tilde = true;
                let hl = h.unicode_len();
                let cl = cwd.unicode_len();
                rest = cwd.substring_char(hl, cl);
                proof {
                    assert(rest@ =~= cwd@.skip(h@.len() as int));
                }
                pieces.push("~".to_owned());
            }
        },
        None => {},
    }
    let ghost tilde_part = if has_tilde {
        seq!["~"@]
    } else {
        Seq::<Seq<char>>::empty()
    };
    proof {
        assert(str_views(pieces@) =~= tilde_part);
    }
    let parts = split_on_char(rest, '/');
    let ghost parts_views = str_views(parts@);
    proof {
        assert(parts@.len() == parts_views.len());
        assert(parts_views.len() >= 1);
    }
    let depth = parts.len() - 1;
    let restlen = rest.unicode_len();
    if restlen > max_length && depth > wanted_seg_num {
        let left = wanted_seg_num / 2;
        let right = wanted_seg_num - left;
        let mut j: usize = 1;
        while j < left + 1
            invariant
                1 <= j <= left + 1,
                left < usize::MAX,
                left + 1 < parts@.len(),
                parts@.len() <= usize::MAX,
                parts_views == str_views(parts@),
                str_views(pieces@) == tilde_part + parts_views.subrange(1, j as int),
            decreases left + 1 - j,
        {
            let ghost prev = pieces@;
            pieces.push(parts[j].clone());
            proof {
                assert(str_views(prev.push(pieces@.last())) =~= str_views(prev).push(
                    parts_views[j as int],
                ));
                assert(str_views(pieces@) =~= tilde_part + parts_views.subrange(1, j + 1));
            }
            j = j + 1;
        }
        pieces.push("...".to_owned());
        proof {
            assert(str_views(pieces@) =~= tilde_part + parts_views.subrange(1, (left + 1) as int) + seq![
                "..."@,
            ]);
        }
        let mut j2: usize = depth - right + 1;
        let ghost start2 = j2;
        while j2 < parts.len()
            invariant
                start2 <= j2 <= parts@.len(),
                parts@.len() <= usize::MAX,
                parts_views == str_views(parts@),
                str_views(pieces@) == tilde_part + parts_views.subrange(1, (left + 1) as int)
                    + seq!["..."@] + parts_views.subrange(start2 as int, j2 as int),
            decreases parts@.len() - j2,
        {
            let ghost prev = pieces@;
            pieces.push(parts[j2].clone());
            proof {
                assert(str_views(prev.push(pieces@.last())) =~= str_views(prev).push(
                    parts_views[j2 as int],
                ));
                assert(str_views(pieces@) =~= tilde_part + parts_views.subrange(
                    1,
                    (left + 1) as int,
                ) + seq!["..."@] + parts_views.subrange(start2 as int, j2 + 1));
            }
            j2 = j2 + 1;
        }
        proof {
            assert(parts_views.subrange(start2 as int, parts_views.len() as int)
                =~= parts_views.skip(start2 as int));
            assert(str_views(pieces@) =~= pieces_spec);
        }
    } else {
        let mut j: usize = 1;
        while j < parts.len()
            invariant
                1 <= j <= parts@.len(),
                parts@.len() <= usize::MAX,
                parts_views == str_views(parts@),
                str_views(pieces@) == tilde_part + parts_views.subrange(1, j as int),
            decreases parts@.len() - j,
        {
            let ghost prev = pieces@;
            pieces.push(parts[j].clone());
            proof {
                assert(str_views(prev.push(pieces@.last())) =~= str_views(prev).push(
                    parts_views[j as int],
                ));
                assert(str_views(pieces@) =~= tilde_part + parts_views.subrange(1, j + 1));
            }
            j = j + 1;
        }
        proof {
            assert(parts_views.subrange(1, parts_views.len() as int) =~= parts_views.skip(1));
            assert(str_views(pieces@) =~= pieces_spec);
        }
    }
    pieces
}

/// Appends the working-directory segments.
pub fn append_cwd_segments(
    powerline: &mut Powerline,
    cwd: &str,
    home: Option<&str>,
    max_length: usize,
    wanted_seg_num: usize,
    path_fg: Color,
    bgs: &Vec<Color>,
)
    requires
        old(powerline).wf(),
        bgs@.len() > 0,
    ensures
        final(powerline).wf(),
        final(powerline).direction == old(powerline).direction,
        final(powerline).shell == old(powerline).shell,
        final(powerline).separator == old(powerline).separator,
        final(powerline).seg_log@ == old(powerline).seg_log@ + cwd_segments(
            cwd_pieces(cwd@, opt_view(home), max_length as nat, wanted_seg_num as nat),
            path_fg,
            bgs@,
            old(powerline).direction,
        ),
{
    let pieces = cwd_piece_list(cwd, home, max_length, wanted_seg_num);
    let ghost pieces_spec = cwd_pieces(
        cwd@,
        opt_view(home),
        max_length as nat,
        wanted_seg_num as nat,
    );
    let ghost segs = cwd_segments(pieces_spec, path_fg, bgs@, old(powerline).direction);
    let mut i: usize = 0;
    proof {
        assert(powerline.seg_log@ =~= old(powerline).seg_log@ + segs.take(0));
    }
    while i < pieces.len()
        invariant
            powerline.wf(),
            i <= pieces@.len(),
            str_views(pieces@) == pieces_spec,
            segs == cwd_segments(pieces_spec, path_fg, bgs@, old(powerline).direction),
            bgs@.len() > 0,
            powerline.direction == old(powerline).direction,
            powerline.shell == old(powerline).shell,
            powerline.separator == old(powerline).separator,
            powerline.seg_log@ == old(powerline).seg_log@ + segs.take(i as int),
        decreases pieces@.len() - i,
    {
        let mut content = String::new();
        content.append(" ");
        content.append(pieces[i].as_str());
        let bg = bgs[i % bgs.len()];
        powerline.add_short_segment(content.as_str(), Style::simple(path_fg, bg));
        proof {
            reveal_strlit(" ");
            assert(content@ =~= seq![' '] + pieces_spec[i as int]);
            assert(segs[i as int] == (SegRec {
                content: content@,
                style: simple_style(path_fg, bgs@[i as int % bgs@.len() as int]),
                padded: false,
                dir: old(powerline).direction,
            }));
            assert(segs.take(i + 1).drop_last() =~= segs.take(i as int));
            assert(powerline.seg_log@ =~= old(powerline).seg_log@ + segs.take(i + 1));
        }
        i = i + 1;
    }
    proof {
        assert(segs.take(pieces@.len() as int) =~= segs);
    }
}

impl<S: CwdScheme> Module for Cwd<S> {
    fn append_segments(&mut self, powerline: &mut Powerline)
        ensures
            old(self).cwd is None ==> *final(powerline) == *old(powerline),
    {
        match &self.cwd {
            None => {},
            Some(cwd) => {
                let bgs = S::path_bg_colors();
                let fg = S::path_fg();
                match &self.home {
                    Some(home) => {
                        append_cwd_segments(
                            powerline,
                            cwd.as_str(),
                            Some(home.as_str()),
                            self.max_length,
                            self.wanted_seg_num,
                            fg,
                            &bgs,
                        );
                    },
                    None => {
                        append_cwd_segments(
                            powerline,
                            cwd.as_str(),
                            None,
                            self.max_length,
                            self.wanted_seg_num,
                            fg,
                            &bgs,
                        );
                    },
                }
            },
        }
    }
}

} // verus!
