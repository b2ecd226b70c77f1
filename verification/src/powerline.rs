//! The prompt composer: appends styled segments to a left-aligned buffer and
//! an optional right-aligned buffer, draws a directional separator glyph at
//! each boundary between segments, counts the visible columns of each buffer
//! (one column per Unicode scalar value, escape codes excluded), and renders
//! the final line with the exact padding that right-justifies the second
//! buffer against a given terminal width.

use vstd::prelude::*;

use crate::colors::Color;
use crate::terminal::{
    bg_code_seq, fg_code_seq, lemma_reset_code_len, push_bg_code, push_fg_code, push_reset_code,
    reset_code_seq, BgColor, FgColor, Shell,
};
use crate::config::{CommandLine, LineSegment, ProbedEnvironment, SeparatorStyle, TerminalRuntimeMetadata};
use crate::modules::{
    Cargo, Cmd, Cwd, Git, Host, LastCmdDuration, Module, PythonEnv, ReadOnly, Spacer, Time, User,
};
use crate::text::{append_spaces, clone_opt_string, spaces};
use crate::themes::CompleteTheme;

verus! {

/// Which of the two buffers the composer is currently building.  A composer
/// starts in `Left` and moves to `Right` at most once, never back.
#[derive(Clone, Copy, PartialEq, Eq, Structural, Debug)]
pub enum Direction {
    Left,
    Right,
}

/// A named separator glyph pair: each variant maps to one glyph for
/// left-building and one for right-building, because the two halves of the
/// prompt converge toward the middle of the line.
#[derive(Clone, Copy, PartialEq, Eq, Structural, Debug)]
pub enum Separator {
    Chevron,
    Round,
    AngleLine,
}

impl Separator {
    /// The glyph this separator draws while building the given side.
    pub open spec fn glyph(self, direction: Direction) -> char {
        match (self, direction) {
            (Separator::Chevron, Direction::Right) => '\u{e0b0}',
            (Separator::Chevron, Direction::Left) => '\u{e0b2}',
            (Separator::Round, Direction::Right) => '\u{e0b4}',
            (Separator::Round, Direction::Left) => '\u{e0b6}',
            (Separator::AngleLine, Direction::Right) => '\u{e0b1}',
            (Separator::AngleLine, Direction::Left) => '\u{e0b3}',
        }
    }

    pub fn for_direction(&self, direction: Direction) -> (c: char)
        ensures
            c == self.glyph(direction),
    {
        match (self, direction) {
            (Separator::Chevron, Direction::Right) => '\u{e0b0}',
            (Separator::Chevron, Direction::Left) => '\u{e0b2}',
            (Separator::Round, Direction::Right) => '\u{e0b4}',
            (Separator::Round, Direction::Left) => '\u{e0b6}',
            (Separator::AngleLine, Direction::Right) => '\u{e0b1}',
            (Separator::AngleLine, Direction::Left) => '\u{e0b3}',
        }
    }
}

/// Appends the glyph of `sep` for `direction`.
fn push_sep_glyph(out: &mut String, sep: Separator, direction: Direction)
    ensures
        final(out)@ == old(out)@ + seq![sep.glyph(direction)],
{
    match (sep, direction) {
        (Separator::Chevron, Direction::Right) => {
            out.append("\u{e0b0}");
            proof {
                reveal_strlit("\u{e0b0}");
                assert(final(out)@ =~= old(out)@ + seq![sep.glyph(direction)]);
            }
        },
        (Separator::Chevron, Direction::Left) => {
            out.append("\u{e0b2}");
            proof {
                reveal_strlit("\u{e0b2}");
                assert(final(out)@ =~= old(out)@ + seq![sep.glyph(direction)]);
            }
        },
        (Separator::Round, Direction::Right) => {
            out.append("\u{e0b4}");
            proof {
                reveal_strlit("\u{e0b4}");
                assert(final(out)@ =~= old(out)@ + seq![sep.glyph(direction)]);
            }
        },
        (Separator::Round, Direction::Left) => {
            out.append("\u{e0b6}");
            proof {
                reveal_strlit("\u{e0b6}");
                assert(final(out)@ =~= old(out)@ + seq![sep.glyph(direction)]);
            }
        },
        (Separator::AngleLine, Direction::Right) => {
            out.append("\u{e0b1}");
            proof {
                reveal_strlit("\u{e0b1}");
                assert(final(out)@ =~= old(out)@ + seq![sep.glyph(direction)]);
            }
        },
        (Separator::AngleLine, Direction::Left) => {
            out.append("\u{e0b3}");
            proof {
                reveal_strlit("\u{e0b3}");
                assert(final(out)@ =~= old(out)@ + seq![sep.glyph(direction)]);
            }
        },
    }
}

/// The colors of one segment.  `sep` pins a separator for the boundary
/// adjoining this segment; `None` defers to the composer's ambient default.
/// `sep_fg` is the color the separator glyph is drawn in; it defaults to the
/// segment's own background so the glyph blends into the segment.
#[derive(Clone, Copy, Debug)]
pub struct Style {
    pub fg: FgColor,
    pub bg: BgColor,
    pub sep: Option<Separator>,
    pub sep_fg: FgColor,
}

/// The style `Style::simple` builds: the separator deferred, its color the
/// segment's own background.
pub open spec fn simple_style(fg: Color, bg: Color) -> Style {
    Style { fg: FgColor(fg.0), bg: BgColor(bg.0), sep: None, sep_fg: FgColor(bg.0) }
}

/// The style `Style::custom` builds: the given separator pinned, its color
/// the segment's own background.
pub open spec fn custom_style(fg: Color, bg: Color, sep: Separator) -> Style {
    Style { fg: FgColor(fg.0), bg: BgColor(bg.0), sep: Some(sep), sep_fg: FgColor(bg.0) }
}

impl Style {
    /// A style that defers to the ambient separator.
    pub fn simple(fg: Color, bg: Color) -> (s: Style)
        ensures
            s == simple_style(fg, bg),
            s.fg.0 == fg.0,
            s.bg.0 == bg.0,
            s.sep is None,
            s.sep_fg.0 == bg.0,
    {
        Style { fg: FgColor(fg.0), bg: BgColor(bg.0), sep: None, sep_fg: FgColor(bg.0) }
    }

    /// A style that pins a specific separator to this segment's boundary.
    pub fn custom(fg: Color, bg: Color, sep: Separator) -> (s: Style)
        ensures
            s == custom_style(fg, bg, sep),
            s.fg.0 == fg.0,
            s.bg.0 == bg.0,
            s.sep == Some(sep),
            s.sep_fg.0 == bg.0,
    {
        Style { fg: FgColor(fg.0), bg: BgColor(bg.0), sep: Some(sep), sep_fg: FgColor(bg.0) }
    }
}

/// The separator a segment actually draws: its own, or the ambient default.
pub open spec fn effective_sep(style: Style, ambient: Separator) -> Separator {
    match style.sep {
        Some(s) => s,
        None => ambient,
    }
}

/// Whether a foreground paint code is written for the new segment: it is
/// skipped only when it would repeat the color last drawn.
pub open spec fn fg_written(prev: Option<Style>, style: Style) -> bool {
    match prev {
        Some(p) => p.sep_fg != style.fg,
        None => true,
    }
}

/// A segment's content with its optional single space of padding each side.
pub open spec fn padded_content(content: Seq<char>, padded: bool) -> Seq<char> {
    if padded {
        seq![' '] + content + seq![' ']
    } else {
        content
    }
}

/// The visible width of a segment: its content's scalar values, plus the two
/// padding spaces if it is padded.
pub open spec fn seg_width(content: Seq<char>, padded: bool) -> nat {
    content.len() + if padded {
        2nat
    } else {
        0nat
    }
}

/// The column count of a run of segments appended to one side with nothing
/// in between: each segment contributes its width, and each segment after
/// the first draws one separator column.
pub open spec fn run_columns(ws: Seq<nat>) -> nat
    decreases ws.len(),
{
    if ws.len() == 0 {
        0nat
    } else {
        run_columns(ws.drop_last()) + (if ws.len() == 1 {
            0nat
        } else {
            1nat
        }) + ws.last()
    }
}

pub open spec fn seq_sum(ws: Seq<nat>) -> nat
    decreases ws.len(),
{
    if ws.len() == 0 {
        0nat
    } else {
        seq_sum(ws.drop_last()) + ws.last()
    }
}

/// Law: while only segments are appended on the left side, the column count
/// equals the sum of the segments' visible widths plus one column for each
/// separator drawn between consecutive segments.
pub proof fn lemma_left_columns_sum(ws: Seq<nat>)
    ensures
        run_columns(ws) == seq_sum(ws) + (if ws.len() == 0 {
            0nat
        } else {
            (ws.len() - 1) as nat
        }),
    decreases ws.len(),
{
    if ws.len() > 0 {
        lemma_left_columns_sum(ws.drop_last());
    }
}

proof fn lemma_run_columns_push(ws: Seq<nat>, w: nat)
    ensures
        run_columns(ws.push(w)) == run_columns(ws) + (if ws.len() == 0 {
            0nat
        } else {
            1nat
        }) + w,
{
    assert(ws.push(w).drop_last() =~= ws);
    assert(ws.push(w).last() == w);
}

/// The padding inserted between the two halves: the one-column safety margin
/// is included, and the result floors at zero instead of underflowing.
pub open spec fn pad_count(total: nat, left: nat, right: nat) -> nat {
    if total >= left + right + 1 {
        (total - left - right - 1) as nat
    } else {
        0nat
    }
}

/// Law: the padding never goes negative; on a terminal narrower than the
/// combined content it clamps to zero.
pub proof fn lemma_padding_clamps(total: nat, left: nat, right: nat)
    ensures
        total < left + right + 1 ==> pad_count(total, left, right) == 0,
        total >= left + right + 1 ==> pad_count(total, left, right) == total - left - right - 1,
{
}

/// One appended segment, as recorded in the composer's ghost history.
pub struct SegRec {
    pub content: Seq<char>,
    pub style: Style,
    pub padded: bool,
    pub dir: Direction,
}

/// The prompt composer.  `left_columns` / `right_columns` count only the
/// visible scalar values written into the matching buffer (content,
/// inter-segment separator glyphs and explicit padding spaces), never escape
/// code characters.
pub struct Powerline {
    pub left_buffer: String,
    pub left_columns: usize,
    pub right_buffer: String,
    pub right_columns: usize,
    pub last_style: Option<Style>,
    pub last_style_right: Option<Style>,
    pub separator: Separator,
    pub direction: Direction,
    pub last_padding: bool,
    pub shell: Shell,
    /// Ghost history of every appended segment.
    pub seg_log: Ghost<Seq<SegRec>>,
    /// Ghost widths of the left-side segments, tracked while the left side
    /// has seen nothing but segment appends.
    pub left_widths: Ghost<Seq<nat>>,
    pub left_tracked: Ghost<bool>,
}

impl Powerline {
    /// Well-formedness: the visible column counters never exceed the buffer
    /// lengths, and while the left side has seen only segment appends its
    /// column counter is exactly `run_columns` of the recorded widths.
    pub open spec fn wf(self) -> bool {
        &&& self.left_columns <= self.left_buffer@.len()
        &&& self.right_columns <= self.right_buffer@.len()
        &&& (self.left_tracked@ ==> {
            &&& self.direction is Left
            &&& !self.last_padding
            &&& self.left_columns as nat == run_columns(self.left_widths@)
            &&& (self.left_widths@.len() > 0 <==> self.last_style is Some)
        })
    }

    /// The text one left-side append writes after a padding gap, re-opening
    /// the segment's boundary with its own leading separator.
    pub open spec fn left_reopen_text(self, style: Style) -> Seq<char> {
        fg_code_seq(self.shell, style.sep_fg.0 as nat) + seq![
            effective_sep(style, self.separator).glyph(Direction::Left),
        ] + bg_code_seq(self.shell, style.bg.0 as nat)
    }

    /// The boundary a new left-side segment opens with: against a previous
    /// segment, the new background, the previous segment's separator color,
    /// and the separator glyph; as the first segment, just the background.
    pub open spec fn left_boundary_text(self, style: Style) -> Seq<char> {
        match self.last_style {
            Some(prev) => bg_code_seq(self.shell, style.bg.0 as nat) + fg_code_seq(
                self.shell,
                prev.sep_fg.0 as nat,
            ) + seq![effective_sep(style, self.separator).glyph(Direction::Right)],
            None => bg_code_seq(self.shell, style.bg.0 as nat),
        }
    }

    /// Everything one left-side append writes.
    pub open spec fn left_append_text(self, content: Seq<char>, style: Style, padded: bool) -> Seq<
        char,
    > {
        (if self.last_padding {
            self.left_reopen_text(style)
        } else {
            Seq::<char>::empty()
        }) + self.left_boundary_text(style) + (if fg_written(self.last_style, style) {
            fg_code_seq(self.shell, style.fg.0 as nat)
        } else {
            Seq::<char>::empty()
        }) + padded_content(content, padded)
    }

    /// Everything one right-side append writes: the separator glyph first
    /// (painted in the new segment's background over the field it is drawn
    /// onto), then the new background, then the content.
    pub open spec fn right_append_text(self, content: Seq<char>, style: Style, padded: bool) -> Seq<
        char,
    > {
        fg_code_seq(self.shell, style.bg.0 as nat) + seq![
            effective_sep(style, self.separator).glyph(Direction::Left),
        ] + bg_code_seq(self.shell, style.bg.0 as nat) + (if fg_written(
            self.last_style_right,
            style,
        ) {
            fg_code_seq(self.shell, style.fg.0 as nat)
        } else {
            Seq::<char>::empty()
        }) + padded_content(content, padded)
    }

    /// The text that finalizes the left buffer: a trailing separator drawn
    /// with the last segment's separator color against the ambient default,
    /// bracketed by reset codes; nothing if no segment was written.
    pub open spec fn close_left_text(self) -> Seq<char> {
        match self.last_style {
            Some(prev) => reset_code_seq(self.shell) + fg_code_seq(self.shell, prev.sep_fg.0 as nat)
                + seq![self.separator.glyph(Direction::Right)] + reset_code_seq(self.shell),
            None => Seq::<char>::empty(),
        }
    }

    /// The text a right-side padding gap writes before its spaces.
    pub open spec fn right_gap_text(self) -> Seq<char> {
        match self.last_style_right {
            Some(prev) => reset_code_seq(self.shell) + fg_code_seq(self.shell, prev.sep_fg.0 as nat)
                + seq![self.separator.glyph(Direction::Right)] + reset_code_seq(self.shell),
            None => Seq::<char>::empty(),
        }
    }

    /// The full rendered line.  With no right half the finalized left buffer
    /// is returned as is and `total` plays no part; otherwise the computed
    /// padding separates the two halves.
    pub open spec fn rendered(self, total: nat) -> Seq<char> {
        if self.direction is Left {
            self.left_buffer@ + self.close_left_text() + reset_code_seq(self.shell)
        } else {
            self.left_buffer@ + reset_code_seq(self.shell) + (if self.right_buffer@.len() > 0 {
                spaces(pad_count(total, self.left_columns as nat, self.right_columns as nat))
            } else {
                Seq::<char>::empty()
            }) + self.right_buffer@ + reset_code_seq(self.shell)
        }
    }

    /// A fresh composer for the given shell dialect: empty buffers, zero
    /// columns, ambient chevron separator, building the left side.
    pub fn new_for_shell(shell: Shell) -> (pl: Powerline)
        ensures
            pl.wf(),
            pl.left_buffer@ == Seq::<char>::empty(),
            pl.left_columns == 0,
            pl.right_buffer@ == Seq::<char>::empty(),
            pl.right_columns == 0,
            pl.last_style is None,
            pl.last_style_right is None,
            pl.separator == Separator::Chevron,
            pl.direction == Direction::Left,
            pl.last_padding == false,
            pl.shell == shell,
            pl.seg_log@ == Seq::<SegRec>::empty(),
            pl.left_widths@ == Seq::<nat>::empty(),
            pl.left_tracked@ == true,
    {
        Powerline {
            left_buffer: String::new(),
            left_columns: 0,
            right_buffer: String::new(),
            right_columns: 0,
            last_style: None,
            last_style_right: None,
            separator: Separator::Chevron,
            direction: Direction::Left,
            last_padding: false,
            shell,
            seg_log: Ghost(Seq::empty()),
            left_widths: Ghost(Seq::empty()),
            left_tracked: Ghost(true),
        }
    }

    /// A fresh composer for the bare dialect (raw escape bytes).
    pub fn new() -> (pl: Powerline)
        ensures
            pl.wf(),
            pl.left_buffer@ == Seq::<char>::empty(),
            pl.left_columns == 0,
            pl.right_buffer@ == Seq::<char>::empty(),
            pl.right_columns == 0,
            pl.last_style is None,
            pl.last_style_right is None,
            pl.separator == Separator::Chevron,
            pl.direction == Direction::Left,
            pl.last_padding == false,
            pl.shell == Shell::Bare,
            pl.seg_log@ == Seq::<SegRec>::empty(),
            pl.left_widths@ == Seq::<nat>::empty(),
            pl.left_tracked@ == true,
    {
        Powerline::new_for_shell(Shell::Bare)
    }

    /// Changes the shell dialect used for all codes written from here on.
    pub fn set_shell(&mut self, shell: Shell)
        requires
            old(self).wf(),
        ensures
            final(self).wf(),
            *final(self) == (Powerline { shell, ..*old(self) }),
    {
        self.shell = shell;
    }

    /// Changes the ambient separator used for segments that pin none.
    pub fn set_separator(&mut self, separator: Separator)
        requires
            old(self).wf(),
        ensures
            final(self).wf(),
            *final(self) == (Powerline { separator, ..*old(self) }),
    {
        self.separator = separator;
    }

    /// Writes the escape codes that open a new left-side segment's boundary:
    /// the re-opening separator after a gap, the boundary against the
    /// previous segment, and the foreground code when it differs from the
    /// color last drawn.
    #[verifier::rlimit(50)]
    fn left_open_boundary(&mut self, style: Style)
        requires
            old(self).wf(),
            old(self).direction is Left,
        ensures
            final(self).left_buffer@ == old(self).left_buffer@ + (if old(self).last_padding {
                old(self).left_reopen_text(style)
            } else {
                Seq::<char>::empty()
            }) + old(self).left_boundary_text(style) + (if fg_written(old(self).last_style, style) {
                fg_code_seq(old(self).shell, style.fg.0 as nat)
            } else {
                Seq::<char>::empty()
            }),
            final(self).last_padding == false,
            *final(self) == (Powerline {
                left_buffer: final(self).left_buffer,
                last_padding: false,
                ..*old(self)
            }),
    {
        let ghost b0 = self.left_buffer@;
        let ghost t_reopen = if old(self).last_padding {
            old(self).left_reopen_text(style)
        } else {
            Seq::<char>::empty()
        };
        let ghost t_bound = old(self).left_boundary_text(style);

        if self.last_padding {
            push_fg_code(&mut self.left_buffer, self.shell, style.sep_fg.0);
            let sep = match style.sep {
                Some(s) => s,
                None => self.separator,
            };
            push_sep_glyph(&mut self.left_buffer, sep, Direction::Left);
            push_bg_code(&mut self.left_buffer, self.shell, style.bg.0);
            self.last_padding = false;
        }
        proof {
            assert(self.left_buffer@ =~= b0 + t_reopen);
        }
        match self.last_style {
            Some(prev) => {
                push_bg_code(&mut self.left_buffer, self.shell, style.bg.0);
                push_fg_code(&mut self.left_buffer, self.shell, prev.sep_fg.0);
                let sep = match style.sep {
                    Some(s) => s,
                    None => self.separator,
                };
                push_sep_glyph(&mut self.left_buffer, sep, Direction::Right);
            },
            None => {
                push_bg_code(&mut self.left_buffer, self.shell, style.bg.0);
            },
        }
        proof {
            assert(self.left_buffer@ =~= b0 + t_reopen + t_bound);
        }
        let write_fg = match self.last_style {
            Some(p) => p.sep_fg.0 != style.fg.0,
            None => true,
        };
        if write_fg {
            push_fg_code(&mut self.left_buffer, self.shell, style.fg.0);
        }
        proof {
            assert(self.left_buffer@ =~= b0 + t_reopen + t_bound + (if fg_written(
                old(self).last_style,
                style,
            ) {
                fg_code_seq(old(self).shell, style.fg.0 as nat)
            } else {
                Seq::<char>::empty()
            }));
        }
    }

    #[verifier::rlimit(100)]
    fn write_segment(&mut self, seg: &str, style: Style, spaces_flag: bool)
        requires
            old(self).wf(),
            old(self).direction is Left,
        ensures
            final(self).wf(),
            final(self).left_buffer@ == old(self).left_buffer@ + old(self).left_append_text(
                seg@,
                style,
                spaces_flag,
            ),
            final(self).left_columns as nat == old(self).left_columns as nat + (if old(
                self,
            ).last_style is Some {
                1nat
            } else {
                0nat
            }) + seg_width(seg@, spaces_flag),
            final(self).last_style == Some(style),
            final(self).last_padding == false,
            final(self).right_buffer == old(self).right_buffer,
            final(self).right_columns == old(self).right_columns,
            final(self).last_style_right == old(self).last_style_right,
            final(self).separator == old(self).separator,
            final(self).direction == old(self).direction,
            final(self).shell == old(self).shell,
            final(self).seg_log@ == old(self).seg_log@.push(
                SegRec { content: seg@, style, padded: spaces_flag, dir: Direction::Left },
            ),
            final(self).left_tracked@ == old(self).left_tracked@,
            final(self).left_widths@ == (if old(self).left_tracked@ {
                old(self).left_widths@.push(seg_width(seg@, spaces_flag))
            } else {
                old(self).left_widths@
            }),
    {
        let cw = seg.unicode_len();
        let had_prev = self.last_style.is_some();
        let ghost b0 = self.left_buffer@;
        let ghost t_reopen = if old(self).last_padding {
            old(self).left_reopen_text(style)
        } else {
            Seq::<char>::empty()
        };
        let ghost t_bound = old(self).left_boundary_text(style);
        let ghost t_fg = if fg_written(old(self).last_style, style) {
            fg_code_seq(old(self).shell, style.fg.0 as nat)
        } else {
            Seq::<char>::empty()
        };
        let ghost t_content = padded_content(seg@, spaces_flag);

        self.left_open_boundary(style);
        proof {
            assert(self.left_buffer@ =~= b0 + t_reopen + t_bound + t_fg);
        }
        if spaces_flag {
            self.left_buffer.append(" ");
            self.left_buffer.append(seg);
            self.left_buffer.append(" ");
        } else {
            self.left_buffer.append(seg);
        }
        proof {
            reveal_strlit(" ");
            assert(self.left_buffer@ =~= b0 + t_reopen + t_bound + t_fg + t_content);
            assert(self.left_buffer@ =~= old(self).left_buffer@ + old(self).left_append_text(
                seg@,
                style,
                spaces_flag,
            ));
        }
        let total = self.left_buffer.as_str().unicode_len();
        proof {
            assert(t_content.len() == seg_width(seg@, spaces_flag));
            assert(t_bound.len() >= (if had_prev {
                1nat
            } else {
                0nat
            }));
            assert(old(self).left_columns + (if had_prev {
                1nat
            } else {
                0nat
            }) + seg_width(seg@, spaces_flag) <= total);
        }
        let sep_add: usize = if had_prev {
            1
        } else {
            0
        };
        let c1 = self.left_columns + sep_add;
        let c2 = c1 + cw;
        let c3 = if spaces_flag {
            c2 + 2
        } else {
            c2
        };
        self.left_columns = c3;
        self.last_style = Some(style);
        self.seg_log = Ghost(
            self.seg_log@.push(
                SegRec { content: seg@, style, padded: spaces_flag, dir: Direction::Left },
            ),
        );
        self.left_widths = Ghost(
            if self.left_tracked@ {
                self.left_widths@.push(seg_width(seg@, spaces_flag))
            } else {
                self.left_widths@
            },
        );
        proof {
            if old(self).left_tracked@ {
                lemma_run_columns_push(old(self).left_widths@, seg_width(seg@, spaces_flag));
            }
        }
    }

    #[verifier::rlimit(50)]
    fn write_segment_right(&mut self, seg: &str, style: Style, spaces_flag: bool)
        requires
            old(self).wf(),
            old(self).direction is Right,
        ensures
            final(self).wf(),
            final(self).right_buffer@ == old(self).right_buffer@ + old(self).right_append_text(
                seg@,
                style,
                spaces_flag,
            ),
            final(self).right_columns as nat == old(self).right_columns as nat + 1 + seg_width(
                seg@,
                spaces_flag,
            ),
            final(self).last_style_right == Some(style),
            final(self).left_buffer == old(self).left_buffer,
            final(self).left_columns == old(self).left_columns,
            final(self).last_style == old(self).last_style,
            final(self).last_padding == old(self).last_padding,
            final(self).separator == old(self).separator,
            final(self).direction == old(self).direction,
            final(self).shell == old(self).shell,
            final(self).seg_log@ == old(self).seg_log@.push(
                SegRec { content: seg@, style, padded: spaces_flag, dir: Direction::Right },
            ),
            final(self).left_tracked@ == old(self).left_tracked@,
            final(self).left_widths@ == old(self).left_widths@,
    {
        let cw = seg.unicode_len();
        let bg_as_fg = style.bg.transpose();
        push_fg_code(&mut self.right_buffer, self.shell, bg_as_fg.0);
        let sep = match style.sep {
            Some(s) => s,
            None => self.separator,
        };
        push_sep_glyph(&mut self.right_buffer, sep, Direction::Left);
        push_bg_code(&mut self.right_buffer, self.shell, style.bg.0);
        let write_fg = match self.last_style_right {
            Some(p) => p.sep_fg.0 != style.fg.0,
            None => true,
        };
        if write_fg {
            push_fg_code(&mut self.right_buffer, self.shell, style.fg.0);
        }
        if spaces_flag {
            self.right_buffer.append(" ");
            self.right_buffer.append(seg);
            self.right_buffer.append(" ");
        } else {
            self.right_buffer.append(seg);
        }
        proof {
            reveal_strlit(" ");
            assert(self.right_buffer@ =~= old(self).right_buffer@ + old(self).right_append_text(
                seg@,
                style,
                spaces_flag,
            ));
        }
        let total = self.right_buffer.as_str().unicode_len();
        proof {
            assert(old(self).right_append_text(seg@, style, spaces_flag).len() >= 1 + seg_width(
                seg@,
                spaces_flag,
            ));
            assert(old(self).right_columns + 1 + seg_width(seg@, spaces_flag) <= total);
        }
        let c1 = self.right_columns + 1;
        let c2 = c1 + cw;
        let c3 = if spaces_flag {
            c2 + 2
        } else {
            c2
        };
        self.right_columns = c3;
        self.last_style_right = Some(style);
        self.seg_log = Ghost(
            self.seg_log@.push(
                SegRec { content: seg@, style, padded: spaces_flag, dir: Direction::Right },
            ),
        );
    }

    /// Appends a padded segment (one space each side of the content) to the
    /// buffer matching the current direction.
    pub fn add_segment(&mut self, seg: &str, style: Style)
        requires
            old(self).wf(),
        ensures
            final(self).wf(),
            final(self).seg_log@ == old(self).seg_log@.push(
                SegRec { content: seg@, style, padded: true, dir: old(self).direction },
            ),
            final(self).separator == old(self).separator,
            final(self).direction == old(self).direction,
            final(self).shell == old(self).shell,
            old(self).direction is Left ==> {
                &&& final(self).left_buffer@ == old(self).left_buffer@ + old(
                    self,
                ).left_append_text(seg@, style, true)
                &&& final(self).left_columns as nat == old(self).left_columns as nat + (if old(
                    self,
                ).last_style is Some {
                    1nat
                } else {
                    0nat
                }) + seg_width(seg@, true)
                &&& final(self).last_style == Some(style)
                &&& final(self).last_padding == false
                &&& final(self).right_buffer == old(self).right_buffer
                &&& final(self).right_columns == old(self).right_columns
                &&& final(self).last_style_right == old(self).last_style_right
                &&& final(self).left_tracked@ == old(self).left_tracked@
                &&& final(self).left_widths@ == (if old(self).left_tracked@ {
                    old(self).left_widths@.push(seg_width(seg@, true))
                } else {
                    old(self).left_widths@
                })
            },
            old(self).direction is Right ==> {
                &&& final(self).right_buffer@ == old(self).right_buffer@ + old(
                    self,
                ).right_append_text(seg@, style, true)
                &&& final(self).right_columns as nat == old(self).right_columns as nat + 1
                    + seg_width(seg@, true)
                &&& final(self).last_style_right == Some(style)
                &&& final(self).left_buffer == old(self).left_buffer
                &&& final(self).left_columns == old(self).left_columns
                &&& final(self).last_style == old(self).last_style
                &&& final(self).last_padding == old(self).last_padding
                &&& final(self).left_tracked@ == old(self).left_tracked@
                &&& final(self).left_widths@ == old(self).left_widths@
            },
    {
        match self.direction {
            Direction::Left => self.write_segment(seg, style, true),
            Direction::Right => self.write_segment_right(seg, style, true),
        }
    }

    /// Appends an unpadded segment to the buffer matching the current
    /// direction.
    pub fn add_short_segment(&mut self, seg: &str, style: Style)
        requires
            old(self).wf(),
        ensures
            final(self).wf(),
            final(self).seg_log@ == old(self).seg_log@.push(
                SegRec { content: seg@, style, padded: false, dir: old(self).direction },
            ),
            final(self).separator == old(self).separator,
            final(self).direction == old(self).direction,
            final(self).shell == old(self).shell,
            old(self).direction is Left ==> {
                &&& final(self).left_buffer@ == old(self).left_buffer@ + old(
                    self,
                ).left_append_text(seg@, style, false)
                &&& final(self).left_columns as nat == old(self).left_columns as nat + (if old(
                    self,
                ).last_style is Some {
                    1nat
                } else {
                    0nat
                }) + seg_width(seg@, false)
                &&& final(self).last_style == Some(style)
                &&& final(self).last_padding == false
                &&& final(self).right_buffer == old(self).right_buffer
                &&& final(self).right_columns == old(self).right_columns
                &&& final(self).last_style_right == old(self).last_style_right
                &&& final(self).left_tracked@ == old(self).left_tracked@
                &&& final(self).left_widths@ == (if old(self).left_tracked@ {
                    old(self).left_widths@.push(seg_width(seg@, false))
                } else {
                    old(self).left_widths@
                })
            },
            old(self).direction is Right ==> {
                &&& final(self).right_buffer@ == old(self).right_buffer@ + old(
                    self,
                ).right_append_text(seg@, style, false)
                &&& final(self).right_columns as nat == old(self).right_columns as nat + 1
                    + seg_width(seg@, false)
                &&& final(self).last_style_right == Some(style)
                &&& final(self).left_buffer == old(self).left_buffer
                &&& final(self).left_columns == old(self).left_columns
                &&& final(self).last_style == old(self).last_style
                &&& final(self).last_padding == old(self).last_padding
                &&& final(self).left_tracked@ == old(self).left_tracked@
                &&& final(self).left_widths@ == old(self).left_widths@
            },
    {
        match self.direction {
            Direction::Left => self.write_segment(seg, style, false),
            Direction::Right => self.write_segment_right(seg, style, false),
        }
    }

    fn close_left_buffer(&mut self)
        requires
            old(self).wf(),
        ensures
            final(self).wf(),
            final(self).left_buffer@ == old(self).left_buffer@ + old(self).close_left_text(),
            final(self).left_columns as nat == old(self).left_columns as nat + (if old(
                self,
            ).last_style is Some {
                1nat
            } else {
                0nat
            }),
            final(self).last_style is None,
            final(self).left_tracked@ == false,
            final(self).right_buffer == old(self).right_buffer,
            final(self).right_columns == old(self).right_columns,
            final(self).last_style_right == old(self).last_style_right,
            final(self).separator == old(self).separator,
            final(self).direction == old(self).direction,
            final(self).last_padding == old(self).last_padding,
            final(self).shell == old(self).shell,
            final(self).seg_log@ == old(self).seg_log@,
            final(self).left_widths@ == old(self).left_widths@,
    {
        match self.last_style {
            Some(prev) => {
                push_reset_code(&mut self.left_buffer, self.shell);
                push_fg_code(&mut self.left_buffer, self.shell, prev.sep_fg.0);
                push_sep_glyph(&mut self.left_buffer, self.separator, Direction::Right);
                push_reset_code(&mut self.left_buffer, self.shell);
                proof {
                    assert(self.left_buffer@ =~= old(self).left_buffer@ + old(
                        self,
                    ).close_left_text());
                }
                let total = self.left_buffer.as_str().unicode_len();
                proof {
                    assert(old(self).close_left_text().len() >= 1);
                    assert(old(self).left_columns + 1 <= total);
                }
                self.left_columns = self.left_columns + 1;
            },
            None => {
                proof {
                    assert(self.left_buffer@ =~= old(self).left_buffer@ + old(
                        self,
                    ).close_left_text());
                }
            },
        }
        self.last_style = None;
        self.left_tracked = Ghost(false);
    }

    /// Finalizes the left buffer with its trailing separator and switches to
    /// building the right buffer.  May only be called while still building
    /// the left side.
    pub fn start_right(&mut self)
        requires
            old(self).wf(),
            old(self).direction is Left,
        ensures
            final(self).wf(),
            final(self).direction is Right,
            final(self).left_buffer@ == old(self).left_buffer@ + old(self).close_left_text(),
            final(self).left_columns as nat == old(self).left_columns as nat + (if old(
                self,
            ).last_style is Some {
                1nat
            } else {
                0nat
            }),
            final(self).last_style is None,
            final(self).right_buffer == old(self).right_buffer,
            final(self).right_columns == old(self).right_columns,
            final(self).last_style_right == old(self).last_style_right,
            final(self).separator == old(self).separator,
            final(self).last_padding == old(self).last_padding,
            final(self).shell == old(self).shell,
            final(self).seg_log@ == old(self).seg_log@,
    {
        self.close_left_buffer();
        self.direction = Direction::Right;
    }

    /// Inserts `len` literal spaces as a gap.  On the left this first closes
    /// the current run with its trailing separator; on the right the closing
    /// separator is written before the spaces.  Either way the next appended
    /// segment re-opens its own boundary.
    pub fn add_padding(&mut self, len: usize)
        requires
            old(self).wf(),
        ensures
            final(self).wf(),
            final(self).last_padding == true,
            final(self).separator == old(self).separator,
            final(self).direction == old(self).direction,
            final(self).shell == old(self).shell,
            final(self).seg_log@ == old(self).seg_log@,
            old(self).direction is Left ==> {
                &&& final(self).left_buffer@ == old(self).left_buffer@ + old(
                    self,
                ).close_left_text() + reset_code_seq(old(self).shell) + spaces(len as nat)
                &&& final(self).left_columns as nat == old(self).left_columns as nat + (if old(
                    self,
                ).last_style is Some {
                    1nat
                } else {
                    0nat
                }) + len as nat + 1
                &&& final(self).last_style is None
                &&& final(self).right_buffer == old(self).right_buffer
                &&& final(self).right_columns == old(self).right_columns
                &&& final(self).last_style_right == old(self).last_style_right
            },
            old(self).direction is Right ==> {
                &&& final(self).right_buffer@ == old(self).right_buffer@ + old(
                    self,
                ).right_gap_text() + spaces(len as nat)
                &&& final(self).right_columns as nat == old(self).right_columns as nat + (if old(
                    self,
                ).last_style_right is Some {
                    1nat
                } else {
                    0nat
                }) + len as nat
                &&& final(self).last_style is None
                &&& final(self).last_style_right == old(self).last_style_right
                &&& final(self).left_buffer == old(self).left_buffer
                &&& final(self).left_columns == old(self).left_columns
            },
    {
        match self.direction {
            Direction::Left => {
                self.close_left_buffer();
                push_reset_code(&mut self.left_buffer, self.shell);
                append_spaces(&mut self.left_buffer, len);
                proof {
                    assert(self.left_buffer@ =~= old(self).left_buffer@ + old(
                        self,
                    ).close_left_text() + reset_code_seq(old(self).shell) + spaces(len as nat));
                }
                let total = self.left_buffer.as_str().unicode_len();
                proof {
                    lemma_reset_code_len(old(self).shell);
                    assert(self.left_columns + len + 1 <= total);
                }
                let c1 = self.left_columns + len;
                self.left_columns = c1 + 1;
            },
            Direction::Right => {
                match self.last_style_right {
                    Some(prev) => {
                        push_reset_code(&mut self.right_buffer, self.shell);
                        push_fg_code(&mut self.right_buffer, self.shell, prev.sep_fg.0);
                        push_sep_glyph(&mut self.right_buffer, self.separator, Direction::Right);
                        push_reset_code(&mut self.right_buffer, self.shell);
                        append_spaces(&mut self.right_buffer, len);
                        proof {
                            assert(self.right_buffer@ =~= old(self).right_buffer@ + old(
                                self,
                            ).right_gap_text() + spaces(len as nat));
                        }
                        let total = self.right_buffer.as_str().unicode_len();
                        proof {
                            lemma_reset_code_len(old(self).shell);
                            assert(self.right_columns + len + 1 <= total);
                        }
                        let c1 = self.right_columns + len;
                        self.right_columns = c1 + 1;
                    },
                    None => {
                        append_spaces(&mut self.right_buffer, len);
                        proof {
                            assert(self.right_buffer@ =~= old(self).right_buffer@ + old(
                                self,
                            ).right_gap_text() + spaces(len as nat));
                        }
                        let total = self.right_buffer.as_str().unicode_len();
                        proof {
                            assert(self.right_columns + len <= total);
                        }
                        self.right_columns = self.right_columns + len;
                    },
                }
                self.last_style = None;
            },
        }
        self.last_padding = true;
        proof {
            if self.left_tracked@ {
                assert(!old(self).last_padding);
            }
        }
    }

    /// Renders the finished prompt line.  With no right half the finalized
    /// left buffer is returned unchanged, whatever `total_columns` is; with
    /// a right half, `max(0, total_columns - left - right - 1)` spaces are
    /// inserted between the halves.  Never fails on a narrow terminal: the
    /// padding floors at zero.
    pub fn render(self, total_columns: usize) -> (r: String)
        requires
            self.wf(),
        ensures
            r@ == self.rendered(total_columns as nat),
    {
        let mut pl = self;
        match pl.direction {
            Direction::Left => {
                pl.close_left_buffer();
                let mut out = pl.left_buffer;
                push_reset_code(&mut out, pl.shell);
                proof {
                    assert(out@ =~= self.rendered(total_columns as nat));
                }
                out
            },
            Direction::Right => {
                let mut out = pl.left_buffer;
                push_reset_code(&mut out, pl.shell);
                if !pl.right_buffer.as_str().is_empty() {
                    let pad: usize = if total_columns >= pl.left_columns {
                        let a = total_columns - pl.left_columns;
                        if a >= pl.right_columns {
                            let b = a - pl.right_columns;
                            if b >= 1 {
                                b - 1
                            } else {
                                0
                            }
                        } else {
                            0
                        }
                    } else {
                        0
                    };
                    proof {
                        assert(pad as nat == pad_count(
                            total_columns as nat,
                            pl.left_columns as nat,
                            pl.right_columns as nat,
                        ));
                    }
                    append_spaces(&mut out, pad);
                }
                out.append(pl.right_buffer.as_str());
                push_reset_code(&mut out, pl.shell);
                proof {
                    assert(out@ =~= self.rendered(total_columns as nat));
                }
                out
            },
        }
    }
}

impl Powerline {
    /// Runs one producer against this composer.
    pub fn add_module<M: Module>(&mut self, module: M)
        requires
            old(self).wf(),
        ensures
            final(self).wf(),
            final(self).direction == old(self).direction,
            final(self).shell == old(self).shell,
            old(self).seg_log@.is_prefix_of(final(self).seg_log@),
    {
        let mut module = module;
        module.append_segments(self);
    }
}

impl From<&SeparatorStyle> for Separator {
    fn from(style: &SeparatorStyle) -> (r: Self) {
        match style {
            SeparatorStyle::Chevron => Separator::Chevron,
            SeparatorStyle::Round => Separator::Round,
        }
    }
}

impl vstd::std_specs::convert::FromSpecImpl<&SeparatorStyle> for Separator {
    open spec fn obeys_from_spec() -> bool {
        true
    }

    open spec fn from_spec(style: &SeparatorStyle) -> Self {
        match style {
            SeparatorStyle::Chevron => Separator::Chevron,
            SeparatorStyle::Round => Separator::Round,
        }
    }
}

impl Powerline {
    /// Adds the configured producers of one prompt half, in order, reading
    /// the probed environment and the runtime facts.
    pub fn add_conf_modules<T: CompleteTheme, R: TerminalRuntimeMetadata>(
        &mut self,
        modules: &Vec<LineSegment>,
        runtime_data: &R,
        probes: &ProbedEnvironment,
    )
        requires
            old(self).wf(),
        ensures
            final(self).wf(),
            final(self).direction == old(self).direction,
            final(self).shell == old(self).shell,
            old(self).seg_log@.is_prefix_of(final(self).seg_log@),
    {
        let n = modules.len();
        let mut idx: usize = 0;
        while idx < n
            invariant
                self.wf(),
                self.direction == old(self).direction,
                self.shell == old(self).shell,
                old(self).seg_log@.is_prefix_of(self.seg_log@),
                n == modules@.len(),
                idx <= n,
            decreases n - idx,
        {
            let m = &modules[idx];
            match m {
                LineSegment::SmallSpacer => self.add_module(Spacer::<T>::small()),
                LineSegment::LargeSpacer => self.add_module(Spacer::<T>::large()),
                LineSegment::PythonEnv => self.add_module(
                    PythonEnv::<T>::with_environment(
                        clone_opt_string(&probes.venv),
                        probes.has_pyproject,
                        clone_opt_string(&probes.python_version),
                        clone_opt_string(&probes.python_version_file),
                    ),
                ),
                LineSegment::Cmd => self.add_module(
                    Cmd::<T>::new(runtime_data.last_command_status()),
                ),
                LineSegment::Cargo => self.add_module(
                    Cargo::<T>::with_manifest(probes.cargo_manifest),
                ),
                LineSegment::Git => {
                    match &probes.git_stats {
                        Some(stats) => self.add_module(Git::<T>::with_stats(stats.duplicate())),
                        None => self.add_module(Git::<T>::new()),
                    }
                },
                LineSegment::Separator(style) => self.set_separator(Separator::from(style)),
                LineSegment::ReadOnly => self.add_module(
                    ReadOnly::<T>::with_status(probes.readonly),
                ),
                LineSegment::Host => self.add_module(
                    Host::<T>::new().with_session(probes.remote_session),
                ),
                LineSegment::User => self.add_module(
                    User::<T>::new().with_session(probes.remote_session),
                ),
                LineSegment::Padding(size) => self.add_padding(*size),
                LineSegment::Time { format } => match format {
                    Some(format) => self.add_module(Time::<T>::with_time_format(format.clone())),
                    None => self.add_module(Time::<T>::new()),
                },
                LineSegment::LastCmdDuration { min_run_time } => self.add_module(
                    LastCmdDuration::<T>::new(
                        runtime_data.last_command_duration(),
                        *min_run_time,
                    ),
                ),
                LineSegment::Cwd { max_length, wanted_seg_num, resolve_symlinks } => {
                    let cwd_module = Cwd::<T>::new(*max_length, *wanted_seg_num, *resolve_symlinks);
                    match &probes.cwd {
                        Some(cwd) => self.add_module(
                            cwd_module.with_paths(cwd.clone(), clone_opt_string(&probes.home)),
                        ),
                        None => self.add_module(cwd_module),
                    }
                },
                LineSegment::Nvm => {},
            }
            idx = idx + 1;
        }
    }

    /// A composer filled from one configured prompt line: the left half's
    /// producers, then, when a right half is configured, the switch to the
    /// right side and its producers.
    pub fn from_conf<T: CompleteTheme, R: TerminalRuntimeMetadata>(
        conf: &CommandLine,
        runtime_data: &R,
        probes: &ProbedEnvironment,
    ) -> (pl: Powerline)
        ensures
            pl.wf(),
            conf.right is None ==> pl.direction is Left,
            conf.right is Some ==> pl.direction is Right,
    {
        let mut powerline = Powerline::new();
        powerline.add_conf_modules::<T, R>(&conf.left, runtime_data, probes);
        match &conf.right {
            Some(right_modules) => {
                powerline.start_right();
                powerline.add_conf_modules::<T, R>(right_modules, runtime_data, probes);
            },
            None => {},
        }
        powerline
    }

    /// A fresh builder around a fresh composer.
    pub fn builder() -> (r: PowerlineBuilder)
        ensures
            r.powerline.wf(),
            r.powerline.direction is Left,
    {
        PowerlineBuilder { powerline: Powerline::new() }
    }
}

/// A fluent wrapper around a composer.
pub struct PowerlineBuilder {
    pub powerline: Powerline,
}

/// The builder stage that picks the shell dialect.
pub trait PowerlineShellBuilder: Sized {
    spec fn shell_wf(self) -> bool;

    fn set_shell(self, shell: Shell) -> (r: PowerlineBuilder)
        requires
            self.shell_wf(),
        ensures
            r.powerline.wf(),
            r.powerline.direction is Left,
    ;
}

/// The builder operations available on either half.
pub trait PowerlineRightBuilder: Sized {
    spec fn right_wf(self) -> bool;

    fn add_module<M: Module>(self, module: M) -> (r: Self)
        requires
            self.right_wf(),
        ensures
            r.right_wf(),
    ;

    fn change_separator(self, separator: Separator) -> (r: Self)
        requires
            self.right_wf(),
        ensures
            r.right_wf(),
    ;

    fn add_padding(self, padding: usize) -> (r: Self)
        requires
            self.right_wf(),
        ensures
            r.right_wf(),
    ;

    fn render(self, columns: usize) -> (r: String)
        requires
            self.right_wf(),
    ;
}

/// The builder operations available while still on the left half.
pub trait PowerlineLeftBuilder: PowerlineRightBuilder {
    spec fn can_start_right(self) -> bool;

    fn start_right(self) -> (r: PowerlineBuilder)
        requires
            self.right_wf(),
            self.can_start_right(),
        ensures
            r.powerline.wf(),
            r.powerline.direction is Right,
    ;
}

impl PowerlineShellBuilder for PowerlineBuilder {
    open spec fn shell_wf(self) -> bool {
        self.powerline.wf() && self.powerline.direction is Left
    }

    fn set_shell(self, shell: Shell) -> (r: PowerlineBuilder) {
        let mut b = self;
        b.powerline.set_shell(shell);
        b
    }
}

impl PowerlineRightBuilder for PowerlineBuilder {
    open spec fn right_wf(self) -> bool {
        self.powerline.wf()
    }

    fn add_module<M: Module>(self, module: M) -> (r: Self) {
        let mut b = self;
        b.powerline.add_module(module);
        b
    }

    fn change_separator(self, separator: Separator) -> (r: Self) {
        let mut b = self;
        b.powerline.set_separator(separator);
        b
    }

    fn add_padding(self, padding: usize) -> (r: Self) {
        let mut b = self;
        b.powerline.add_padding(padding);
        b
    }

    fn render(self, columns: usize) -> (r: String)
        ensures
            r@ == self.powerline.rendered(columns as nat),
    {
        self.powerline.render(columns)
    }
}

impl PowerlineLeftBuilder for PowerlineBuilder {
    open spec fn can_start_right(self) -> bool {
        self.powerline.direction is Left
    }

    fn start_right(self) -> (r: PowerlineBuilder) {
        let mut b = self;
        b.powerline.start_right();
        b
    }
}

/// Law: a composer still building its left side renders the same text for
/// every terminal width.
pub proof fn lemma_render_ignores_width(pl: Powerline, a: nat, b: nat)
    requires
        pl.direction is Left,
    ensures
        pl.rendered(a) == pl.rendered(b),
{
}

} // verus!
