//! The version-control status collector and its producer.  The collector
//! classifies every changed path of a porcelain status report into
//! untracked, conflicted, staged or not-staged (conflicts take precedence;
//! a path with independent index and worktree differences counts as both
//! staged and not staged), reads the branch header for the branch name, the
//! upstream reference and the ahead/behind divergence, and handles a
//! repository with no commits yet.  The producer turns the summary into
//! prompt segments.

use vstd::prelude::*;

use core::marker::PhantomData;

use crate::colors::Color;
use crate::modules::Module;
use crate::themes::DefaultColors;
use crate::powerline::{simple_style, Direction, Powerline, SegRec, Style};
use crate::text::{
    dec_rep, dec_string_u64, digit_prefix_len, digits_val, find_sub, find_sub_from, is_prefix,
    parse_u32_prefix, spec_split, split_on_char, str_starts_with, str_views,
};

verus! {

/// A structured summary of a repository's state.
pub struct GitStats {
    pub untracked: u32,
    pub conflicted: u32,
    pub non_staged: u32,
    pub ahead: u32,
    pub behind: u32,
    pub staged: u32,
    pub remote: bool,
    pub branch_name: String,
}

/// Whether a working tree with these four counters is dirty.
pub open spec fn dirty_counts(staged: nat, non_staged: nat, untracked: nat, conflicted: nat) -> bool {
    staged + non_staged + untracked + conflicted > 0
}

impl GitStats {
    /// The working tree is dirty exactly when any change at all was counted.
    pub open spec fn dirty_spec(self) -> bool {
        dirty_counts(
            self.staged as nat,
            self.non_staged as nat,
            self.untracked as nat,
            self.conflicted as nat,
        )
    }

    pub fn is_dirty(&self) -> (r: bool)
        ensures
            r == self.dirty_spec(),
    {
        self.untracked > 0 || self.conflicted > 0 || self.staged > 0 || self.non_staged > 0
    }
}

/// Law: dirtiness is the disjunction of the four counters' positivity, so
/// it depends on each counter only through whether that counter is zero.
pub proof fn lemma_dirty_iff(s: GitStats)
    ensures
        s.dirty_spec() <==> (s.staged > 0 || s.non_staged > 0 || s.untracked > 0 || s.conflicted
            > 0),
{
}

/// Law: moving any one counter between zero and a positive value toggles
/// dirtiness exactly as the disjunction says, independent of the other
/// three counters' values.
pub proof fn lemma_dirty_flip(
    staged: nat,
    non_staged: nat,
    untracked: nat,
    conflicted: nat,
    flipped: nat,
)
    ensures
        dirty_counts(flipped, non_staged, untracked, conflicted) == (flipped > 0 || dirty_counts(
            0,
            non_staged,
            untracked,
            conflicted,
        )),
        dirty_counts(staged, flipped, untracked, conflicted) == (flipped > 0 || dirty_counts(
            staged,
            0,
            untracked,
            conflicted,
        )),
        dirty_counts(staged, non_staged, flipped, conflicted) == (flipped > 0 || dirty_counts(
            staged,
            non_staged,
            0,
            conflicted,
        )),
        dirty_counts(staged, non_staged, untracked, flipped) == (flipped > 0 || dirty_counts(
            staged,
            non_staged,
            untracked,
            0,
        )),
{
}

/// An entry line reports an untracked path.
pub open spec fn entry_untracked(l: Seq<char>) -> bool {
    l.len() >= 2 && l[0] == '?'
}

/// An entry line reports a conflicted path; this classification takes
/// precedence over staged and not-staged.
pub open spec fn entry_conflicted(l: Seq<char>) -> bool {
    l.len() >= 2 && l[0] != '?' && (l[0] == 'U' || l[1] == 'U' || (l[0] == 'D' && l[1] == 'D') || (
    l[0] == 'A' && l[1] == 'A'))
}

/// An entry line reports a staged difference (index against last commit).
pub open spec fn entry_staged(l: Seq<char>) -> bool {
    l.len() >= 2 && !entry_untracked(l) && !entry_conflicted(l) && l[0] != ' ' && l[0] != '!'
}

/// An entry line reports a not-staged difference (worktree against index).
/// A line may be both staged and not staged: the two differences are
/// independent.
pub open spec fn entry_non_staged(l: Seq<char>) -> bool {
    l.len() >= 2 && !entry_untracked(l) && !entry_conflicted(l) && l[1] != ' ' && l[1] != '!'
}

pub open spec fn count_untracked(ls: Seq<Seq<char>>) -> nat
    decreases ls.len(),
{
    if ls.len() == 0 {
        0nat
    } else {
        count_untracked(ls.drop_last()) + if entry_untracked(ls.last()) {
            1nat
        } else {
            0nat
        }
    }
}

pub open spec fn count_conflicted(ls: Seq<Seq<char>>) -> nat
    decreases ls.len(),
{
    if ls.len() == 0 {
        0nat
    } else {
        count_conflicted(ls.drop_last()) + if entry_conflicted(ls.last()) {
            1nat
        } else {
            0nat
        }
    }
}

pub open spec fn count_staged(ls: Seq<Seq<char>>) -> nat
    decreases ls.len(),
{
    if ls.len() == 0 {
        0nat
    } else {
        count_staged(ls.drop_last()) + if entry_staged(ls.last()) {
            1nat
        } else {
            0nat
        }
    }
}

pub open spec fn count_non_staged(ls: Seq<Seq<char>>) -> nat
    decreases ls.len(),
{
    if ls.len() == 0 {
        0nat
    } else {
        count_non_staged(ls.drop_last()) + if entry_non_staged(ls.last()) {
            1nat
        } else {
            0nat
        }
    }
}

/// The lines of a status report.
pub open spec fn status_lines(s: Seq<char>) -> Seq<Seq<char>> {
    spec_split(s, '\n')
}

/// The header line of a status report.
pub open spec fn header_of(s: Seq<char>) -> Seq<char> {
    status_lines(s)[0]
}

/// The entry lines of a status report: everything after the header.
pub open spec fn entries_of(s: Seq<char>) -> Seq<Seq<char>> {
    status_lines(s).drop_first()
}

/// The branch name the header reports.  A repository with no commits yet
/// reports the name after its fixed prefix; a branch with an upstream
/// reports it before the three dots; otherwise the whole rest is the name.
/// A malformed header yields an empty name.
pub open spec fn header_branch(h: Seq<char>) -> Seq<char> {
    if !is_prefix(h, "## "@) {
        Seq::<char>::empty()
    } else {
        let rest = h.skip(3);
        if is_prefix(rest, "No commits yet on "@) {
            rest.skip(18)
        } else {
            match find_sub_from(rest, "..."@, 0) {
                Some(i) => rest.take(i),
                None => rest,
            }
        }
    }
}

/// Whether the header reports a configured upstream reference.
pub open spec fn header_remote(h: Seq<char>) -> bool {
    is_prefix(h, "## "@) && !is_prefix(h.skip(3), "No commits yet on "@) && find_sub_from(
        h.skip(3),
        "..."@,
        0,
    ) is Some
}

/// The decimal number right after the first occurrence of `tag`, zero when
/// the tag is absent, no digit follows it, or the value does not fit.
pub open spec fn num_after(s: Seq<char>, tag: Seq<char>) -> nat {
    match find_sub_from(s, tag, 0) {
        Some(i) => {
            let t = s.skip(i + tag.len());
            let d = digit_prefix_len(t);
            if d > 0 && digits_val(t.take(d as int)) <= u32::MAX {
                digits_val(t.take(d as int))
            } else {
                0nat
            }
        },
        None => 0nat,
    }
}

/// How many commits the local branch is ahead of its upstream.  A
/// repository with no commits yet has no divergence.
pub open spec fn header_ahead(h: Seq<char>) -> nat {
    if is_prefix(h, "## "@) && !is_prefix(h.skip(3), "No commits yet on "@) {
        num_after(h.skip(3), "[ahead "@)
    } else {
        0nat
    }
}

/// How many commits the local branch is behind its upstream.  A
/// repository with no commits yet has no divergence.
pub open spec fn header_behind(h: Seq<char>) -> nat {
    if is_prefix(h, "## "@) && !is_prefix(h.skip(3), "No commits yet on "@) {
        num_after(h.skip(3), "behind "@)
    } else {
        0nat
    }
}

/// The decimal number right after the first occurrence of `tag` in `s`.
fn num_after_exec(s: &str, tag: &str) -> (v: u32)
    ensures
        v as nat == num_after(s@, tag@),
{
    match find_sub(s, tag) {
        Some(i) => {
            let n = s.unicode_len();
            let m = tag.unicode_len();
            let t = s.substring_char(i + m, n);
            proof {
                assert(t@ =~= s@.skip(i + tag@.len()));
            }
            match parse_u32_prefix(t) {
                Some(v) => v,
                None => 0,
            }
        },
        None => 0,
    }
}

/// Reads the branch name, upstream flag and divergence from the header
/// line.
pub fn parse_branch_header(h: &str) -> (r: (String, bool, u32, u32))
    ensures
        r.0@ == header_branch(h@),
        r.1 == header_remote(h@),
        r.2 as nat == header_ahead(h@),
        r.3 as nat == header_behind(h@),
{
    let n = h.unicode_len();
    if !str_starts_with(h, "## ") {
        return (String::new(), false, 0, 0);
    }
    proof {
        reveal_strlit("## ");
    }
    let rest = h.substring_char(3, n);
    proof {
        assert(rest@ =~= h@.skip(3));
    }
    let rn = rest.unicode_len();
    if str_starts_with(rest, "No commits yet on ") {
        proof {
            reveal_strlit("No commits yet on ");
        }
        let branch = rest.substring_char(18, rn).to_owned();
        proof {
            assert(branch@ =~= rest@.skip(18));
        }
        return (branch, false, 0, 0);
    }
    let ahead = num_after_exec(rest, "[ahead ");
    let behind = num_after_exec(rest, "behind ");
    match find_sub(rest, "...") {
        Some(i) => {
            let branch = rest.substring_char(0, i).to_owned();
            proof {
                assert(branch@ =~= rest@.take(i as int));
            }
            (branch, true, ahead, behind)
        },
        None => (rest.to_owned(), false, ahead, behind),
    }
}

proof fn lemma_spec_split_count(s: Seq<char>, c: char)
    ensures
        1 <= spec_split(s, c).len() <= s.len() + 1,
    decreases s.len(),
{
    crate::text::lemma_find_char_from(s, c, 0);
    match crate::text::find_char_from(s, c, 0) {
        Some(i) => {
            lemma_spec_split_count(s.subrange(i + 1, s.len() as int), c);
        },
        None => {},
    }
}

/// Derives a `GitStats` from the text of a porcelain status report with a
/// branch header: the four path counters count the entry lines each
/// classification matches, and the branch fields come from the header.
pub fn parse_porcelain_status(output: &str) -> (stats: GitStats)
    requires
        output@.len() < u32::MAX,
    ensures
        stats.untracked as nat == count_untracked(entries_of(output@)),
        stats.conflicted as nat == count_conflicted(entries_of(output@)),
        stats.staged as nat == count_staged(entries_of(output@)),
        stats.non_staged as nat == count_non_staged(entries_of(output@)),
        stats.branch_name@ == header_branch(header_of(output@)),
        stats.remote == header_remote(header_of(output@)),
        stats.ahead as nat == header_ahead(header_of(output@)),
        stats.behind as nat == header_behind(header_of(output@)),
{
    let parts = split_on_char(output, '\n');
    proof {
        lemma_spec_split_count(output@, '\n');
        assert(parts@.len() == str_views(parts@).len());
    }
    let (branch_name, remote, ahead, behind) = parse_branch_header(parts[0].as_str());
    let ghost entries = entries_of(output@);
    let mut untracked: u32 = 0;
    let mut conflicted: u32 = 0;
    let mut staged: u32 = 0;
    let mut non_staged: u32 = 0;
    let mut k: usize = 1;
    proof {
        assert(entries.take(0) =~= Seq::<Seq<char>>::empty());
    }
    while k < parts.len()
        invariant
            1 <= k <= parts.len(),
            str_views(parts@) == spec_split(output@, '\n'),
            parts@.len() == spec_split(output@, '\n').len(),
            parts@.len() <= output@.len() + 1,
            output@.len() < u32::MAX,
            entries == entries_of(output@),
            entries.len() == parts@.len() - 1,
            untracked as nat == count_untracked(entries.take(k - 1)),
            conflicted as nat == count_conflicted(entries.take(k - 1)),
            staged as nat == count_staged(entries.take(k - 1)),
            non_staged as nat == count_non_staged(entries.take(k - 1)),
            untracked <= k - 1,
            conflicted <= k - 1,
            staged <= k - 1,
            non_staged <= k - 1,
        decreases parts.len() - k,
    {
        let line = &parts[k];
        proof {
            assert(line@ == str_views(parts@)[k as int]);
            assert(entries[k - 1] == line@);
            assert(entries.take(k as int).drop_last() =~= entries.take(k - 1));
            assert(entries.take(k as int).last() == entries[k - 1]);
        }
        let n2 = line.as_str().unicode_len();
        if n2 >= 2 {
            let x = line.as_str().get_char(0);
            let y = line.as_str().get_char(1);
            if x == '?' {
                untracked = untracked + 1;
            } else if x == 'U' || y == 'U' || (x == 'D' && y == 'D') || (x == 'A' && y == 'A') {
                conflicted = conflicted + 1;
            } else {
                if x != ' ' && x != '!' {
                    staged = staged + 1;
                }
                if y != ' ' && y != '!' {
                    non_staged = non_staged + 1;
                }
            }
        }
        k = k + 1;
    }
    proof {
        assert(entries.take(k - 1) =~= entries);
    }
    GitStats { untracked, conflicted, non_staged, ahead, behind, staged, remote, branch_name }
}

/// The colors and symbols the producer draws the summary with, as plain
/// values.
pub struct GitPalette {
    pub repo_dirty_fg: Color,
    pub repo_dirty_bg: Color,
    pub repo_clean_fg: Color,
    pub repo_clean_bg: Color,
    pub notstaged_fg: Color,
    pub notstaged_bg: Color,
    pub untracked_fg: Color,
    pub untracked_bg: Color,
    pub staged_fg: Color,
    pub staged_bg: Color,
    pub conflicted_fg: Color,
    pub conflicted_bg: Color,
    pub remote_fg: Color,
    pub remote_bg: Color,
    pub not_staged_symbol: String,
    pub staged_symbol: String,
    pub untracked_symbol: String,
    pub conflicted_symbol: String,
}

/// The branch segment's text: the branch glyph, a space, the branch name.
pub open spec fn branch_content(branch: Seq<char>) -> Seq<char> {
    seq!['\u{e0a0}', ' '] + branch
}

/// A counter segment's text: the count, a space, the symbol.
pub open spec fn count_content(count: nat, symbol: Seq<char>) -> Seq<char> {
    dec_rep(count) + seq![' '] + symbol
}

/// The upstream segment's text: the remote glyph, then the ahead count with
/// its arrow and the behind count with its arrow, each only when positive.
pub open spec fn remote_content(ahead: nat, behind: nat) -> Seq<char> {
    seq!['\u{e709}'] + (if ahead > 0 || behind > 0 {
        seq![' ']
    } else {
        Seq::<char>::empty()
    }) + (if ahead > 0 {
        dec_rep(ahead) + seq!['\u{f062}', ' ']
    } else {
        Seq::<char>::empty()
    }) + (if behind > 0 {
        dec_rep(behind) + seq!['\u{f063}']
    } else {
        Seq::<char>::empty()
    })
}

/// The style of the branch segment: the dirty pair when any change was
/// counted, the clean pair otherwise.
pub open spec fn branch_style(stats: GitStats, pal: GitPalette) -> Style {
    if stats.dirty_spec() {
        simple_style(pal.repo_dirty_fg, pal.repo_dirty_bg)
    } else {
        simple_style(pal.repo_clean_fg, pal.repo_clean_bg)
    }
}

/// Exactly the segments the producer appends for a summary: the branch
/// segment, one counter segment per positive counter, and the upstream
/// segment when an upstream is configured.
pub open spec fn git_segments(stats: GitStats, pal: GitPalette, dir: Direction) -> Seq<SegRec> {
    seq![
        SegRec {
            content: branch_content(stats.branch_name@),
            style: branch_style(stats, pal),
            padded: true,
            dir,
        },
    ] + (if stats.non_staged >= 1 {
        seq![
            SegRec {
                content: count_content(stats.non_staged as nat, pal.not_staged_symbol@),
                style: simple_style(pal.notstaged_fg, pal.notstaged_bg),
                padded: true,
                dir,
            },
        ]
    } else {
        Seq::<SegRec>::empty()
    }) + (if stats.untracked >= 1 {
        seq![
            SegRec {
                content: count_content(stats.untracked as nat, pal.untracked_symbol@),
                style: simple_style(pal.untracked_fg, pal.untracked_bg),
                padded: true,
                dir,
            },
        ]
    } else {
        Seq::<SegRec>::empty()
    }) + (if stats.staged >= 1 {
        seq![
            SegRec {
                content: count_content(stats.staged as nat, pal.staged_symbol@),
                style: simple_style(pal.staged_fg, pal.staged_bg),
                padded: true,
                dir,
            },
        ]
    } else {
        Seq::<SegRec>::empty()
    }) + (if stats.conflicted >= 1 {
        seq![
            SegRec {
                content: count_content(stats.conflicted as nat, pal.conflicted_symbol@),
                style: simple_style(pal.conflicted_fg, pal.conflicted_bg),
                padded: true,
                dir,
            },
        ]
    } else {
        Seq::<SegRec>::empty()
    }) + (if stats.remote {
        seq![
            SegRec {
                content: remote_content(stats.ahead as nat, stats.behind as nat),
                style: simple_style(pal.remote_fg, pal.remote_bg),
                padded: true,
                dir,
            },
        ]
    } else {
        Seq::<SegRec>::empty()
    })
}

/// Appends one counter segment: the count, a space, the symbol.
fn add_count_segment(powerline: &mut Powerline, count: u32, symbol: &str, fg: Color, bg: Color)
    requires
        old(powerline).wf(),
    ensures
        final(powerline).wf(),
        final(powerline).direction == old(powerline).direction,
        final(powerline).shell == old(powerline).shell,
        final(powerline).separator == old(powerline).separator,
        final(powerline).seg_log@ == old(powerline).seg_log@.push(
            (SegRec {
                content: count_content(count as nat, symbol@),
                style: simple_style(fg, bg),
                padded: true,
                dir: old(powerline).direction,
            }),
        ),
{
    let mut content = dec_string_u64(count as u64);
    content.append(" ");
    content.append(symbol);
    proof {
        reveal_strlit(" ");
        assert(content@ =~= count_content(count as nat, symbol@));
    }
    powerline.add_segment(content.as_str(), Style::simple(fg, bg));
}

/// Appends the segments for one summary, with the given palette: branch,
/// positive counters, then the upstream divergence.
pub fn append_stats_segments(powerline: &mut Powerline, stats: &GitStats, pal: &GitPalette)
    requires
        old(powerline).wf(),
    ensures
        final(powerline).wf(),
        final(powerline).direction == old(powerline).direction,
        final(powerline).shell == old(powerline).shell,
        final(powerline).separator == old(powerline).separator,
        final(powerline).seg_log@ == old(powerline).seg_log@ + git_segments(
            *stats,
            *pal,
            old(powerline).direction,
        ),
{
    let branch_sty = if stats.is_dirty() {
        Style::simple(pal.repo_dirty_fg, pal.repo_dirty_bg)
    } else {
        Style::simple(pal.repo_clean_fg, pal.repo_clean_bg)
    };
    let mut content = String::new();
    content.append("\u{e0a0} ");
    content.append(stats.branch_name.as_str());
    proof {
        reveal_strlit("\u{e0a0} ");
        assert(content@ =~= branch_content(stats.branch_name@));
    }
    powerline.add_segment(content.as_str(), branch_sty);

    if stats.non_staged >= 1 {
        add_count_segment(
            powerline,
            stats.non_staged,
            pal.not_staged_symbol.as_str(),
            pal.notstaged_fg,
            pal.notstaged_bg,
        );
    }
    if stats.untracked >= 1 {
        add_count_segment(
            powerline,
            stats.untracked,
            pal.untracked_symbol.as_str(),
            pal.untracked_fg,
            pal.untracked_bg,
        );
    }
    if stats.staged >= 1 {
        add_count_segment(
            powerline,
            stats.staged,
            pal.staged_symbol.as_str(),
            pal.staged_fg,
            pal.staged_bg,
        );
    }
    if stats.conflicted >= 1 {
        add_count_segment(
            powerline,
            stats.conflicted,
            pal.conflicted_symbol.as_str(),
            pal.conflicted_fg,
            pal.conflicted_bg,
        );
    }
    if stats.remote {
        let mut remote = String::new();
        remote.append("\u{e709}");
        if stats.ahead > 0 || stats.behind > 0 {
            remote.append(" ");
        }
        if stats.ahead > 0 {
            push_dec_u64_str(&mut remote, stats.ahead);
            remote.append("\u{f062}");
            remote.append(" ");
        }
        if stats.behind > 0 {
            push_dec_u64_str(&mut remote, stats.behind);
            remote.append("\u{f063}");
        }
        proof {
            reveal_strlit("\u{e709}");
            reveal_strlit(" ");
            reveal_strlit("\u{f062}");
            reveal_strlit("\u{f063}");
            assert(remote@ =~= remote_content(stats.ahead as nat, stats.behind as nat));
        }
        powerline.add_segment(remote.as_str(), Style::simple(pal.remote_fg, pal.remote_bg));
    }
    proof {
        assert(powerline.seg_log@ =~= old(powerline).seg_log@ + git_segments(
            *stats,
            *pal,
            old(powerline).direction,
        ));
    }
}

/// Appends the decimal rendering of a 32-bit count.
fn push_dec_u64_str(out: &mut String, n: u32)
    ensures
        final(out)@ == old(out)@ + dec_rep(n as nat),
{
    crate::text::push_dec_u64(out, n as u64);
}

/// The repository status producer.  It holds the summary the driver
/// collected; with none (no repository, or the query failed) it appends
/// nothing, so a failed lookup never aborts the prompt.
pub struct Git<S> {
    pub scheme: PhantomData<S>,
    pub stats: Option<GitStats>,
}

pub trait GitScheme: DefaultColors {
    fn git_remote_bg() -> Color {
        Self::default_bg()
    }

    fn git_remote_fg() -> Color {
        Self::default_fg()
    }

    fn git_staged_bg() -> Color {
        Self::default_bg()
    }

    fn git_staged_fg() -> Color {
        Self::default_fg()
    }

    fn git_notstaged_bg() -> Color {
        Self::default_bg()
    }

    fn git_notstaged_fg() -> Color {
        Self::default_fg()
    }

    fn git_untracked_bg() -> Color {
        Self::default_bg()
    }

    fn git_untracked_fg() -> Color {
        Self::default_fg()
    }

    fn git_conflicted_bg() -> Color {
        Self::default_bg()
    }

    fn git_conflicted_fg() -> Color {
        Self::default_fg()
    }

    fn git_repo_clean_bg() -> Color {
        Self::default_bg()
    }

    fn git_repo_clean_fg() -> Color {
        Self::default_fg()
    }

    fn git_repo_dirty_bg() -> Color {
        Self::default_bg()
    }

    fn git_repo_dirty_fg() -> Color {
        Self::default_fg()
    }

    fn not_staged_symbol() -> &'static str {
        "\u{eae9}"
    }

    fn staged_symbol() -> &'static str {
        "+"
    }

    fn untracked_symbol() -> &'static str {
        "?"
    }

    fn conflicted_symbol() -> &'static str {
        "\u{273c}"
    }
}

impl GitStats {
    /// An identical copy of this summary.
    pub fn duplicate(&self) -> (r: GitStats)
        ensures
            r == *self,
    {
        GitStats {
            untracked: self.untracked,
            conflicted: self.conflicted,
            non_staged: self.non_staged,
            ahead: self.ahead,
            behind: self.behind,
            staged: self.staged,
            remote: self.remote,
            branch_name: self.branch_name.clone(),
        }
    }
}

impl<S: GitScheme> Git<S> {
    /// A producer with no summary: it appends nothing.
    pub fn new() -> (r: Git<S>)
        ensures
            r.stats is None,
    {
        Git { scheme: PhantomData, stats: None }
    }

    /// A producer that renders the given summary.
    pub fn with_stats(stats: GitStats) -> (r: Git<S>)
        ensures
            r.stats == Some(stats),
    {
        Git { scheme: PhantomData, stats: Some(stats) }
    }
}

impl<S: GitScheme> Module for Git<S> {
    fn append_segments(&mut self, powerline: &mut Powerline)
        ensures
            old(self).stats is None ==> *final(powerline) == *old(powerline),
            old(self).stats is Some ==> exists|pal: GitPalette|
                final(powerline).seg_log@ == old(powerline).seg_log@ + #[trigger] git_segments(
                    old(self).stats.unwrap(),
                    pal,
                    old(powerline).direction,
                ),
    {
        match &self.stats {
            None => {},
            Some(stats) => {
                let pal = GitPalette {
                    repo_dirty_fg: S::git_repo_dirty_fg(),
                    repo_dirty_bg: S::git_repo_dirty_bg(),
                    repo_clean_fg: S::git_repo_clean_fg(),
                    repo_clean_bg: S::git_repo_clean_bg(),
                    notstaged_fg: S::git_notstaged_fg(),
                    notstaged_bg: S::git_notstaged_bg(),
                    untracked_fg: S::git_untracked_fg(),
                    untracked_bg: S::git_untracked_bg(),
                    staged_fg: S::git_staged_fg(),
                    staged_bg: S::git_staged_bg(),
                    conflicted_fg: S::git_conflicted_fg(),
                    conflicted_bg: S::git_conflicted_bg(),
                    remote_fg: S::git_remote_fg(),
                    remote_bg: S::git_remote_bg(),
                    not_staged_symbol: S::not_staged_symbol().to_owned(),
                    staged_symbol: S::staged_symbol().to_owned(),
                    untracked_symbol: S::untracked_symbol().to_owned(),
                    conflicted_symbol: S::conflicted_symbol().to_owned(),
                };
                append_stats_segments(powerline, stats, &pal);
                proof {
                    assert(powerline.seg_log@ == old(powerline).seg_log@ + git_segments(
                        old(self).stats.unwrap(),
                        pal,
                        old(powerline).direction,
                    ));
                }
            },
        }
    }
}

} // verus!
