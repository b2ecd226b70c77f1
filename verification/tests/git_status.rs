//! Tests of the repository status collector and its producer.

use powerline_rs::colors::Color;
use powerline_rs::modules::{GitPalette, GitStats};
use powerline_rs::powerline::Powerline;

fn stats(untracked: u32, conflicted: u32, non_staged: u32, staged: u32) -> GitStats {
    GitStats {
        untracked,
        conflicted,
        non_staged,
        ahead: 0,
        behind: 0,
        staged,
        remote: false,
        branch_name: String::from("main"),
    }
}

#[test]
fn dirty_iff_any_counter_positive() {
    assert!(!stats(0, 0, 0, 0).is_dirty());
    assert!(stats(1, 0, 0, 0).is_dirty());
    assert!(stats(0, 1, 0, 0).is_dirty());
    assert!(stats(0, 0, 1, 0).is_dirty());
    assert!(stats(0, 0, 0, 1).is_dirty());
    assert!(stats(2, 3, 4, 5).is_dirty());
}

#[test]
fn flipping_one_counter_toggles_dirty() {
    for k in 0..4 {
        let mut clean = [0u32; 4];
        assert!(!stats(clean[0], clean[1], clean[2], clean[3]).is_dirty());
        clean[k] = 7;
        assert!(stats(clean[0], clean[1], clean[2], clean[3]).is_dirty());
        clean[k] = 0;
        assert!(!stats(clean[0], clean[1], clean[2], clean[3]).is_dirty());
    }
}

#[test]
fn two_untracked_files_and_nothing_else() {
    let s = powerline_rs::modules::parse_porcelain_status("## master\n?? a.txt\n?? b.txt\n");
    assert_eq!(s.untracked, 2);
    assert_eq!(s.staged, 0);
    assert_eq!(s.non_staged, 0);
    assert_eq!(s.conflicted, 0);
    assert_eq!(s.ahead, 0);
    assert_eq!(s.behind, 0);
    assert!(!s.remote);
    assert_eq!(s.branch_name, "master");
    assert!(s.is_dirty());
}

#[test]
fn unborn_repository_yields_zero_counts() {
    let s = powerline_rs::modules::parse_porcelain_status("## No commits yet on master\n");
    assert_eq!(s.untracked, 0);
    assert_eq!(s.staged, 0);
    assert_eq!(s.non_staged, 0);
    assert_eq!(s.conflicted, 0);
    assert_eq!(s.ahead, 0);
    assert_eq!(s.behind, 0);
    assert!(!s.remote);
    assert_eq!(s.branch_name, "master");
    assert!(!s.is_dirty());
}

#[test]
fn classification_with_divergence() {
    let out = "## main...origin/main [ahead 3, behind 2]\nM  staged.rs\n M worktree.rs\nUU conflict.rs\nMM both.rs\n?? new.rs\n";
    let s = powerline_rs::modules::parse_porcelain_status(out);
    assert_eq!(s.branch_name, "main");
    assert!(s.remote);
    assert_eq!(s.ahead, 3);
    assert_eq!(s.behind, 2);
    // "M " and "MM" count as staged; " M" and "MM" count as not staged;
    // "UU" is conflicted only; "??" is untracked only.
    assert_eq!(s.staged, 2);
    assert_eq!(s.non_staged, 2);
    assert_eq!(s.conflicted, 1);
    assert_eq!(s.untracked, 1);
}

#[test]
fn conflict_takes_precedence_over_staged() {
    let s = powerline_rs::modules::parse_porcelain_status("## b\nAA x\nDD y\nU  z\n");
    assert_eq!(s.conflicted, 3);
    assert_eq!(s.staged, 0);
    assert_eq!(s.non_staged, 0);
}

#[test]
fn ahead_only_divergence() {
    let s = powerline_rs::modules::parse_porcelain_status("## dev...origin/dev [ahead 12]\n");
    assert!(s.remote);
    assert_eq!(s.ahead, 12);
    assert_eq!(s.behind, 0);
    assert_eq!(s.branch_name, "dev");
}

#[test]
fn upstream_without_divergence() {
    let s = powerline_rs::modules::parse_porcelain_status("## dev...origin/dev\n");
    assert!(s.remote);
    assert_eq!(s.ahead, 0);
    assert_eq!(s.behind, 0);
    assert_eq!(s.branch_name, "dev");
}

fn palette() -> GitPalette {
    GitPalette {
        repo_dirty_fg: Color(15),
        repo_dirty_bg: Color(202),
        repo_clean_fg: Color(15),
        repo_clean_bg: Color(4),
        notstaged_fg: Color(15),
        notstaged_bg: Color(124),
        untracked_fg: Color(15),
        untracked_bg: Color(160),
        staged_fg: Color(15),
        staged_bg: Color(22),
        conflicted_fg: Color(15),
        conflicted_bg: Color(9),
        remote_fg: Color(250),
        remote_bg: Color(240),
        not_staged_symbol: String::from("\u{eae9}"),
        staged_symbol: String::from("+"),
        untracked_symbol: String::from("?"),
        conflicted_symbol: String::from("\u{273c}"),
    }
}

#[test]
fn producer_renders_branch_and_counters() {
    let mut pl = Powerline::new();
    let s = GitStats {
        untracked: 2,
        conflicted: 0,
        non_staged: 1,
        ahead: 0,
        behind: 0,
        staged: 3,
        remote: false,
        branch_name: String::from("main"),
    };
    powerline_rs::modules::append_stats_segments(&mut pl, &s, &palette());
    let r = pl.render(0);
    assert!(r.contains("\u{e0a0} main"));
    assert!(r.contains("1 \u{eae9}"));
    assert!(r.contains("2 ?"));
    assert!(r.contains("3 +"));
    assert!(!r.contains('\u{273c}'));
    assert!(!r.contains('\u{e709}'));
}

#[test]
fn producer_renders_divergence() {
    let mut pl = Powerline::new();
    let s = GitStats {
        untracked: 0,
        conflicted: 0,
        non_staged: 0,
        ahead: 4,
        behind: 7,
        staged: 0,
        remote: true,
        branch_name: String::from("main"),
    };
    powerline_rs::modules::append_stats_segments(&mut pl, &s, &palette());
    let r = pl.render(0);
    assert!(r.contains("\u{e709} 4\u{f062} 7\u{f063}"));
}

#[test]
fn clean_repository_shows_only_branch() {
    let mut pl = Powerline::new();
    let s = stats(0, 0, 0, 0);
    powerline_rs::modules::append_stats_segments(&mut pl, &s, &palette());
    // Exactly one segment: the branch, on the clean background.
    assert_eq!(pl.left_columns, " \u{e0a0} main ".chars().count());
    let r = pl.render(0);
    assert!(r.contains("48;5;4m"));
    assert!(!r.contains("48;5;202m"));
}

#[test]
fn branch_header_parsing() {
    let (b, remote, ahead, behind) =
        powerline_rs::modules::parse_branch_header("## fix/parser...origin/fix/parser [behind 9]");
    assert_eq!(b, "fix/parser");
    assert!(remote);
    assert_eq!(ahead, 0);
    assert_eq!(behind, 9);
    let (b2, r2, a2, d2) = powerline_rs::modules::parse_branch_header("not a header");
    assert_eq!(b2, "");
    assert!(!r2);
    assert_eq!(a2, 0);
    assert_eq!(d2, 0);
}

#[test]
fn branch_name_with_dots_splits_at_upstream_marker() {
    let (b, remote, _, _) =
        powerline_rs::modules::parse_branch_header("## v1.2...origin/v1.2 [ahead 1]");
    assert_eq!(b, "v1.2");
    assert!(remote);
}

#[test]
fn entries_shorter_than_two_characters_are_ignored() {
    let s = powerline_rs::modules::parse_porcelain_status("## m\n\nX\n");
    assert!(!s.is_dirty());
}
