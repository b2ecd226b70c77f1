//! Tests of the color tables, the themes, the configuration model and the
//! conf-driven assembly.

use powerline_rs::colors::{self, Color};
use powerline_rs::config::{
    CommandLine, Config, LineSegment, ProbedEnvironment, SeparatorStyle, TerminalRuntimeMetadata,
};
use powerline_rs::modules::{CmdScheme, CwdScheme, GitScheme, GitStats};
use powerline_rs::powerline::{
    Powerline, PowerlineLeftBuilder, PowerlineRightBuilder, PowerlineShellBuilder,
};
use powerline_rs::terminal::Shell;
use powerline_rs::themes::{
    CustomTheme, LightTheme, RainbowTheme, SimpleTheme, ThemeColor, ThemeEntry, ThemeValue,
};

#[test]
fn named_colors() {
    assert_eq!(colors::black(), Color(0));
    assert_eq!(colors::white(), Color(15));
    assert_eq!(colors::dark_grey(), Color(234));
    assert_eq!(colors::burnt_orange(), Color(214));
    assert_eq!(Color::from_u8(99).to_u8(), 99);
}

#[test]
fn color_lookup_by_name() {
    assert_eq!(Color::from_name("red"), Some(Color(1)));
    assert_eq!(Color::from_name("forest_green"), Some(Color(22)));
    assert_eq!(Color::from_name("no_such_color"), None);
    assert_eq!(Color::from_name(""), None);
}

#[test]
fn simple_theme_values() {
    assert_eq!(SimpleTheme::cmd_passed_bg(), Color(236));
    assert_eq!(SimpleTheme::git_repo_clean_bg(), Color(148));
    assert_eq!(SimpleTheme::path_bg_colors(), vec![Color(7)]);
}

#[test]
fn rainbow_theme_values() {
    assert_eq!(RainbowTheme::git_repo_dirty_bg(), Color(202));
    assert_eq!(RainbowTheme::cmd_user_symbol(), "\u{f105}");
    assert_eq!(
        RainbowTheme::path_bg_colors(),
        vec![Color(1), Color(130), Color(3), Color(2), Color(4), Color(55)]
    );
}

#[test]
fn light_theme_defaults() {
    assert_eq!(LightTheme::cmd_passed_bg(), Color(234));
    assert_eq!(LightTheme::path_bg_colors(), vec![Color(234)]);
}

#[test]
fn custom_theme_lookups() {
    let entries = vec![
        ThemeEntry {
            module: String::from("git"),
            property: String::from("clean_bg"),
            value: ThemeValue::Code(148),
        },
        ThemeEntry {
            module: String::from("git"),
            property: String::from("dirty_bg"),
            value: ThemeValue::Named(String::from("warning_red")),
        },
        ThemeEntry {
            module: String::from("readonly"),
            property: String::from("symbol"),
            value: ThemeValue::Text(String::from("RO")),
        },
    ];
    let theme = CustomTheme::load(Color(15), Color(0), entries);
    assert_eq!(theme.get_color("git", "clean_bg"), Some(Color(148)));
    assert_eq!(theme.get_color("git", "dirty_bg"), Some(Color(160)));
    assert_eq!(theme.get_color("git", "missing"), None);
    assert_eq!(theme.get_str("readonly", "symbol"), Some(String::from("RO")));
    assert_eq!(theme.get_str("git", "clean_bg"), None);
}

#[test]
fn default_config_shape() {
    let c = Config::default();
    assert_eq!(c.theme, "rainbow");
    assert_eq!(c.rows.len(), 2);
    assert_eq!(c.rows[0].left.len(), 5);
    assert!(c.rows[0].right.is_some());
    assert_eq!(c.rows[0].right.as_ref().unwrap().len(), 4);
    assert_eq!(c.rows[1].left.len(), 2);
    assert!(c.rows[1].right.is_none());
    assert!(matches!(c.rows[1].left[1], LineSegment::Cmd));
}

struct FakeRuntime;

impl TerminalRuntimeMetadata for FakeRuntime {
    fn total_columns(&self) -> usize {
        80
    }

    fn last_command_duration(&self) -> Option<u64> {
        Some(2500)
    }

    fn last_command_status(&self) -> &str {
        "0"
    }
}

#[test]
fn from_conf_builds_both_halves() {
    let conf = CommandLine {
        left: vec![
            LineSegment::Cwd { max_length: 60, wanted_seg_num: 5, resolve_symlinks: false },
            LineSegment::Git,
        ],
        right: Some(vec![
            LineSegment::Separator(SeparatorStyle::Round),
            LineSegment::LastCmdDuration { min_run_time: 5 },
        ]),
    };
    let mut probes = ProbedEnvironment::empty();
    probes.cwd = Some(String::from("/srv/data"));
    probes.git_stats = Some(GitStats {
        untracked: 0,
        conflicted: 0,
        non_staged: 0,
        ahead: 0,
        behind: 0,
        staged: 0,
        remote: false,
        branch_name: String::from("main"),
    });
    let pl = Powerline::from_conf::<RainbowTheme, FakeRuntime>(&conf, &FakeRuntime, &probes);
    let r = pl.render(120);
    assert!(r.contains(" srv"));
    assert!(r.contains(" data"));
    assert!(r.contains("\u{e0a0} main"));
    assert!(r.contains(" 2.50s"));
    // The right half pins the round separator family.
    assert!(r.contains('\u{e0b6}'));
}

#[test]
fn from_conf_without_right_half_ignores_width() {
    let conf = CommandLine { left: vec![LineSegment::SmallSpacer], right: None };
    let probes = ProbedEnvironment::empty();
    let a = Powerline::from_conf::<SimpleTheme, FakeRuntime>(&conf, &FakeRuntime, &probes).render(
        10,
    );
    let b = Powerline::from_conf::<SimpleTheme, FakeRuntime>(&conf, &FakeRuntime, &probes).render(
        200,
    );
    assert_eq!(a, b);
}

#[test]
fn builder_chain_renders() {
    let r = Powerline::builder()
        .set_shell(Shell::Bare)
        .add_module(powerline_rs::modules::Spacer::<SimpleTheme>::large())
        .start_right()
        .add_module(powerline_rs::modules::Spacer::<SimpleTheme>::large())
        .render(30);
    assert!(r.contains("\u{1b}[0m"));
}

#[test]
fn custom_theme_first_entry_wins() {
    let entries = vec![
        ThemeEntry {
            module: String::from("cwd"),
            property: String::from("fg"),
            value: ThemeValue::Code(1),
        },
        ThemeEntry {
            module: String::from("cwd"),
            property: String::from("fg"),
            value: ThemeValue::Code(2),
        },
    ];
    let theme = CustomTheme::load(Color(15), Color(0), entries);
    assert_eq!(theme.get_color("cwd", "fg"), Some(Color(1)));
}

#[test]
fn custom_theme_unknown_color_name_misses() {
    let entries = vec![ThemeEntry {
        module: String::from("cwd"),
        property: String::from("fg"),
        value: ThemeValue::Named(String::from("no_such")),
    }];
    let theme = CustomTheme::load(Color(15), Color(0), entries);
    assert_eq!(theme.get_color("cwd", "fg"), None);
}

#[test]
fn custom_theme_color_lists() {
    let entries = vec![
        ThemeEntry {
            module: String::from("cwd"),
            property: String::from("bg_colors"),
            value: ThemeValue::List(vec![
                ThemeColor::Code(1),
                ThemeColor::Named(String::from("orange")),
            ]),
        },
        ThemeEntry {
            module: String::from("cwd"),
            property: String::from("broken"),
            value: ThemeValue::List(vec![ThemeColor::Named(String::from("no_such"))]),
        },
    ];
    let theme = CustomTheme::load(Color(15), Color(0), entries);
    assert_eq!(theme.get_colors("cwd", "bg_colors"), Some(vec![Color(1), Color(130)]));
    assert_eq!(theme.get_colors("cwd", "broken"), None);
    assert_eq!(theme.get_colors("cwd", "missing"), None);
}
