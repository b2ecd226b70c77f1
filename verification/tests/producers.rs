//! Tests of the segment producers, driven with concrete probed values.

use powerline_rs::colors::Color;
use powerline_rs::modules::{
    append_cwd_segments, append_python_segments, append_sdkman_segment, append_short_cwd_segments,
    distro_name, Cargo, ExitCode, LastCmdDuration, Module, Nvm, ReadOnly, ShellName, Spacer,
};
use powerline_rs::powerline::Powerline;
use powerline_rs::themes::RainbowTheme;

#[test]
fn cmd_segment_shows_symbol_on_success() {
    let mut pl = Powerline::new();
    powerline_rs::modules::append_cmd_segment(
        &mut pl,
        "0",
        false,
        "#",
        "$",
        Color(2),
        Color(0),
        Color(15),
        Color(160),
    );
    let r = pl.render(0);
    assert!(r.contains('$'));
    assert!(!r.contains('#'));
    assert!(r.contains("38;5;2m"));
}

#[test]
fn cmd_segment_shows_failing_status() {
    let mut pl = Powerline::new();
    powerline_rs::modules::append_cmd_segment(
        &mut pl,
        "127",
        false,
        "#",
        "$",
        Color(2),
        Color(0),
        Color(15),
        Color(160),
    );
    let r = pl.render(0);
    assert!(r.contains("127"));
    assert!(r.contains("48;5;160m"));
}

#[test]
fn cmd_segment_root_symbol() {
    let mut pl = Powerline::new();
    powerline_rs::modules::append_cmd_segment(
        &mut pl,
        "0",
        true,
        "#",
        "$",
        Color(2),
        Color(0),
        Color(15),
        Color(160),
    );
    assert!(pl.render(0).contains('#'));
}

#[test]
fn cwd_home_and_components() {
    let mut pl = Powerline::new();
    let bgs = vec![Color(1), Color(130), Color(3)];
    append_cwd_segments(
        &mut pl,
        "/home/ada/projects/demo",
        Some("/home/ada"),
        60,
        5,
        Color(15),
        &bgs,
    );
    // three segments: "~", "projects", "demo", each one leading space
    assert_eq!(pl.left_columns, 2 + 1 + 9 + 1 + 5);
    let r = pl.render(0);
    assert!(r.contains(" ~"));
    assert!(r.contains(" projects"));
    assert!(r.contains(" demo"));
    assert!(!r.contains("..."));
}

#[test]
fn cwd_root_is_a_tilde() {
    let mut pl = Powerline::new();
    let bgs = vec![Color(1)];
    append_cwd_segments(&mut pl, "/", None, 60, 5, Color(15), &bgs);
    assert_eq!(pl.left_columns, 2);
    let r = pl.render(0);
    assert!(r.contains(" ~"));
}

#[test]
fn cwd_long_path_is_truncated() {
    let mut pl = Powerline::new();
    let bgs = vec![Color(1), Color(2)];
    append_cwd_segments(
        &mut pl,
        "/a/b/c/d/e/f/g/h",
        None,
        10,
        4,
        Color(15),
        &bgs,
    );
    let r = pl.render(0);
    // wanted 4: first two components, an ellipsis, the last two.
    assert!(r.contains(" a"));
    assert!(r.contains(" b"));
    assert!(r.contains(" ..."));
    assert!(r.contains(" g"));
    assert!(r.contains(" h"));
    assert!(!r.contains(" c"));
    assert!(!r.contains(" f"));
}

#[test]
fn sdkman_rc_java_line() {
    let mut pl = Powerline::new();
    append_sdkman_segment(
        &mut pl,
        "# comment\nother=1\njava=17.0.2-amzn\n",
        "\u{f0176}",
        Color(15),
        Color(4),
    );
    let r = pl.render(0);
    assert!(r.contains("\u{f0176} 17 corretto"));
}

#[test]
fn sdkman_rc_without_java_line_is_silent() {
    let mut pl = Powerline::new();
    append_sdkman_segment(&mut pl, "# only\nkotlin=2.0-x\n", "\u{f0176}", Color(15), Color(4));
    assert_eq!(pl.left_columns, 0);
}

#[test]
fn sdkman_value_without_distribution_is_silent() {
    let mut pl = Powerline::new();
    append_sdkman_segment(&mut pl, "java=17\n", "\u{f0176}", Color(15), Color(4));
    assert_eq!(pl.left_columns, 0);
}

#[test]
fn distro_names() {
    assert_eq!(distro_name("amzn"), "corretto");
    assert_eq!(distro_name("graal"), "GraalVM");
    assert_eq!(distro_name("graalce"), "GraalVM");
    assert_eq!(distro_name("open"), "OpenJDK");
    assert_eq!(distro_name("zulu"), "Zulu");
    assert_eq!(distro_name("tem"), "tem");
}

#[test]
fn python_venv_segments() {
    let mut pl = Powerline::new();
    append_python_segments(
        &mut pl,
        Some("/home/ada/.venvs/demo"),
        false,
        Some("3.12.1\n"),
        None,
        Color(0),
        Color(10),
        Color(0),
        Color(28),
    );
    let r = pl.render(0);
    assert!(r.contains("\u{e73c} demo "));
    assert!(r.contains(" 3.12.1 "));
}

#[test]
fn python_version_file_without_venv() {
    let mut pl = Powerline::new();
    append_python_segments(
        &mut pl,
        None,
        true,
        None,
        Some("3.11\n"),
        Color(0),
        Color(10),
        Color(0),
        Color(28),
    );
    let r = pl.render(0);
    assert!(r.contains("\u{e73c} \u{f150e} "));
    assert!(r.contains(" 3.11 "));
}

#[test]
fn python_nothing_probed_is_silent() {
    let mut pl = Powerline::new();
    append_python_segments(
        &mut pl,
        None,
        false,
        None,
        None,
        Color(0),
        Color(10),
        Color(0),
        Color(28),
    );
    assert_eq!(pl.left_columns, 0);
}

#[test]
fn spacer_widths() {
    let mut pl = Powerline::new();
    pl.add_module(Spacer::<RainbowTheme>::small());
    assert_eq!(pl.left_columns, 0);
    let mut pl2 = Powerline::new();
    pl2.add_module(Spacer::<RainbowTheme>::large());
    assert_eq!(pl2.left_columns, 2);
}

#[test]
fn shell_name_is_appended_verbatim() {
    let mut pl = Powerline::new();
    let mut m = ShellName::<RainbowTheme>::new(String::from("zsh"));
    m.append_segments(&mut pl);
    assert_eq!(pl.left_columns, 3);
    assert!(pl.render(0).contains("zsh"));
}

#[test]
fn duration_segment_appears_above_threshold() {
    let mut pl = Powerline::new();
    powerline_rs::modules::append_duration_segment(&mut pl, 1500, "", Color(2), Color(0));
    assert!(pl.render(0).contains(" 1.50s"));
}

#[test]
fn exit_code_producer_shows_failures_only() {
    let mut pl = Powerline::new();
    let mut ok = ExitCode::<RainbowTheme>::with_code(String::from("0"));
    ok.append_segments(&mut pl);
    assert_eq!(pl.left_columns, 0);
    let mut fail = ExitCode::<RainbowTheme>::with_code(String::from("130"));
    fail.append_segments(&mut pl);
    assert_eq!(pl.left_columns, " 130 ".chars().count());
    assert!(pl.render(0).contains("130"));
}

#[test]
fn readonly_producer_appends_lock_symbol() {
    let mut pl = Powerline::new();
    let mut quiet = ReadOnly::<RainbowTheme>::new();
    quiet.append_segments(&mut pl);
    assert_eq!(pl.left_columns, 0);
    let mut locked = ReadOnly::<RainbowTheme>::with_status(true);
    locked.append_segments(&mut pl);
    assert!(pl.render(0).contains('\u{f0221}'));
}

#[test]
fn cargo_producer_appends_icon_when_manifest_found() {
    let mut pl = Powerline::new();
    let mut absent = Cargo::<RainbowTheme>::new();
    absent.append_segments(&mut pl);
    assert_eq!(pl.left_columns, 0);
    let mut present = Cargo::<RainbowTheme>::with_manifest(true);
    present.append_segments(&mut pl);
    assert!(pl.render(0).contains('\u{e68b}'));
}

#[test]
fn nvm_producer_prefers_active_version() {
    let mut pl = Powerline::new();
    let mut m = Nvm::<RainbowTheme>::with_versions(
        Some(String::from("v20.1.0")),
        Some(String::from("v18")),
    );
    m.append_segments(&mut pl);
    let r = pl.render(0);
    assert!(r.contains("\u{ed0d} v20.1.0"));
    assert!(!r.contains("v18"));

    let mut pl2 = Powerline::new();
    let mut m2 = Nvm::<RainbowTheme>::with_versions(None, Some(String::from("v18")));
    m2.append_segments(&mut pl2);
    assert!(pl2.render(0).contains("\u{ed0d} v18"));
}

#[test]
fn duration_producer_respects_threshold() {
    let mut pl = Powerline::new();
    let mut fast = LastCmdDuration::<RainbowTheme>::new(Some(4), 5);
    fast.append_segments(&mut pl);
    assert_eq!(pl.left_columns, 0);
    let mut slow = LastCmdDuration::<RainbowTheme>::new(Some(2500), 5);
    slow.append_segments(&mut pl);
    assert!(pl.render(0).contains(" 2.50s"));
}

#[test]
fn short_cwd_root_is_a_slash() {
    let mut pl = Powerline::new();
    append_short_cwd_segments(&mut pl, "/", None, 60, 5, Color(15), Color(4));
    assert_eq!(pl.left_columns, 3);
    assert!(pl.render(0).contains(" / "));
}

#[test]
fn short_cwd_pins_chevrons_per_segment() {
    let mut pl = Powerline::new();
    pl.set_separator(powerline_rs::powerline::Separator::Round);
    append_short_cwd_segments(
        &mut pl,
        "/home/ada/demo",
        Some("/home/ada"),
        60,
        5,
        Color(15),
        Color(4),
    );
    let r = pl.render(0);
    assert!(r.contains(" ~"));
    assert!(r.contains(" demo"));
    // The boundary between the two segments draws the pinned chevron, not
    // the ambient round separator.
    assert!(r.contains('\u{e0b0}'));
}
