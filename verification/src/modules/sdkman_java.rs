//! A producer that appends the java version and distribution a local
//! manager's rc file pins.

use vstd::prelude::*;

use core::marker::PhantomData;

use crate::colors::Color;
use crate::modules::Module;
use crate::powerline::{simple_style, Direction, Powerline, SegRec, Style};
use crate::text::{
    find_char, find_char_from, is_prefix, spec_split, split_on_char, str_eq, str_starts_with,
    str_views,
};
use crate::themes::DefaultColors;

verus! {

/// The java-version producer: the rc file's contents, as the driver read
/// them.
pub struct SdkmanJava<S> {
    pub sdkmanrc: Option<String>,
    pub scheme: PhantomData<S>,
}

pub trait SdkmanScheme: DefaultColors {
    fn sdkman_fg() -> Color {
        Self::default_fg()
    }

    fn sdkman_bg() -> Color {
        Self::default_fg()
    }

    fn icon() -> &'static str {
        "\u{f0176}"
    }
}

impl<S: SdkmanScheme> SdkmanJava<S> {
    /// A producer with no rc file; it appends nothing.
    pub fn new() -> (r: SdkmanJava<S>)
        ensures
            r.sdkmanrc is None,
    {
        SdkmanJava { sdkmanrc: None, scheme: PhantomData }
    }

    /// A producer with the rc file's contents.
    pub fn with_rc(sdkmanrc: Option<String>) -> (r: SdkmanJava<S>)
        ensures
            r.sdkmanrc == sdkmanrc,
    {
        SdkmanJava { sdkmanrc, scheme: PhantomData }
    }
}

/// Whether a line pins the java version: not a comment, and starting with
/// the java key.
pub open spec fn is_java_line(l: Seq<char>) -> bool {
    !is_prefix(l, "#"@) && is_prefix(l, "java="@)
}

/// The value of the first java line, if any.
pub open spec fn first_java_value(ls: Seq<Seq<char>>) -> Option<Seq<char>>
    decreases ls.len(),
{
    if ls.len() == 0 {
        None
    } else if is_java_line(ls[0]) {
        Some(ls[0].skip(5))
    } else {
        first_java_value(ls.drop_first())
    }
}

/// The friendly name of a java distribution tag; an unknown tag is shown
/// as it stands.
pub open spec fn distro_name_spec(d: Seq<char>) -> Seq<char> {
    if d == "amzn"@ {
        "corretto"@
    } else if d == "graal"@ || d == "graalce"@ {
        "GraalVM"@
    } else if d == "open"@ {
        "OpenJDK"@
    } else if d == "zulu"@ {
        "Zulu"@
    } else {
        d
    }
}

/// The friendly name of a java distribution tag.
pub fn distro_name(distribution: &str) -> (r: String)
    ensures
        r@ == distro_name_spec(distribution@),
{
    if str_eq(distribution, "amzn") {
        "corretto".to_owned()
    } else if str_eq(distribution, "graal") || str_eq(distribution, "graalce") {
        "GraalVM".to_owned()
    } else if str_eq(distribution, "open") {
        "OpenJDK".to_owned()
    } else if str_eq(distribution, "zulu") {
        "Zulu".to_owned()
    } else {
        distribution.to_owned()
    }
}

/// The major part of a version: what stands before the first dot.
pub open spec fn major_version(v: Seq<char>) -> Seq<char> {
    match find_char_from(v, '.', 0) {
        Some(j) => v.take(j),
        None => v,
    }
}

/// Exactly the segments the producer appends for an rc file: one segment
/// of the icon, the major java version and the distribution's name, when
/// the file pins a java version of the form version-distribution; nothing
/// otherwise.
pub open spec fn sdkman_segments(
    rc: Seq<char>,
    icon: Seq<char>,
    fg: Color,
    bg: Color,
    dir: Direction,
) -> Seq<SegRec> {
    match first_java_value(spec_split(rc, '\n')) {
        Some(value) => match find_char_from(value, '-', 0) {
            Some(i) => seq![
                SegRec {
                    content: icon + seq![' '] + major_version(value.take(i)) + seq![' ']
                        + distro_name_spec(value.skip(i + 1)),
                    style: simple_style(fg, bg),
                    padded: true,
                    dir,
                },
            ],
            None => Seq::<SegRec>::empty(),
        },
        None => Seq::<SegRec>::empty(),
    }
}

/// Appends the java segment an rc file asks for.
pub fn append_sdkman_segment(
    powerline: &mut Powerline,
    sdkmanrc: &str,
    icon: &str,
    fg: Color,
    bg: Color,
)
    requires
        old(powerline).wf(),
    ensures
        final(powerline).wf(),
        final(powerline).direction == old(powerline).direction,
        final(powerline).shell == old(powerline).shell,
        final(powerline).separator == old(powerline).separator,
        final(powerline).seg_log@ == old(powerline).seg_log@ + sdkman_segments(
            sdkmanrc@,
            icon@,
            fg,
            bg,
            old(powerline).direction,
        ),
{
    let ghost segs = sdkman_segments(sdkmanrc@, icon@, fg, bg, old(powerline).direction);
    let lines = split_on_char(sdkmanrc, '\n');
    let ghost lviews = str_views(lines@);
    let mut k: usize = 0;
    let mut found: Option<String> = None;
    proof {
        assert(lviews.skip(0) =~= lviews);
    }
    while k < lines.len() && found.is_none()
        invariant
            k <= lines@.len(),
            lviews == str_views(lines@),
            match found {
                Some(v) => first_java_value(lviews) == Some(v@),
                None => first_java_value(lviews) == first_java_value(lviews.skip(k as int)),
            },
        decreases lines@.len() - k,
    {
        let line = &lines[k];
        let not_comment = !str_starts_with(line.as_str(), "#");
        let is_java = str_starts_with(line.as_str(), "java=");
        proof {
            assert(lviews.skip(k as int)[0] == line@);
        }
        if not_comment && is_java {
            let n = line.as_str().unicode_len();
            proof {
                reveal_strlit("java=");
            }
            let value = line.as_str().substring_char(5, n).to_owned();
            proof {
                assert(value@ =~= line@.skip(5));
            }
            found = Some(value);
        } else {
            proof {
                assert(lviews.skip(k as int).drop_first() =~= lviews.skip(k + 1));
            }
        }
        k = k + 1;
    }
    proof {
        if found is None {
            assert(k == lines@.len());
            assert(lviews.skip(k as int) =~= Seq::<Seq<char>>::empty());
        }
    }
    match found {
        None => {
            proof {
                assert(powerline.seg_log@ =~= old(powerline).seg_log@ + segs);
            }
        },
        Some(value) => {
            match find_char(value.as_str(), '-') {
                None => {
                    proof {
                        assert(powerline.seg_log@ =~= old(powerline).seg_log@ + segs);
                    }
                },
                Some(i) => {
                    let vn = value.as_str().unicode_len();
                    let version = value.as_str().substring_char(0, i);
                    let distribution = value.as_str().substring_char(i + 1, vn);
                    proof {
                        assert(version@ =~= value@.take(i as int));
                        assert(distribution@ =~= value@.skip(i + 1));
                    }
                    let major = match find_char(version, '.') {
                        Some(j) => version.substring_char(0, j),
                        None => version,
                    };
                    proof {
                        assert(major@ =~= major_version(value@.take(i as int)));
                    }
                    let mut content = icon.to_owned();
                    content.append(" ");
                    content.append(major);
                    content.append(" ");
                    let dn = distro_name(distribution);
                    content.append(dn.as_str());
                    proof {
                        reveal_strlit(" ");
                        assert(content@ =~= icon@ + seq![' '] + major_version(
                            value@.take(i as int),
                        ) + seq![' '] + distro_name_spec(value@.skip(i + 1)));
                    }
                    powerline.add_segment(content.as_str(), Style::simple(fg, bg));
                    proof {
                        assert(powerline.seg_log@ =~= old(powerline).seg_log@ + segs);
                    }
                },
            }
        },
    }
}

impl<S: SdkmanScheme> Module for SdkmanJava<S> {
    fn append_segments(&mut self, powerline: &mut Powerline)
        ensures
            old(self).sdkmanrc is None ==> *final(powerline) == *old(powerline),
            old(self).sdkmanrc is Some ==> exists|icon: Seq<char>, fg: Color, bg: Color|
                final(powerline).seg_log@ == old(powerline).seg_log@ + #[trigger] sdkman_segments(
                    old(self).sdkmanrc.unwrap()@,
                    icon,
                    fg,
                    bg,
                    old(powerline).direction,
                ),
    {
        match &self.sdkmanrc {
            None => {},
            Some(rc) => {
                let icon = S::icon();
                let fg = S::sdkman_fg();
                let bg = S::sdkman_bg();
                append_sdkman_segment(powerline, rc.as_str(), icon, fg, bg);
                proof {
                    assert(powerline.seg_log@ == old(powerline).seg_log@ + sdkman_segments(
                        old(self).sdkmanrc.unwrap()@,
                        icon@,
                        fg,
                        bg,
                        old(powerline).direction,
                    ));
                }
            },
        }
    }
}

} // verus!
