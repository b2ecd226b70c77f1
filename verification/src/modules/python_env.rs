//! A producer for the active python environment: the virtual environment's
//! name with the interpreter's version, or the project's pinned version.

use vstd::prelude::*;

use core::marker::PhantomData;

use crate::colors::Color;
use crate::modules::Module;
use crate::powerline::{simple_style, Direction, Powerline, SegRec, Style};
use crate::text::{opt_view, spec_split, split_on_char, trim_spec, trim_str};
use crate::themes::DefaultColors;

verus! {

/// The python producer: the probed environment facts as plain values.  The
/// virtual environment comes as its path, the interpreter version as the
/// text the interpreter printed, the pinned version as the version file's
/// contents.
pub struct PythonEnv<S: PythonEnvScheme> {
    pub venv: Option<String>,
    pub has_pyproject: bool,
    pub python_version: Option<String>,
    pub version_file: Option<String>,
    pub scheme: PhantomData<S>,
}

pub trait PythonEnvScheme: DefaultColors {
    fn pyenv_fg() -> Color {
        Self::default_fg()
    }

    fn pyenv_bg() -> Color {
        Self::default_bg()
    }

    fn pyver_fg() -> Color {
        Self::default_fg()
    }

    fn pyver_bg() -> Color {
        Self::default_bg()
    }
}

impl<S: PythonEnvScheme> PythonEnv<S> {
    /// A producer with nothing probed; it appends nothing.
    pub fn new() -> (r: PythonEnv<S>)
        ensures
            r.venv is None,
            !r.has_pyproject,
            r.python_version is None,
            r.version_file is None,
    {
        PythonEnv {
            venv: None,
            has_pyproject: false,
            python_version: None,
            version_file: None,
            scheme: PhantomData,
        }
    }

    /// A producer with the probes' outcomes.
    pub fn with_environment(
        venv: Option<String>,
        has_pyproject: bool,
        python_version: Option<String>,
        version_file: Option<String>,
    ) -> (r: PythonEnv<S>)
        ensures
            r.venv == venv,
            r.has_pyproject == has_pyproject,
            r.python_version == python_version,
            r.version_file == version_file,
    {
        PythonEnv { venv, has_pyproject, python_version, version_file, scheme: PhantomData }
    }
}

/// The python logo, with the project marker beside it when the directory
/// holds a project manifest.
pub open spec fn python_logo(has_pyproject: bool) -> Seq<char> {
    if has_pyproject {
        "\u{e73c} \u{f150e}"@
    } else {
        "\u{e73c}"@
    }
}

/// The last component of a path: what names the virtual environment.
pub open spec fn path_file_name(p: Seq<char>) -> Seq<char> {
    spec_split(p, '/').last()
}

/// Exactly the segments the python producer appends: with a virtual
/// environment, its name beside the logo and then the interpreter version;
/// without one but with a pinned version or a project manifest, the logo
/// and then the pinned version if a version file exists.
pub open spec fn python_segments(
    venv: Option<Seq<char>>,
    has_pyproject: bool,
    python_version: Option<Seq<char>>,
    version_file: Option<Seq<char>>,
    pyenv_fg: Color,
    pyenv_bg: Color,
    pyver_fg: Color,
    pyver_bg: Color,
    dir: Direction,
) -> Seq<SegRec> {
    let logo = python_logo(has_pyproject);
    match venv {
        Some(v) => seq![
            SegRec {
                content: logo + seq![' '] + path_file_name(v) + seq![' '],
                style: simple_style(pyenv_fg, pyenv_bg),
                padded: false,
                dir,
            },
            SegRec {
                content: trim_spec(
                    match python_version {
                        Some(p) => p,
                        None => Seq::<char>::empty(),
                    },
                ),
                style: simple_style(pyver_fg, pyver_bg),
                padded: true,
                dir,
            },
        ],
        None => {
            if version_file is Some || has_pyproject {
                seq![
                    SegRec {
                        content: logo + seq![' '],
                        style: simple_style(pyenv_fg, pyenv_bg),
                        padded: false,
                        dir,
                    },
                ] + (match version_file {
                    Some(pv) => seq![
                        SegRec {
                            content: trim_spec(pv),
                            style: simple_style(pyver_fg, pyenv_bg),
                            padded: true,
                            dir,
                        },
                    ],
                    None => Seq::<SegRec>::empty(),
                })
            } else {
                Seq::<SegRec>::empty()
            }
        },
    }
}

/// Appends the python environment's segments.
pub fn append_python_segments(
    powerline: &mut Powerline,
    venv: Option<&str>,
    has_pyproject: bool,
    python_version: Option<&str>,
    version_file: Option<&str>,
    pyenv_fg: Color,
    pyenv_bg: Color,
    pyver_fg: Color,
    pyver_bg: Color,
)
    requires
        old(powerline).wf(),
    ensures
        final(powerline).wf(),
        final(powerline).direction == old(powerline).direction,
        final(powerline).shell == old(powerline).shell,
        final(powerline).separator == old(powerline).separator,
        final(powerline).seg_log@ == old(powerline).seg_log@ + python_segments(
            opt_view(venv),
            has_pyproject,
            opt_view(python_version),
            opt_view(version_file),
            pyenv_fg,
            pyenv_bg,
            pyver_fg,
            pyver_bg,
            old(powerline).direction,
        ),
{
    let ghost segs = python_segments(
        opt_view(venv),
        has_pyproject,
        opt_view(python_version),
        opt_view(version_file),
        pyenv_fg,
        pyenv_bg,
        pyver_fg,
        pyver_bg,
        old(powerline).direction,
    );
    let logo: &str = if has_pyproject {
        "\u{e73c} \u{f150e}"
    } else {
        "\u{e73c}"
    };
    match venv {
        Some(v) => {
            let parts = split_on_char(v, '/');
            proof {
                assert(crate::text::str_views(parts@).len() >= 1);
            }
            let name = &parts[parts.len() - 1];
            let mut c1 = logo.to_owned();
            c1.append(" ");
            c1.append(name.as_str());
            c1.append(" ");
            proof {
                reveal_strlit(" ");
                assert(crate::text::str_views(parts@).last() == name@);
                assert(c1@ =~= python_logo(has_pyproject) + seq![' '] + path_file_name(v@) + seq![
                    ' ',
                ]);
            }
            powerline.add_short_segment(c1.as_str(), Style::simple(pyenv_fg, pyenv_bg));
            let ver = match python_version {
                Some(p) => trim_str(p),
                None => {
                    let e = String::new();
                    proof {
                        assert(e@ =~= trim_spec(Seq::<char>::empty()));
                    }
                    e
                },
            };
            powerline.add_segment(ver.as_str(), Style::simple(pyver_fg, pyver_bg));
            proof {
                assert(powerline.seg_log@ =~= old(powerline).seg_log@ + segs);
            }
        },
        None => {
            match version_file {
                Some(pv) => {
                    let mut c1 = logo.to_owned();
                    c1.append(" ");
                    proof {
                        reveal_strlit(" ");
                        assert(c1@ =~= python_logo(has_pyproject) + seq![' ']);
                    }
                    powerline.add_short_segment(c1.as_str(), Style::simple(pyenv_fg, pyenv_bg));
                    let ver = trim_str(pv);
                    powerline.add_segment(ver.as_str(), Style::simple(pyver_fg, pyenv_bg));
                    proof {
                        assert(powerline.seg_log@ =~= old(powerline).seg_log@ + segs);
                    }
                },
                None => {
                    if has_pyproject {
                        let mut c1 = logo.to_owned();
                        c1.append(" ");
                        proof {
                            reveal_strlit(" ");
                            assert(c1@ =~= python_logo(has_pyproject) + seq![' ']);
                        }
                        powerline.add_short_segment(
                            c1.as_str(),
                            Style::simple(pyenv_fg, pyenv_bg),
                        );
                        proof {
                            assert(powerline.seg_log@ =~= old(powerline).seg_log@ + segs);
                        }
                    } else {
                        proof {
                            assert(powerline.seg_log@ =~= old(powerline).seg_log@ + segs);
                        }
                    }
                },
            }
        },
    }
}

impl<S: PythonEnvScheme> Module for PythonEnv<S> {
    fn append_segments(&mut self, powerline: &mut Powerline)
        ensures
            (old(self).venv is None && old(self).version_file is None && !old(
                self,
            ).has_pyproject) ==> final(powerline).seg_log@ == old(powerline).seg_log@,
    {
        let venv_ref: Option<&str> = match &self.venv {
            Some(v) => Some(v.as_str()),
            None => None,
        };
        let pyver_ref: Option<&str> = match &self.python_version {
            Some(v) => Some(v.as_str()),
            None => None,
        };
        let vfile_ref: Option<&str> = match &self.version_file {
            Some(v) => Some(v.as_str()),
            None => None,
        };
        append_python_segments(
            powerline,
            venv_ref,
            self.has_pyproject,
            pyver_ref,
            vfile_ref,
            S::pyenv_fg(),
            S::pyenv_bg(),
            S::pyver_fg(),
            S::pyver_bg(),
        );
    }
}

} // verus!
