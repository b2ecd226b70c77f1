//! The prompt configuration model: which producers run on each line, in
//! which order, and with which options.  Loading the configuration from disk
//! is the driver's business; the model here is plain data.

use vstd::prelude::*;

verus! {

/// Runtime facts the driver supplies once per prompt render.
pub trait TerminalRuntimeMetadata {
    /// The terminal width in columns.
    fn total_columns(&self) -> usize;

    /// How long the last command ran, in milliseconds, if known.
    fn last_command_duration(&self) -> Option<u64>;

    /// The last command's exit status, as the shell reported it.
    fn last_command_status(&self) -> &str;
}

/// A whole prompt configuration: a theme name and one entry per prompt line.
#[derive(Debug, Clone)]
pub struct Config {
    pub theme: String,
    pub rows: Vec<CommandLine>,
}

/// One prompt line: the producers of its left half, and optionally those of
/// its right half.
#[derive(Debug, Clone)]
pub struct CommandLine {
    pub left: Vec<LineSegment>,
    pub right: Option<Vec<LineSegment>>,
}

/// One configured producer (or composer directive) on a prompt line.
#[derive(Debug, Clone)]
pub enum LineSegment {
    SmallSpacer,
    LargeSpacer,
    Separator(SeparatorStyle),
    Cwd { max_length: usize, wanted_seg_num: usize, resolve_symlinks: bool },
    ReadOnly,
    Git,
    PythonEnv,
    Nvm,
    Cargo,
    Host,
    Time { format: Option<String> },
    User,
    Cmd,
    LastCmdDuration { min_run_time: u64 },
    Padding(usize),
}

/// The separator families a configuration may pick from.
#[derive(Debug, Clone)]
pub enum SeparatorStyle {
    Chevron,
    Round,
}

/// Everything the driver probed from the environment for one prompt
/// render, as plain values: producers read these instead of touching the
/// environment themselves.  A field left empty simply suppresses the
/// producers that need it.
pub struct ProbedEnvironment {
    pub cwd: Option<String>,
    pub home: Option<String>,
    pub readonly: bool,
    pub git_stats: Option<crate::modules::GitStats>,
    pub venv: Option<String>,
    pub has_pyproject: bool,
    pub python_version: Option<String>,
    pub python_version_file: Option<String>,
    pub nvm_current: Option<String>,
    pub nvmrc: Option<String>,
    pub cargo_manifest: bool,
    pub remote_session: bool,
}

impl ProbedEnvironment {
    /// A bundle with nothing probed.
    pub fn empty() -> (r: ProbedEnvironment)
        ensures
            r.cwd is None,
            r.home is None,
            !r.readonly,
            r.git_stats is None,
            r.venv is None,
            !r.has_pyproject,
            r.python_version is None,
            r.python_version_file is None,
            r.nvm_current is None,
            r.nvmrc is None,
            !r.cargo_manifest,
            !r.remote_session,
    {
        ProbedEnvironment {
            cwd: None,
            home: None,
            readonly: false,
            git_stats: None,
            venv: None,
            has_pyproject: false,
            python_version: None,
            python_version_file: None,
            nvm_current: None,
            nvmrc: None,
            cargo_manifest: false,
            remote_session: false,
        }
    }
}

impl Default for Config {
    /// The built-in configuration: a first line with working directory and
    /// repository status on the left and language markers on the right, and
    /// a second line with the last command's duration and status.
    fn default() -> (c: Config)
        ensures
            c.theme@ == "rainbow"@,
            c.rows@.len() == 2,
            c.rows@[0].left@ == seq![
                LineSegment::SmallSpacer,
                LineSegment::ReadOnly,
                LineSegment::Cwd { max_length: 60, wanted_seg_num: 5, resolve_symlinks: false },
                LineSegment::SmallSpacer,
                LineSegment::Git,
            ],
            c.rows@[0].right is Some,
            c.rows@[0].right.unwrap()@ == seq![
                LineSegment::Separator(SeparatorStyle::Round),
                LineSegment::Cargo,
                LineSegment::PythonEnv,
                LineSegment::Padding(0),
            ],
            c.rows@[1].left@ == seq![
                LineSegment::LastCmdDuration { min_run_time: 5 },
                LineSegment::Cmd,
            ],
            c.rows@[1].right is None,
    {
        let first = CommandLine {
            left: vec![
                LineSegment::SmallSpacer,
                LineSegment::ReadOnly,
                LineSegment::Cwd { max_length: 60, wanted_seg_num: 5, resolve_symlinks: false },
                LineSegment::SmallSpacer,
                LineSegment::Git,
            ],
            right: Some(
                vec![
                    LineSegment::Separator(SeparatorStyle::Round),
                    LineSegment::Cargo,
                    LineSegment::PythonEnv,
                    LineSegment::Padding(0),
                ],
            ),
        };
        let second = CommandLine {
            left: vec![LineSegment::LastCmdDuration { min_run_time: 5 }, LineSegment::Cmd],
            right: None,
        };
        let c = Config { theme: String::from_str("rainbow"), rows: vec![first, second] };
        proof {
            assert(c.rows@[0].left@ =~= seq![
                LineSegment::SmallSpacer,
                LineSegment::ReadOnly,
                LineSegment::Cwd { max_length: 60, wanted_seg_num: 5, resolve_symlinks: false },
                LineSegment::SmallSpacer,
                LineSegment::Git,
            ]);
            assert(c.rows@[0].right.unwrap()@ =~= seq![
                LineSegment::Separator(SeparatorStyle::Round),
                LineSegment::Cargo,
                LineSegment::PythonEnv,
                LineSegment::Padding(0),
            ]);
            assert(c.rows@[1].left@ =~= seq![
                LineSegment::LastCmdDuration { min_run_time: 5 },
                LineSegment::Cmd,
            ]);
        }
        c
    }
}

} // verus!
