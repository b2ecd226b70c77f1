//! The segment producers.  Each producer implements `Module`: one call that
//! appends zero or more segments to a composer.  Producers that depend on
//! the environment carry the probed facts as plain values; the verified
//! logic that turns those facts into segments lives here.

use vstd::prelude::*;

use crate::powerline::Powerline;

mod cargo;
mod cmd;
mod cmd_duration;
mod cwd;
mod exit_code;
mod git;
mod host;
mod nvm;
mod python_env;
mod readonly;
mod sdkman_java;
mod shell_name;
mod short_cwd;
mod spacer;
mod time;
mod user;

pub use cargo::{Cargo, CargoScheme};
pub use cmd::{append_cmd_segment, Cmd, CmdScheme};
pub use cmd_duration::{append_duration_segment, nice_duration, LastCmdDuration, LastCmdDurationScheme};
pub use cwd::{append_cwd_segments, Cwd, CwdScheme};
pub use exit_code::{ExitCode, ExitCodeScheme};
pub use git::{append_stats_segments, parse_branch_header, parse_porcelain_status, Git, GitPalette, GitScheme, GitStats};
pub use host::{Host, HostScheme};
pub use nvm::{Nvm, NvmScheme};
pub use python_env::{append_python_segments, PythonEnv, PythonEnvScheme};
pub use readonly::{ReadOnly, ReadOnlyScheme};
pub use sdkman_java::{append_sdkman_segment, distro_name, SdkmanJava, SdkmanScheme};
pub use shell_name::{ShellName, ShellScheme};
pub use short_cwd::{append_short_cwd_segments, ShortCwd, ShortCwdScheme};
pub use spacer::{Spacer, SpacerScheme};
pub use time::{Time, TimeScheme};
pub use user::{User, UserScheme};

verus! {

/// A producer of prompt segments.  Its one operation appends zero or more
/// segments to the given composer: it keeps the composer well-formed, never
/// changes the side being built or the dialect, and only ever extends the
/// segment history.
pub trait Module {
    fn append_segments(&mut self, powerline: &mut Powerline)
        requires
            old(powerline).wf(),
        ensures
            final(powerline).wf(),
            final(powerline).direction == old(powerline).direction,
            final(powerline).shell == old(powerline).shell,
            old(powerline).seg_log@.is_prefix_of(final(powerline).seg_log@),
    ;
}

} // verus!
