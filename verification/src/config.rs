//! Operator-facing configuration: the command shape and the options that
//! drive a restore run.

use vstd::prelude::*;

verus! {

/// Options shared by the bare invocation and the `restore` subcommand.
/// These are fixed for the whole run.
pub struct SharedOptions {
    /// Alternate manifest file to read instead of the default one under the
    /// install root.
    pub crates_file: Option<String>,
    /// Retarget every build request to this machine, ignoring any recorded
    /// target triple.
    pub fix_target: bool,
    /// Build the latest available version instead of pinning the recorded one.
    pub install_latest: bool,
    /// Rebuild every recorded package even when its binaries are all present.
    pub force_all: bool,
    /// Emit a per-package line before building.
    pub verbose: bool,
    /// Stop the run at the first package that fails to build.
    pub quick_fail: bool,
}

/// The one subcommand the tool accepts.
pub enum RestoreCommand {
    Restore(SharedOptions),
}

/// The parsed command line: either a subcommand with its options, or the
/// options given directly.
pub struct Config {
    pub cmd: Option<RestoreCommand>,
    pub opts: SharedOptions,
}

/// The options a run actually uses: those of the subcommand when one was
/// given, the directly-supplied ones otherwise.
pub fn effective_options(config: Config) -> (r: SharedOptions)
    ensures
        config.cmd matches Some(RestoreCommand::Restore(o)) ==> r == o,
        config.cmd is None ==> r == config.opts,
{
    match config.cmd {
        Some(RestoreCommand::Restore(o)) => o,
        None => config.opts,
    }
}

} // verus!
