//! What the tool is asked to do on one run, as plain values.

use vstd::prelude::*;

use crate::paths::{join_path, joined};

verus! {

/// One invocation of the tool.
pub struct Arguments {
    /// Config file location.
    pub config: String,
    /// Only print commands and do not run anything.
    pub dry_run: bool,
    pub command: Command,
}

/// The subcommand to run.
pub enum Command {
    /// Open a workspace.
    Open(OpenArguments),
    /// Close a workspace.
    Close { workspace: String },
    /// Replace the binary with the newest release.
    Update,
}

/// Arguments of the open subcommand.
pub struct OpenArguments {
    /// Workspace to load.
    pub workspace: String,
    /// Working directory to open the workspace in.
    pub working_directory: Option<String>,
    /// Recreate the workspace if it already exists.
    pub recreate: bool,
}

/// The config file used when none is named: `config.toml` inside the
/// platform configuration directory the caller hands in.
pub fn default_config_path(config_dir: &str) -> (r: String)
    ensures
        r@ == joined(config_dir@, "config.toml"@),
{
    join_path(config_dir, "config.toml")
}

} // verus!
