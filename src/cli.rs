use vstd::prelude::*;

verus! {

/// The command line of the runtime.
pub struct CLI {
    /// Print debug information.
    pub debug: bool,
    pub command: Command,
}

pub enum Command {
    /// Run a container from a root directory.
    Run(RunOptions),
}

pub struct RunOptions {
    /// Command to execute inside the container.
    pub exec_command: String,
    /// Root directory of the container.
    pub mount_dir: String,
    /// More directories to mount inside the container, as `source:destination`.
    pub addmntpts: Vec<String>,
    /// User id to take inside the container.
    pub uid: u32,
}

} // verus!
