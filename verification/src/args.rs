//! The command surface as plain data.  Parsing the actual command line
//! belongs to the program around the library; it hands over one of these
//! values.

use vstd::prelude::*;

verus! {

/// The whole invocation.
#[derive(Debug, Clone)]
pub struct Cli {
    pub sub: SubCmd,
}

/// The top-level command.
#[derive(Debug, Clone)]
pub enum SubCmd {
    User(UserCmd),
    Instance(InstanceCmd),
    Modloader(LoaderCmd),
}

/// User-related commands.
#[derive(Debug, Clone)]
pub struct UserCmd {
    pub cmd: UserSub,
}

/// The user subcommands.
#[derive(Debug, Clone)]
pub enum UserSub {
    Login,
    Logout { id: String },
    List,
}

/// Instance-related commands.
#[derive(Debug, Clone)]
pub struct InstanceCmd {
    pub cmd: InstanceSub,
}

/// The instance subcommands.  `parallel` is the requested worker count;
/// its default is `default_parallel`.
#[derive(Debug, Clone)]
pub enum InstanceSub {
    Run { id: String, uid: String },
    New { id: String, version: String, parallel: usize },
    List,
    VersionList,
}

/// Modloader commands.
#[derive(Debug, Clone)]
pub struct LoaderCmd {
    pub cmd: LoaderSub,
}

/// The modloader subcommands.
#[derive(Debug, Clone)]
pub enum LoaderSub {
    Install { loader: String },
}

/// The default worker count of a provisioning run.
pub fn default_parallel() -> (r: usize)
    ensures
        r == 4,
{
    4
}

} // verus!
