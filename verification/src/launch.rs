//! The launch stub.  Launching the installed binary is out of scope;
//! what is modelled is the option block handed to it and the argument
//! list assembled from that block.

use vstd::prelude::*;
use crate::helpers::{get_instance_folder, join_path, spec_joined};
use crate::ms_auth::User;
use vstd::string::StringExecFns;

verus! {

/// The options of one launch: who plays, where the instance lives, and
/// the fixed launcher identity and display defaults.
#[derive(Debug)]
pub struct Options {
    pub username: String,
    pub uuid: String,
    pub token: String,
    pub executable_path: String,
    pub default_executable_path: String,
    pub jvm_arguments: Option<Vec<String>>,
    pub launcher_name: String,
    pub launcher_version: String,
    pub game_directory: String,
    pub demo: bool,
    pub custom_resolution: bool,
    pub resolution_width: String,
    pub resolution_height: String,
    pub server: String,
    pub port: String,
    pub natives_directory: String,
    pub enable_logging_config: bool,
    pub disable_multiplayer: bool,
    pub disable_chat: bool,
    pub quick_play_path: Option<String>,
    pub quick_play_singleplayer: Option<String>,
    pub quick_play_multiplayer: Option<String>,
    pub quick_play_realms: Option<String>,
}

impl Options {
    /// Builds the option block for one user and instance: the given
    /// identity, the instance's folder as game directory, the natives
    /// folder under it, and the fixed defaults.  Nothing is returned
    /// only when the platform offers no data folder.
    pub fn new(username: String, uuid: String, token: String, inst_id: String) -> (r: Option<
        Options,
    >)
        ensures
            match r {
                Some(o) => {
                    &&& o.username@ == username@
                    &&& o.uuid@ == uuid@
                    &&& o.token@ == token@
                    &&& o.executable_path@ == "java"@
                    &&& o.default_executable_path@ == "java"@
                    &&& o.jvm_arguments matches Some(v) && v@.len() == 0
                    &&& o.launcher_name@ == "vanta-launcher"@
                    &&& o.launcher_version@ == "1.0"@
                    &&& exists|root: Seq<char>|
                        o.game_directory@ == #[trigger] spec_joined(
                            root,
                            "instances/"@ + inst_id@,
                        )
                    &&& o.natives_directory@ == spec_joined(
                        o.game_directory@,
                        "versions/natives/"@,
                    )
                    &&& !o.demo
                    &&& !o.custom_resolution
                    &&& o.resolution_width@ == "800"@
                    &&& o.resolution_height@ == "600"@
                    &&& o.server@.len() == 0
                    &&& o.port@ == "25565"@
                    &&& !o.enable_logging_config
                    &&& !o.disable_multiplayer
                    &&& !o.disable_chat
                    &&& o.quick_play_path is None
                    &&& o.quick_play_singleplayer is None
                    &&& o.quick_play_multiplayer is None
                    &&& o.quick_play_realms is None
                },
                None => true,
            },
    {
        let game_directory = match get_instance_folder(inst_id.as_str()) {
            Some(dir) => dir,
            None => {
                return None;
            },
        };
        let natives_directory = join_path(game_directory.as_str(), "versions/natives/");
        Some(
            Options {
                username,
                uuid,
                token,
                executable_path: String::from_str("java"),
                default_executable_path: String::from_str("java"),
                jvm_arguments: Some(Vec::new()),
                launcher_name: String::from_str("vanta-launcher"),
                launcher_version: String::from_str("1.0"),
                game_directory,
                demo: false,
                custom_resolution: false,
                resolution_width: String::from_str("800"),
                resolution_height: String::from_str("600"),
                server: String::new(),
                port: String::from_str("25565"),
                natives_directory,
                enable_logging_config: false,
                disable_multiplayer: false,
                disable_chat: false,
                quick_play_path: None,
                quick_play_singleplayer: None,
                quick_play_multiplayer: None,
                quick_play_realms: None,
            },
        )
    }
}

/// The first position holding a user of the given name; the launch looks
/// its user up by name.
pub fn find_user(users: &Vec<User>, name: &str) -> (r: Option<usize>)
    ensures
        match r {
            Some(i) => {
                &&& i < users@.len()
                &&& users@[i as int].name@ == name@
                &&& forall|k: int| 0 <= k < i ==> (#[trigger] users@[k]).name@ != name@
            },
            None => forall|k: int|
                0 <= k < users@.len() ==> (#[trigger] users@[k]).name@ != name@,
        },
{
    let target: String = name.to_owned();
    let n = users.len();
    let mut i: usize = 0;
    while i < n
        invariant
            n == users@.len(),
            i <= n,
            target@ == name@,
            forall|k: int| 0 <= k < i ==> (#[trigger] users@[k]).name@ != name@,
        decreases n - i,
    {
        if users[i].name == target {
            return Some(i);
        }
        i = i + 1;
    }
    None
}

/// The command line a launch assembles: the default executable first,
/// then every configured virtual-machine argument, in order.
pub fn launch_command(options: &Options) -> (r: Vec<String>)
    ensures
        r@.len() >= 1,
        r@[0]@ == options.default_executable_path@,
        match options.jvm_arguments {
            Some(args) => r@.len() == 1 + args@.len() && forall|i: int|
                0 <= i < args@.len() ==> (#[trigger] r@[i + 1])@ == args@[i]@,
            None => r@.len() == 1,
        },
{
    let mut command: Vec<String> = Vec::new();
    command.push(options.default_executable_path.clone());
    match &options.jvm_arguments {
        Some(args) => {
            let n = args.len();
            let mut i: usize = 0;
            while i < n
                invariant
                    n == args@.len(),
                    command@.len() == 1 + i,
                    i <= n,
                    command@[0]@ == options.default_executable_path@,
                    forall|k: int| 0 <= k < i ==> (#[trigger] command@[k + 1])@ == args@[k]@,
                decreases n - i,
            {
                command.push(args[i].clone());
                i = i + 1;
            }
        },
        None => {},
    }
    command
}

} // verus!
