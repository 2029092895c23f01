//! The commands that start and stop the processes of the nodes.
//!
//! Nothing is run here: each function says which program is to be run with
//! which arguments, and the caller runs it.

use vstd::prelude::*;
use vstd::string::{StrSliceExecFns, StringExecFns};

use crate::deployment::{
    Deployment, KEEPER_CONFIG, KEEPER_PIDFILE, SERVER_CONFIG, SERVER_DIR_PREFIX, SERVER_PIDFILE,
    server_dir_name,
};
use crate::paths::{join, joined};
use crate::ports::Service;
use crate::text::{decimal, decimal_string, push_decimal};

verus! {

/// The program that runs keepers and servers and that talks to keepers.
pub const CLICKHOUSE: &'static str = "clickhouse";

/// The argument that makes the program run a keeper.
pub const KEEPER_MODE: &'static str = "keeper";

/// The argument that makes the program run a server.
pub const SERVER_MODE: &'static str = "server";

/// The argument that makes the program talk to a keeper.
pub const KEEPER_CLIENT_MODE: &'static str = "keeper-client";

/// The flag before the path of the configuration file.
pub const CONFIG_FLAG: &'static str = "-C";

/// The flag before the path of the pidfile.
pub const PIDFILE_FLAG: &'static str = "--pidfile";

/// The flag before the port of the keeper to talk to.
pub const PORT_FLAG: &'static str = "--port";

/// The program that kills a process by its id.
pub const KILL: &'static str = "kill";

/// The signal that the process cannot ignore.
pub const KILL_SIGNAL: &'static str = "-9";

/// The program that kills processes by their command line.
pub const PKILL: &'static str = "pkill";

/// The flag that makes it look at the whole command line.
pub const PKILL_FULL: &'static str = "-f";

/// The name with which the directory of every keeper begins.
pub const KEEPER_NAME: &'static str = "keeper";

/// The name with which the directory of every server begins.
pub const SERVER_NAME: &'static str = "clickhouse";

/// What is sent to the keeper client to learn the configuration of the
/// ensemble.
pub const KEEPER_CONFIG_QUERY: &'static str = "get /keeper/config\nexit\n";

/// A program to run, with its arguments.
#[derive(Debug, Clone, PartialEq, Eq)]
pub struct Command {
    pub program: String,
    pub args: Vec<String>,
}

/// What a [`Command`] holds.
#[verifier::ext_equal]
pub struct CommandView {
    pub program: Seq<char>,
    pub args: Seq<Seq<char>>,
}

/// The texts of `args`, in their order.
pub open spec fn texts(args: Seq<String>) -> Seq<Seq<char>> {
    Seq::new(args.len(), |i: int| args[i]@)
}

impl View for Command {
    type V = CommandView;

    open spec fn view(&self) -> CommandView {
        CommandView { program: self.program@, args: texts(self.args@) }
    }
}

/// What the commands in `v` hold, in their order.
pub open spec fn commands(v: Seq<Command>) -> Seq<CommandView> {
    Seq::new(v.len(), |i: int| v[i]@)
}

/// An entry of the deployment directory: its path and its name.
#[derive(Debug, Clone, PartialEq, Eq)]
pub struct DirEntry {
    pub path: String,
    pub file_name: String,
}

/// What a [`DirEntry`] holds.
pub struct DirEntryView {
    pub path: Seq<char>,
    pub file_name: Seq<char>,
}

impl View for DirEntry {
    type V = DirEntryView;

    open spec fn view(&self) -> DirEntryView {
        DirEntryView { path: self.path@, file_name: self.file_name@ }
    }
}

/// What the entries in `v` hold, in their order.
pub open spec fn entries(v: Seq<DirEntry>) -> Seq<DirEntryView> {
    Seq::new(v.len(), |i: int| v[i]@)
}

/// The command that starts a keeper with the given configuration file. The
/// keeper writes the id of its process to `pidfile`.
pub open spec fn keeper_command(config: Seq<char>, pidfile: Seq<char>) -> CommandView {
    CommandView {
        program: CLICKHOUSE@,
        args: seq![KEEPER_MODE@, CONFIG_FLAG@, config, PIDFILE_FLAG@, pidfile],
    }
}

/// The command that starts a server with the given configuration file.
/// Where a `pidfile` is given, the server writes the id of its process to
/// it.
pub open spec fn server_command(config: Seq<char>, pidfile: Option<Seq<char>>) -> CommandView {
    CommandView {
        program: CLICKHOUSE@,
        args: match pidfile {
            Some(pidfile) => seq![SERVER_MODE@, CONFIG_FLAG@, config, PIDFILE_FLAG@, pidfile],
            None => seq![SERVER_MODE@, CONFIG_FLAG@, config],
        },
    }
}

/// The command that kills the process with the id `pid`.
pub open spec fn kill_command(pid: Seq<char>) -> CommandView {
    CommandView { program: KILL@, args: seq![KILL_SIGNAL@, pid] }
}

/// The command that kills every process whose command line holds `name`.
pub open spec fn pkill_command(name: Seq<char>) -> CommandView {
    CommandView { program: PKILL@, args: seq![PKILL_FULL@, name] }
}

/// The command that opens a client to the keeper that listens on `port`.
pub open spec fn keeper_client_command(port: u16) -> CommandView {
    CommandView {
        program: CLICKHOUSE@,
        args: seq![KEEPER_CLIENT_MODE@, PORT_FLAG@, decimal(port as nat)],
    }
}

/// The commands that start the keepers among `entries`, in the order of
/// the entries. An entry is a keeper's directory if its name begins with
/// `keeper`.
pub open spec fn keeper_starts(entries: Seq<DirEntryView>) -> Seq<CommandView>
    decreases entries.len(),
{
    if entries.len() == 0 {
        Seq::empty()
    } else {
        let before = keeper_starts(entries.drop_last());
        let dir = entries.last();
        if KEEPER_NAME@.is_prefix_of(dir.file_name) {
            before.push(
                keeper_command(joined(dir.path, KEEPER_CONFIG@), joined(dir.path, KEEPER_PIDFILE@)),
            )
        } else {
            before
        }
    }
}

/// The commands that start the servers among `entries`, in the order of
/// the entries. An entry is a server's directory if its name begins with
/// `clickhouse`.
pub open spec fn server_starts(entries: Seq<DirEntryView>) -> Seq<CommandView>
    decreases entries.len(),
{
    if entries.len() == 0 {
        Seq::empty()
    } else {
        let before = server_starts(entries.drop_last());
        let dir = entries.last();
        if SERVER_NAME@.is_prefix_of(dir.file_name) {
            before.push(
                server_command(
                    joined(dir.path, SERVER_CONFIG@),
                    Some(joined(dir.path, SERVER_PIDFILE@)),
                ),
            )
        } else {
            before
        }
    }
}

/// Whether `text` begins with `prefix`.
pub fn starts_with(text: &str, prefix: &str) -> (b: bool)
    ensures
        b == prefix@.is_prefix_of(text@),
{
    let n = prefix.unicode_len();
    if n > text.unicode_len() {
        return false;
    }
    let mut i: usize = 0;
    while i < n
        invariant
            i <= n,
            n == prefix@.len(),
            n <= text@.len(),
            forall|k: int| 0 <= k < i ==> text@[k] == prefix@[k],
        decreases n - i,
    {
        if text.get_char(i) != prefix.get_char(i) {
            return false;
        }
        i += 1;
    }
    true
}

impl Command {
    /// The command that starts a keeper with the configuration file
    /// `config`. The keeper writes the id of its process to `pidfile`.
    pub fn keeper(config: &str, pidfile: &str) -> (command: Command)
        ensures
            command@ == keeper_command(config@, pidfile@),
    {
        let mut args: Vec<String> = Vec::new();
        args.push(String::from_str(KEEPER_MODE));
        args.push(String::from_str(CONFIG_FLAG));
        args.push(String::from_str(config));
        args.push(String::from_str(PIDFILE_FLAG));
        args.push(String::from_str(pidfile));
        Command { program: String::from_str(CLICKHOUSE), args }
    }

    /// The command that starts a server with the configuration file
    /// `config`. Where a `pidfile` is given, the server writes the id of its
    /// process to it.
    pub fn server(config: &str, pidfile: Option<&str>) -> (command: Command)
        ensures
            command@ == server_command(
                config@,
                match pidfile {
                    Some(p) => Some(p@),
                    None => None,
                },
            ),
    {
        let mut args: Vec<String> = Vec::new();
        args.push(String::from_str(SERVER_MODE));
        args.push(String::from_str(CONFIG_FLAG));
        args.push(String::from_str(config));
        if let Some(p) = pidfile {
            args.push(String::from_str(PIDFILE_FLAG));
            args.push(String::from_str(p));
        }
        Command { program: String::from_str(CLICKHOUSE), args }
    }

    /// The command that kills the process with the id `pid`.
    pub fn kill(pid: &str) -> (command: Command)
        ensures
            command@ == kill_command(pid@),
    {
        let mut args: Vec<String> = Vec::new();
        args.push(String::from_str(KILL_SIGNAL));
        args.push(String::from_str(pid));
        Command { program: String::from_str(KILL), args }
    }

    /// The command that kills every process whose command line holds
    /// `name`.
    pub fn pkill(name: &str) -> (command: Command)
        ensures
            command@ == pkill_command(name@),
    {
        let mut args: Vec<String> = Vec::new();
        args.push(String::from_str(PKILL_FULL));
        args.push(String::from_str(name));
        Command { program: String::from_str(PKILL), args }
    }

    /// The command that opens a client to the keeper that listens on
    /// `port`.
    pub fn keeper_client(port: u16) -> (command: Command)
        ensures
            command@ == keeper_client_command(port),
    {
        let mut args: Vec<String> = Vec::new();
        args.push(String::from_str(KEEPER_CLIENT_MODE));
        args.push(String::from_str(PORT_FLAG));
        args.push(decimal_string(port as u64));
        Command { program: String::from_str(CLICKHOUSE), args }
    }
}

/// The text of `text` without the white space at its end.
///
/// This is what `str::trim_end` of std gives, which goes by the Unicode
/// property `White_Space`. Nothing else is claimed of it here.
pub uninterp spec fn trimmed_end(text: Seq<char>) -> Seq<char>;

/// `str::trim_end` of std: `text` without the white space at its end.
///
/// Trusted: the result is taken to be a function of the text alone, named
/// [`trimmed_end`].
#[verifier::external_body]
fn trim_end(text: &str) -> (r: &str)
    ensures
        r@ == trimmed_end(text@),
{
    text.trim_end()
}

impl Deployment {
    /// The command that starts the keeper `id`.
    pub fn start_keeper(&self, id: u64) -> (command: Command)
        ensures
            command@ == keeper_command(
                self.config.keeper_paths_of(id).config,
                self.config.keeper_paths_of(id).pidfile,
            ),
    {
        let paths = self.config.keeper_paths(id);
        Command::keeper(paths.config.as_str(), paths.pidfile.as_str())
    }

    /// The command that starts the server `id`.
    pub fn start_server(&self, id: u64) -> (command: Command)
        ensures
            command@ == server_command(self.config.server_paths_of(id).config, None),
    {
        let paths = self.config.server_paths(id);
        Command::server(paths.config.as_str(), None)
    }

    /// The command that stops the keeper whose pidfile holds
    /// `pidfile_contents`: the process named there is killed.
    pub fn stop_keeper(&self, pidfile_contents: &str) -> (command: Command)
        ensures
            command@ == kill_command(trimmed_end(pidfile_contents@)),
    {
        Command::kill(trim_end(pidfile_contents))
    }

    /// The command that stops the server `id`: every process whose command
    /// line names the directory of the server is killed.
    pub fn stop_server(&self, id: u64) -> (command: Command)
        ensures
            command@ == pkill_command(server_dir_name(id)),
    {
        let mut name = String::from_str(SERVER_DIR_PREFIX);
        push_decimal(&mut name, id);
        Command::pkill(name.as_str())
    }

    /// The command that opens a client to the keeper `id`, to get the
    /// configuration of the ensemble from a running keeper.
    pub fn keeper_config(&self, id: u64) -> (command: Command)
        requires
            self.config.base_ports.admits(Service::Keeper, id),
        ensures
            command@ == keeper_client_command(
                self.config.base_ports.port_of(Service::Keeper, id) as u16,
            ),
    {
        Command::keeper_client(self.config.base_ports.port(Service::Keeper, id))
    }

    /// The commands that start every node of the deployment, given the
    /// entries of the deployment directory: first all the keepers, then all
    /// the servers, each group in the order of the entries.
    pub fn deploy(&self, dirs: &Vec<DirEntry>) -> (starts: Vec<Command>)
        ensures
            commands(starts@) == keeper_starts(entries(dirs@)) + server_starts(entries(dirs@)),
    {
        let ghost all = entries(dirs@);
        let mut starts: Vec<Command> = Vec::new();
        let mut i: usize = 0;
        while i < dirs.len()
            invariant
                i <= dirs.len(),
                all == entries(dirs@),
                commands(starts@) == keeper_starts(all.take(i as int)),
            decreases dirs.len() - i,
        {
            let dir = &dirs[i];
            assert(all.take(i + 1).drop_last() =~= all.take(i as int));
            let ghost before = commands(starts@);
            if starts_with(dir.file_name.as_str(), KEEPER_NAME) {
                let config = join(dir.path.as_str(), KEEPER_CONFIG);
                let pidfile = join(dir.path.as_str(), KEEPER_PIDFILE);
                starts.push(Command::keeper(config.as_str(), pidfile.as_str()));
                assert(commands(starts@) =~= before.push(keeper_command(config@, pidfile@)));
            }
            i += 1;
        }
        assert(all.take(i as int) =~= all);
        let ghost keepers = commands(starts@);
        i = 0;
        while i < dirs.len()
            invariant
                i <= dirs.len(),
                all == entries(dirs@),
                commands(starts@) == keepers + server_starts(all.take(i as int)),
            decreases dirs.len() - i,
        {
            let dir = &dirs[i];
            assert(all.take(i + 1).drop_last() =~= all.take(i as int));
            let ghost before = commands(starts@);
            if starts_with(dir.file_name.as_str(), SERVER_NAME) {
                let config = join(dir.path.as_str(), SERVER_CONFIG);
                let pidfile = join(dir.path.as_str(), SERVER_PIDFILE);
                starts.push(Command::server(config.as_str(), Some(pidfile.as_str())));
                assert(commands(starts@) =~= before.push(
                    server_command(config@, Some(pidfile@)),
                ));
            }
            i += 1;
        }
        assert(all.take(i as int) =~= all);
        starts
    }
}

} // verus!
