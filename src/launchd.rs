//! The variant backed by launchd, as a per-user agent.
use vstd::prelude::*;
use crate::command::{CommandLine, CommandView};
use crate::options::{Restart, Start, Status, StatusAction, Stop};
use crate::systemd::{launch_command, launch_command_line, socket_file, socket_file_name};
use crate::text::{decimal, join, join_path, push_decimal};

verus! {

/// The agent's property list under the user's `Library/LaunchAgents`.
pub open spec fn agent_plist(home: Seq<char>, name: Seq<char>) -> Seq<char> {
    join(join(home, "Library/LaunchAgents"@), "com.edgedb.edgedb-server-"@ + name + ".plist"@)
}

/// Builds the path of `agent_plist`.
pub fn agent_plist_path(home: &str, name: &str) -> (r: String)
    ensures
        r@ == agent_plist(home@, name@),
{
    let agents = join_path(home, "Library/LaunchAgents");
    let mut file = String::from_str("com.edgedb.edgedb-server-");
    file.append(name);
    file.append(".plist");
    join_path(agents.as_str(), file.as_str())
}

/// An instance run by launchd from a property list in the user's agents.
#[derive(Debug, Clone)]
pub struct LaunchdInstance {
    name: String,
    system: bool,
    version: String,
    unit_path: String,
    data_dir: String,
    port: u16,
    home: String,
    uid: u32,
}

pub struct LaunchdView {
    pub name: Seq<char>,
    pub system: bool,
    pub version: Seq<char>,
    pub unit_path: Seq<char>,
    pub data_dir: Seq<char>,
    pub port: u16,
    pub home: Seq<char>,
    pub uid: u32,
}

impl View for LaunchdInstance {
    type V = LaunchdView;

    closed spec fn view(&self) -> LaunchdView {
        LaunchdView {
            name: self.name@,
            system: self.system,
            version: self.version@,
            unit_path: self.unit_path@,
            data_dir: self.data_dir@,
            port: self.port,
            home: self.home@,
            uid: self.uid,
        }
    }
}

impl LaunchdView {
    /// The service's address in the user's GUI domain: `gui/<uid>/edgedb-server-<name>`.
    pub open spec fn launchd_name(self) -> Seq<char> {
        "gui/"@ + decimal(self.uid as nat) + "/edgedb-server-"@ + self.name
    }

    /// `launchctl <verbs> <target>`.
    pub open spec fn agent_command(verbs: Seq<Seq<char>>, target: Seq<char>) -> CommandView {
        CommandView { program: "launchctl"@, args: verbs.push(target) }
    }

    pub open spec fn start_command(self) -> CommandView {
        Self::agent_command(seq!["load"@, "-w"@], self.unit_path)
    }

    pub open spec fn stop_command(self) -> CommandView {
        Self::agent_command(seq!["unload"@], self.unit_path)
    }

    pub open spec fn restart_command(self) -> CommandView {
        Self::agent_command(seq!["kickstart"@, "-k"@], self.launchd_name())
    }

    pub open spec fn status_command(self) -> CommandView {
        Self::agent_command(seq!["print"@], self.launchd_name())
    }

    /// The directory that holds the instance's sockets: `<home>/.edgedb/run/<name>`.
    pub open spec fn socket_dir(self) -> Seq<char> {
        join(join(self.home, ".edgedb/run"@), self.name)
    }

    pub open spec fn socket(self, admin: bool) -> Seq<char> {
        join(self.socket_dir(), socket_file(admin, self.port))
    }

    pub open spec fn run_command(self, server: Seq<char>) -> CommandView {
        launch_command(server, self.port, self.data_dir, self.socket_dir())
    }
}

impl LaunchdInstance {
    pub fn new(
        name: &str,
        system: bool,
        version: &str,
        data_dir: String,
        port: u16,
        home: &str,
        uid: u32,
    ) -> (r: LaunchdInstance)
        ensures
            r@ == (LaunchdView {
                name: name@,
                system,
                version: version@,
                unit_path: agent_plist(home@, name@),
                data_dir: data_dir@,
                port,
                home: home@,
                uid,
            }),
    {
        LaunchdInstance {
            name: String::from_str(name),
            system,
            version: String::from_str(version),
            unit_path: agent_plist_path(home, name),
            data_dir,
            port,
            home: String::from_str(home),
            uid,
        }
    }

    pub fn name(&self) -> (r: &str)
        ensures
            r@ == self@.name,
    {
        self.name.as_str()
    }

    pub fn version(&self) -> (r: &str)
        ensures
            r@ == self@.version,
    {
        self.version.as_str()
    }

    pub fn is_system(&self) -> (r: bool)
        ensures
            r == self@.system,
    {
        self.system
    }

    pub fn unit_path(&self) -> (r: &str)
        ensures
            r@ == self@.unit_path,
    {
        self.unit_path.as_str()
    }

    /// The service's address in the user's GUI domain.
    pub fn launchd_name(&self) -> (r: String)
        ensures
            r@ == self@.launchd_name(),
    {
        let mut r = String::from_str("gui/");
        push_decimal(&mut r, self.uid);
        r.append("/edgedb-server-");
        r.append(self.name.as_str());
        r
    }

    fn agent_command(verb: &str, flag: Option<&str>, target: String) -> (r: CommandLine)
        ensures
            r@ == LaunchdView::agent_command(
                match flag {
                    Some(f) => seq![verb@, f@],
                    None => seq![verb@],
                },
                target@,
            ),
    {
        let mut c = CommandLine::new("launchctl");
        c.arg_str(verb);
        match flag {
            Some(f) => c.arg_str(f),
            None => {},
        }
        c.arg(target);
        assert(c@.args =~= match flag {
            Some(f) => seq![verb@, f@],
            None => seq![verb@],
        }.push(target@));
        c
    }

    /// The command that starts the instance: the server itself, from
    /// `server_path`, when running in the foreground, else the agent.
    pub fn start(&self, options: &Start, server_path: &str) -> (r: CommandLine)
        ensures
            options.foreground ==> r@ == self@.run_command(server_path@),
            !options.foreground ==> r@ == self@.start_command(),
    {
        if options.foreground {
            self.run_command(server_path)
        } else {
            Self::agent_command("load", Some("-w"), self.unit_path.clone())
        }
    }

    pub fn stop(&self, options: &Stop) -> (r: CommandLine)
        ensures
            r@ == self@.stop_command(),
    {
        Self::agent_command("unload", None, self.unit_path.clone())
    }

    /// Kills the running service and starts it anew.
    pub fn restart(&self, options: &Restart) -> (r: CommandLine)
        ensures
            r@ == self@.restart_command(),
    {
        Self::agent_command("kickstart", Some("-k"), self.launchd_name())
    }

    pub fn status(&self, options: &Status) -> (r: StatusAction)
        ensures
            options.extended ==> r is Extended,
            !options.extended && options.service ==> (match r {
                StatusAction::Service(c) => c@ == self@.status_command(),
                _ => false,
            }),
            !options.extended && !options.service ==> r is Summary,
    {
        if options.extended {
            StatusAction::Extended
        } else if options.service {
            StatusAction::Service(Self::agent_command("print", None, self.launchd_name()))
        } else {
            StatusAction::Summary
        }
    }

    fn socket_dir(&self) -> (r: String)
        ensures
            r@ == self@.socket_dir(),
    {
        let run = join_path(self.home.as_str(), ".edgedb/run");
        join_path(run.as_str(), self.name.as_str())
    }

    /// The path of the server's socket, the admin one where `admin` is set.
    pub fn get_socket(&self, admin: bool) -> (r: String)
        ensures
            r@ == self@.socket(admin),
    {
        let dir = self.socket_dir();
        let file = socket_file_name(admin, self.port);
        join_path(dir.as_str(), file.as_str())
    }

    /// The command that runs the server, found at `server_path`, in the foreground.
    pub fn run_command(&self, server_path: &str) -> (r: CommandLine)
        ensures
            r@ == self@.run_command(server_path@),
    {
        let dir = self.socket_dir();
        launch_command_line(server_path, self.port, self.data_dir.as_str(), dir.as_str())
    }
}

} // verus!
