//! The variant backed by the user's systemd instance.
use vstd::prelude::*;
use crate::command::{CommandLine, CommandView};
use crate::options::{Restart, Start, Status, StatusAction, Stop};
use crate::text::{decimal, decimal_string, join, join_path, push_decimal};

verus! {

/// The file name of a server socket: `.s.EDGEDB[.admin].<port>`.
pub open spec fn socket_file(admin: bool, port: u16) -> Seq<char> {
    ".s.EDGEDB"@ + (if admin { ".admin"@ } else { Seq::<char>::empty() }) + "."@ + decimal(
        port as nat,
    )
}

/// The command that runs the server attached to the caller.
pub open spec fn launch_command(
    server: Seq<char>,
    port: u16,
    data_dir: Seq<char>,
    socket_dir: Seq<char>,
) -> CommandView {
    CommandView {
        program: server,
        args: seq![
            "--port"@,
            decimal(port as nat),
            "--data-dir"@,
            data_dir,
            "--runstate-dir"@,
            socket_dir,
        ],
    }
}

/// Builds the socket file name of `socket_file`.
pub fn socket_file_name(admin: bool, port: u16) -> (r: String)
    ensures
        r@ == socket_file(admin, port),
{
    let mut r = String::from_str(".s.EDGEDB");
    if admin {
        r.append(".admin");
    }
    r.append(".");
    push_decimal(&mut r, port as u32);
    assert(r@ =~= socket_file(admin, port));
    r
}

/// Builds the command of `launch_command`.
pub fn launch_command_line(server: &str, port: u16, data_dir: &str, socket_dir: &str) -> (r:
    CommandLine)
    ensures
        r@ == launch_command(server@, port, data_dir@, socket_dir@),
{
    let mut c = CommandLine::new(server);
    c.arg_str("--port");
    c.arg(decimal_string(port as u32));
    c.arg_str("--data-dir");
    c.arg_str(data_dir);
    c.arg_str("--runstate-dir");
    c.arg_str(socket_dir);
    assert(c@.args =~= launch_command(server@, port, data_dir@, socket_dir@).args);
    c
}

/// An instance run by systemd as the unit `edgedb-server@<name>` of the user's manager.
#[derive(Debug, Clone)]
pub struct SystemdInstance {
    name: String,
    system: bool,
    version: String,
    data_dir: String,
    port: u16,
    runtime_dir: Option<String>,
    uid: u32,
}

pub struct SystemdView {
    pub name: Seq<char>,
    pub system: bool,
    pub version: Seq<char>,
    pub data_dir: Seq<char>,
    pub port: u16,
    pub runtime_dir: Option<Seq<char>>,
    pub uid: u32,
}

impl View for SystemdInstance {
    type V = SystemdView;

    closed spec fn view(&self) -> SystemdView {
        SystemdView {
            name: self.name@,
            system: self.system,
            version: self.version@,
            data_dir: self.data_dir@,
            port: self.port,
            runtime_dir: crate::host::opt_view(self.runtime_dir),
            uid: self.uid,
        }
    }
}

impl SystemdView {
    /// The systemd unit of the instance.
    pub open spec fn unit(self) -> Seq<char> {
        "edgedb-server@"@ + self.name
    }

    /// `systemctl --user <verb> <unit>`.
    pub open spec fn service_command(self, verb: Seq<char>) -> CommandView {
        CommandView { program: "systemctl"@, args: seq!["--user"@, verb, self.unit()] }
    }

    /// The runtime directory, or `/run/user/<uid>` where the environment names none.
    pub open spec fn runtime_base(self) -> Seq<char> {
        match self.runtime_dir {
            Some(d) => d,
            None => join("/run/user"@, decimal(self.uid as nat)),
        }
    }

    /// The directory that holds the instance's sockets.
    pub open spec fn socket_dir(self) -> Seq<char> {
        join(self.runtime_base(), "edgedb-"@ + self.name)
    }

    pub open spec fn socket(self, admin: bool) -> Seq<char> {
        join(self.socket_dir(), socket_file(admin, self.port))
    }

    pub open spec fn run_command(self, server: Seq<char>) -> CommandView {
        launch_command(server, self.port, self.data_dir, self.socket_dir())
    }
}

impl SystemdInstance {
    pub fn new(
        name: &str,
        system: bool,
        version: &str,
        data_dir: String,
        port: u16,
        runtime_dir: Option<String>,
        uid: u32,
    ) -> (r: SystemdInstance)
        ensures
            r@ == (SystemdView {
                name: name@,
                system,
                version: version@,
                data_dir: data_dir@,
                port,
                runtime_dir: crate::host::opt_view(runtime_dir),
                uid,
            }),
    {
        SystemdInstance {
            name: String::from_str(name),
            system,
            version: String::from_str(version),
            data_dir,
            port,
            runtime_dir,
            uid,
        }
    }

    pub fn name(&self) -> (r: &str)
        ensures
            r@ == self@.name,
    {
        self.name.as_str()
    }

    pub fn version(&self) -> (r: &str)
        ensures
            r@ == self@.version,
    {
        self.version.as_str()
    }

    pub fn is_system(&self) -> (r: bool)
        ensures
            r == self@.system,
    {
        self.system
    }

    fn service_command(&self, verb: &str) -> (r: CommandLine)
        ensures
            r@ == self@.service_command(verb@),
    {
        let mut c = CommandLine::new("systemctl");
        c.arg_str("--user");
        c.arg_str(verb);
        let mut unit = String::from_str("edgedb-server@");
        unit.append(self.name.as_str());
        c.arg(unit);
        assert(c@.args =~= self@.service_command(verb@).args);
        c
    }

    /// The command that starts the instance: the server itself, from
    /// `server_path`, when running in the foreground, else the unit.
    pub fn start(&self, options: &Start, server_path: &str) -> (r: CommandLine)
        ensures
            options.foreground ==> r@ == self@.run_command(server_path@),
            !options.foreground ==> r@ == self@.service_command("start"@),
    {
        if options.foreground {
            self.run_command(server_path)
        } else {
            self.service_command("start")
        }
    }

    pub fn stop(&self, options: &Stop) -> (r: CommandLine)
        ensures
            r@ == self@.service_command("stop"@),
    {
        self.service_command("stop")
    }

    pub fn restart(&self, options: &Restart) -> (r: CommandLine)
        ensures
            r@ == self@.service_command("restart"@),
    {
        self.service_command("restart")
    }

    pub fn status(&self, options: &Status) -> (r: StatusAction)
        ensures
            options.extended ==> r is Extended,
            !options.extended && options.service ==> (match r {
                StatusAction::Service(c) => c@ == self@.service_command("status"@),
                _ => false,
            }),
            !options.extended && !options.service ==> r is Summary,
    {
        if options.extended {
            StatusAction::Extended
        } else if options.service {
            StatusAction::Service(self.service_command("status"))
        } else {
            StatusAction::Summary
        }
    }

    fn runtime_base(&self) -> (r: String)
        ensures
            r@ == self@.runtime_base(),
    {
        match &self.runtime_dir {
            Some(d) => d.clone(),
            None => {
                let uid = decimal_string(self.uid);
                join_path("/run/user", uid.as_str())
            },
        }
    }

    fn socket_dir(&self) -> (r: String)
        ensures
            r@ == self@.socket_dir(),
    {
        let base = self.runtime_base();
        let mut leaf = String::from_str("edgedb-");
        leaf.append(self.name.as_str());
        join_path(base.as_str(), leaf.as_str())
    }

    /// The path of the server's socket, the admin one where `admin` is set.
    pub fn get_socket(&self, admin: bool) -> (r: String)
        ensures
            r@ == self@.socket(admin),
    {
        let dir = self.socket_dir();
        let file = socket_file_name(admin, self.port);
        join_path(dir.as_str(), file.as_str())
    }

    /// The command that runs the server, found at `server_path`, in the foreground.
    pub fn run_command(&self, server_path: &str) -> (r: CommandLine)
        ensures
            r@ == self@.run_command(server_path@),
    {
        let dir = self.socket_dir();
        launch_command_line(server_path, self.port, self.data_dir.as_str(), dir.as_str())
    }
}

} // verus!
