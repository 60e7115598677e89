//! One instance handle over both variants, and the dispatcher that picks
//! the variant from an instance's metadata and the platform.
use vstd::prelude::*;
use crate::command::{CommandLine, CommandView};
use crate::host::{HostDirs, HostView};
use crate::launchd::{agent_plist, LaunchdInstance, LaunchdView};
use crate::options::{Restart, Start, Status, StatusAction, Stop};
use crate::systemd::{SystemdInstance, SystemdView};
use crate::text::{decimal, join, join_path, push_decimal, same_text};

verus! {

/// How the server of an instance was installed.
#[derive(Debug, Clone, Copy, PartialEq, Eq, Structural)]
pub enum InstallMethod {
    Package,
    Docker,
}

/// The name an installation method is stored under in metadata.
pub open spec fn method_name(m: InstallMethod) -> Seq<char> {
    match m {
        InstallMethod::Package => "package"@,
        InstallMethod::Docker => "docker"@,
    }
}

impl InstallMethod {
    /// The method stored under `name`, if any is.
    pub fn from_name(name: &str) -> (r: Option<InstallMethod>)
        ensures
            r matches Some(m) ==> method_name(m) == name@,
            r is None ==> forall|m: InstallMethod| method_name(m) != name@,
    {
        if same_text(name, "package") {
            Some(InstallMethod::Package)
        } else if same_text(name, "docker") {
            Some(InstallMethod::Docker)
        } else {
            proof {
                assert forall|m: InstallMethod| method_name(m) != name@ by {
                    match m {
                        InstallMethod::Package => {},
                        InstallMethod::Docker => {},
                    }
                }
            }
            None
        }
    }
}

/// The operating system the instance is controlled from.
#[derive(Debug, Clone, Copy, PartialEq, Eq, Structural)]
pub enum Platform {
    Linux,
    Macos,
    Other,
}

/// The installation facts stored with an instance.
#[derive(Debug, Clone)]
pub struct Metadata {
    pub method: InstallMethod,
    pub version: String,
    pub port: u16,
}

pub struct MetadataView {
    pub method: InstallMethod,
    pub version: Seq<char>,
    pub port: u16,
}

impl View for Metadata {
    type V = MetadataView;

    open spec fn view(&self) -> MetadataView {
        MetadataView { method: self.method, version: self.version@, port: self.port }
    }
}

/// Why an operation on an instance failed.
#[derive(Debug, Clone, PartialEq, Eq)]
pub enum ControlError {
    /// The metadata file is missing or cannot be parsed.
    MetadataUnreadable { path: String, reason: String },
    /// No data directory exists for the instance.
    InstanceNotFound { name: String },
    /// The instance exists only in system scope, which is not implemented.
    SystemScopeNotImplemented { name: String },
    /// The user's data directory is not known.
    DataDirUnavailable,
    /// No variant serves this installation method on this platform.
    UnsupportedConfiguration,
    /// The variant needs the user's home directory and none is known.
    HomeDirUnavailable,
    /// No server binary could be found for the instance's version.
    ServerBinaryUnresolved { version: String },
    /// A service-manager or server process failed or could not be spawned.
    ExternalCommandFailed { program: String, code: Option<i32> },
}

/// The text that describes an error to a person.
pub open spec fn error_text(e: ControlError) -> Seq<char> {
    match e {
        ControlError::MetadataUnreadable { path, reason } => "failed to read metadata "@ + path@
            + "/metadata.json: "@ + reason@,
        ControlError::InstanceNotFound { name } => "No instance \""@ + name@
            + "\" found. Run:\n  edgedb server init "@ + name@,
        ControlError::SystemScopeNotImplemented { name } => "Instance \""@ + name@
            + "\" is a system instance; system instances are not implemented yet"@,
        ControlError::DataDirUnavailable => "Cannot find the user's data directory"@,
        ControlError::UnsupportedConfiguration => "Unknown installation method and OS combination"@,
        ControlError::HomeDirUnavailable => "Cannot find home directory"@,
        ControlError::ServerBinaryUnresolved { version } => "No server binary found for version "@
            + version@,
        ControlError::ExternalCommandFailed { program, code } => "Command "@ + program@
            + " failed"@ + match code {
            Some(c) => if c >= 0 {
                " with exit code "@ + decimal(c as nat)
            } else {
                Seq::empty()
            },
            None => Seq::empty(),
        },
    }
}

impl ControlError {
    /// The text of [`error_text`].
    pub fn message(&self) -> (r: String)
        ensures
            r@ == error_text(*self),
    {
        match self {
            ControlError::MetadataUnreadable { path, reason } => {
                let mut r = String::from_str("failed to read metadata ");
                r.append(path.as_str());
                r.append("/metadata.json: ");
                r.append(reason.as_str());
                r
            },
            ControlError::InstanceNotFound { name } => {
                let mut r = String::from_str("No instance \"");
                r.append(name.as_str());
                r.append("\" found. Run:\n  edgedb server init ");
                r.append(name.as_str());
                r
            },
            ControlError::SystemScopeNotImplemented { name } => {
                let mut r = String::from_str("Instance \"");
                r.append(name.as_str());
                r.append("\" is a system instance; system instances are not implemented yet");
                r
            },
            ControlError::DataDirUnavailable => String::from_str(
                "Cannot find the user's data directory",
            ),
            ControlError::UnsupportedConfiguration => String::from_str(
                "Unknown installation method and OS combination",
            ),
            ControlError::HomeDirUnavailable => String::from_str("Cannot find home directory"),
            ControlError::ServerBinaryUnresolved { version } => {
                let mut r = String::from_str("No server binary found for version ");
                r.append(version.as_str());
                r
            },
            ControlError::ExternalCommandFailed { program, code } => {
                let mut r = String::from_str("Command ");
                r.append(program.as_str());
                r.append(" failed");
                match code {
                    Some(c) => if *c >= 0 {
                        r.append(" with exit code ");
                        push_decimal(&mut r, *c as u32);
                    },
                    None => {},
                }
                r
            },
        }
    }
}

/// A controllable instance, backed by exactly one service-manager variant.
#[derive(Debug, Clone)]
pub enum Instance {
    Systemd(SystemdInstance),
    Launchd(LaunchdInstance),
}

pub enum InstanceView {
    Systemd(SystemdView),
    Launchd(LaunchdView),
}

impl View for Instance {
    type V = InstanceView;

    open spec fn view(&self) -> InstanceView {
        match self {
            Instance::Systemd(s) => InstanceView::Systemd(s@),
            Instance::Launchd(l) => InstanceView::Launchd(l@),
        }
    }
}

impl InstanceView {
    pub open spec fn name(self) -> Seq<char> {
        match self {
            InstanceView::Systemd(s) => s.name,
            InstanceView::Launchd(l) => l.name,
        }
    }

    pub open spec fn version(self) -> Seq<char> {
        match self {
            InstanceView::Systemd(s) => s.version,
            InstanceView::Launchd(l) => l.version,
        }
    }

    pub open spec fn port(self) -> u16 {
        match self {
            InstanceView::Systemd(s) => s.port,
            InstanceView::Launchd(l) => l.port,
        }
    }

    pub open spec fn data_dir(self) -> Seq<char> {
        match self {
            InstanceView::Systemd(s) => s.data_dir,
            InstanceView::Launchd(l) => l.data_dir,
        }
    }

    pub open spec fn socket_dir(self) -> Seq<char> {
        match self {
            InstanceView::Systemd(s) => s.socket_dir(),
            InstanceView::Launchd(l) => l.socket_dir(),
        }
    }

    pub open spec fn socket(self, admin: bool) -> Seq<char> {
        match self {
            InstanceView::Systemd(s) => s.socket(admin),
            InstanceView::Launchd(l) => l.socket(admin),
        }
    }

    pub open spec fn run_command(self, server: Seq<char>) -> CommandView {
        match self {
            InstanceView::Systemd(s) => s.run_command(server),
            InstanceView::Launchd(l) => l.run_command(server),
        }
    }

    pub open spec fn start_command(self) -> CommandView {
        match self {
            InstanceView::Systemd(s) => s.service_command("start"@),
            InstanceView::Launchd(l) => l.start_command(),
        }
    }

    pub open spec fn stop_command(self) -> CommandView {
        match self {
            InstanceView::Systemd(s) => s.service_command("stop"@),
            InstanceView::Launchd(l) => l.stop_command(),
        }
    }

    pub open spec fn restart_command(self) -> CommandView {
        match self {
            InstanceView::Systemd(s) => s.service_command("restart"@),
            InstanceView::Launchd(l) => l.restart_command(),
        }
    }

    pub open spec fn status_command(self) -> CommandView {
        match self {
            InstanceView::Systemd(s) => s.service_command("status"@),
            InstanceView::Launchd(l) => l.status_command(),
        }
    }
}

/// The pairs of installation method and platform that a variant serves.
pub open spec fn supported(method: InstallMethod, platform: Platform) -> bool {
    method == InstallMethod::Package && (platform == Platform::Linux || platform
        == Platform::Macos)
}

/// Whether the variant for `platform` needs a home directory that `host` lacks.
pub open spec fn lacks_home(platform: Platform, host: HostView) -> bool {
    platform == Platform::Macos && host.home_dir is None
}

/// The instance that a supported pair yields, with its data directory
/// under the user-scope data root.
pub open spec fn resolved(
    name: Seq<char>,
    system: bool,
    md: MetadataView,
    platform: Platform,
    host: HostView,
) -> InstanceView {
    let data_dir = join(host.data_root, name);
    if platform == Platform::Linux {
        InstanceView::Systemd(
            SystemdView {
                name,
                system,
                version: md.version,
                data_dir,
                port: md.port,
                runtime_dir: host.runtime_dir,
                uid: host.uid,
            },
        )
    } else {
        let home = match host.home_dir {
            Some(h) => h,
            None => Seq::empty(),
        };
        InstanceView::Launchd(
            LaunchdView {
                name,
                system,
                version: md.version,
                unit_path: agent_plist(home, name),
                data_dir,
                port: md.port,
                home,
                uid: host.uid,
            },
        )
    }
}

/// A found user-scope instance whose metadata is to be read from `dir`.
#[derive(Debug, Clone)]
pub struct MetadataRequest {
    pub name: String,
    pub dir: String,
    pub system: bool,
}

/// The data directory of the user-scope instance `name`.
pub fn instance_data_dir(host: &HostDirs, name: &str) -> (r: String)
    ensures
        r@ == join(host@.data_root, name@),
{
    join_path(host.data_root.as_str(), name)
}

/// The data directory of the system-scope instance `name`.
pub fn system_instance_data_dir(host: &HostDirs, name: &str) -> (r: String)
    ensures
        r@ == join(host@.system_data_root, name@),
{
    join_path(host.system_data_root.as_str(), name)
}

/// Looks up the instance `name`, given whether its user-scope and its
/// system-scope data directories exist. A user-scope instance is to have its
/// metadata read from its directory; one that exists only in system scope
/// fails as not implemented, and a missing one fails; neither failure reads
/// any metadata.
pub fn get_instance(name: &str, host: &HostDirs, user_dir_exists: bool, system_dir_exists: bool) -> (r:
    Result<MetadataRequest, ControlError>)
    ensures
        user_dir_exists ==> (r matches Ok(q) && q.name@ == name@ && q.dir@ == join(
            host@.data_root,
            name@,
        ) && !q.system),
        !user_dir_exists && system_dir_exists ==> (r matches Err(
            ControlError::SystemScopeNotImplemented { name: n },
        ) && n@ == name@),
        !user_dir_exists && !system_dir_exists ==> (r matches Err(
            ControlError::InstanceNotFound { name: n },
        ) && n@ == name@),
{
    if user_dir_exists {
        Ok(MetadataRequest { name: String::from_str(name), dir: instance_data_dir(host, name), system: false })
    } else if system_dir_exists {
        Err(ControlError::SystemScopeNotImplemented { name: String::from_str(name) })
    } else {
        Err(ControlError::InstanceNotFound { name: String::from_str(name) })
    }
}

/// Builds the instance that serves `metadata` on `platform`.
pub fn get_instance_from_metadata(
    name: &str,
    system: bool,
    metadata: &Metadata,
    platform: Platform,
    host: &HostDirs,
) -> (r: Result<Instance, ControlError>)
    ensures
        !supported(metadata.method, platform) ==> r matches Err(
            ControlError::UnsupportedConfiguration,
        ),
        supported(metadata.method, platform) && lacks_home(platform, host@) ==> r matches Err(
            ControlError::HomeDirUnavailable,
        ),
        supported(metadata.method, platform) && !lacks_home(platform, host@) ==> (r matches Ok(i)
            && i@ == resolved(name@, system, metadata@, platform, host@)),
{
    match (metadata.method, platform) {
        (InstallMethod::Package, Platform::Linux) => {
            let data_dir = instance_data_dir(host, name);
            Ok(
                Instance::Systemd(
                    SystemdInstance::new(
                        name,
                        system,
                        metadata.version.as_str(),
                        data_dir,
                        metadata.port,
                        host.runtime_dir.clone(),
                        host.uid,
                    ),
                ),
            )
        },
        (InstallMethod::Package, Platform::Macos) => {
            let data_dir = instance_data_dir(host, name);
            match &host.home_dir {
                Some(home) => Ok(
                    Instance::Launchd(
                        LaunchdInstance::new(
                            name,
                            system,
                            metadata.version.as_str(),
                            data_dir,
                            metadata.port,
                            home.as_str(),
                            host.uid,
                        ),
                    ),
                ),
                None => Err(ControlError::HomeDirUnavailable),
            }
        },
        _ => Err(ControlError::UnsupportedConfiguration),
    }
}

impl Instance {
    pub fn name(&self) -> (r: &str)
        ensures
            r@ == self@.name(),
    {
        match self {
            Instance::Systemd(s) => s.name(),
            Instance::Launchd(l) => l.name(),
        }
    }

    pub fn is_system(&self) -> (r: bool)
        ensures
            r == (match self@ {
                InstanceView::Systemd(s) => s.system,
                InstanceView::Launchd(l) => l.system,
            }),
    {
        match self {
            Instance::Systemd(s) => s.is_system(),
            Instance::Launchd(l) => l.is_system(),
        }
    }

    fn version_string(&self) -> (r: String)
        ensures
            r@ == self@.version(),
    {
        match self {
            Instance::Systemd(s) => String::from_str(s.version()),
            Instance::Launchd(l) => String::from_str(l.version()),
        }
    }

    /// The command that runs the server in the foreground, from the server
    /// binary that was resolved for the instance's version, if any was. Only
    /// the launchd platform's lookup can come back empty; on the systemd
    /// platform a path is always found.
    pub fn run_command(&self, server_path: Option<String>) -> (r: Result<CommandLine, ControlError>)
        ensures
            server_path matches Some(p) ==> (r matches Ok(c) && c@ == self@.run_command(p@)),
            server_path is None ==> (r matches Err(ControlError::ServerBinaryUnresolved { version })
                && version@ == self@.version()),
    {
        match server_path {
            Some(p) => match self {
                Instance::Systemd(s) => Ok(s.run_command(p.as_str())),
                Instance::Launchd(l) => Ok(l.run_command(p.as_str())),
            },
            None => Err(ControlError::ServerBinaryUnresolved { version: self.version_string() }),
        }
    }

    /// The command that starts the instance: in the foreground, the server
    /// itself; else the service manager's start of its unit.
    pub fn start(&self, options: &Start, server_path: Option<String>) -> (r: Result<
        CommandLine,
        ControlError,
    >)
        ensures
            options.foreground ==> (server_path matches Some(p) ==> (r matches Ok(c) && c@
                == self@.run_command(p@))),
            options.foreground && server_path is None ==> (r matches Err(
                ControlError::ServerBinaryUnresolved { version },
            ) && version@ == self@.version()),
            !options.foreground ==> (r matches Ok(c) && c@ == self@.start_command()),
    {
        if options.foreground {
            self.run_command(server_path)
        } else {
            // A background start reads no server path.
            match self {
                Instance::Systemd(s) => Ok(s.start(options, "")),
                Instance::Launchd(l) => Ok(l.start(options, "")),
            }
        }
    }

    /// The service manager's command that stops the unit.
    pub fn stop(&self, options: &Stop) -> (r: CommandLine)
        ensures
            r@ == self@.stop_command(),
    {
        match self {
            Instance::Systemd(s) => s.stop(options),
            Instance::Launchd(l) => l.stop(options),
        }
    }

    /// The service manager's command that restarts the unit with a fresh process.
    pub fn restart(&self, options: &Restart) -> (r: CommandLine)
        ensures
            r@ == self@.restart_command(),
    {
        match self {
            Instance::Systemd(s) => s.restart(options),
            Instance::Launchd(l) => l.restart(options),
        }
    }

    /// Which of the three status reports to give. The extended report and the
    /// summary go through the status query; only the service report runs the
    /// service manager.
    pub fn status(&self, options: &Status) -> (r: StatusAction)
        ensures
            options.extended ==> r is Extended,
            !options.extended && options.service ==> (match r {
                StatusAction::Service(c) => c@ == self@.status_command(),
                _ => false,
            }),
            !options.extended && !options.service ==> r is Summary,
    {
        match self {
            Instance::Systemd(s) => s.status(options),
            Instance::Launchd(l) => l.status(options),
        }
    }

    /// The path of the server's socket, the admin one where `admin` is set.
    pub fn get_socket(&self, admin: bool) -> (r: String)
        ensures
            r@ == self@.socket(admin),
    {
        match self {
            Instance::Systemd(s) => s.get_socket(admin),
            Instance::Launchd(l) => l.get_socket(admin),
        }
    }
}

} // verus!
