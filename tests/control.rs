use server_control::command::CommandLine;
use server_control::host::HostDirs;
use server_control::instance::{
    get_instance, get_instance_from_metadata, instance_data_dir, system_instance_data_dir,
    ControlError, InstallMethod,
    Instance, Metadata, Platform,
};
use server_control::options::{Restart, Start, Status, StatusAction, Stop};
use server_control::text::{decimal_string, join_path, same_text};

fn metadata(port: u16) -> Metadata {
    Metadata { method: InstallMethod::Package, version: "3.0".to_string(), port }
}

fn linux_host(runtime_dir: Option<&str>) -> HostDirs {
    HostDirs {
        data_root: "/home/alice/.local/share/edgedb/data".to_string(),
        system_data_root: "/var/lib/edgedb/data".to_string(),
        runtime_dir: runtime_dir.map(|d| d.to_string()),
        home_dir: Some("/home/alice".to_string()),
        uid: 1000,
    }
}

fn mac_host() -> HostDirs {
    HostDirs {
        data_root: "/Users/alice/Library/Application Support/edgedb/data".to_string(),
        system_data_root: "/var/lib/edgedb/data".to_string(),
        runtime_dir: None,
        home_dir: Some("/Users/alice".to_string()),
        uid: 501,
    }
}

fn args(c: &CommandLine) -> Vec<&str> {
    c.args.iter().map(|a| a.as_str()).collect()
}

fn linux_instance(name: &str, port: u16, runtime_dir: Option<&str>) -> Instance {
    get_instance_from_metadata(name, false, &metadata(port), Platform::Linux, &linux_host(runtime_dir))
        .unwrap()
}

fn mac_instance(name: &str, port: u16) -> Instance {
    get_instance_from_metadata(name, false, &metadata(port), Platform::Macos, &mac_host()).unwrap()
}

#[test]
fn systemd_admin_socket_and_background_start() {
    let inst = linux_instance("myinst", 5656, Some("/run/user/1000"));
    assert!(matches!(inst, Instance::Systemd(_)));
    assert_eq!(inst.get_socket(true), "/run/user/1000/edgedb-myinst/.s.EDGEDB.admin.5656");
    let c = inst.start(&Start { foreground: false }, None).unwrap();
    assert_eq!(c.program, "systemctl");
    assert_eq!(args(&c), vec!["--user", "start", "edgedb-server@myinst"]);
}

#[test]
fn systemd_stop_restart_and_service_status() {
    let inst = linux_instance("myinst", 5656, Some("/run/user/1000"));
    let stop = inst.stop(&Stop {});
    assert_eq!(stop.program, "systemctl");
    assert_eq!(args(&stop), vec!["--user", "stop", "edgedb-server@myinst"]);
    let restart = inst.restart(&Restart {});
    assert_eq!(args(&restart), vec!["--user", "restart", "edgedb-server@myinst"]);
    match inst.status(&Status { service: true, extended: false }) {
        StatusAction::Service(c) => {
            assert_eq!(c.program, "systemctl");
            assert_eq!(args(&c), vec!["--user", "status", "edgedb-server@myinst"]);
        }
        other => panic!("unexpected {:?}", other),
    }
}

#[test]
fn systemd_socket_falls_back_to_run_user() {
    let inst = linux_instance("myinst", 5656, None);
    assert_eq!(inst.get_socket(false), "/run/user/1000/edgedb-myinst/.s.EDGEDB.5656");
}

#[test]
fn systemd_socket_runtime_dir_with_trailing_slash() {
    let inst = linux_instance("db", 10700, Some("/run/user/1000/"));
    assert_eq!(inst.get_socket(true), "/run/user/1000/edgedb-db/.s.EDGEDB.admin.10700");
}

#[test]
fn launchd_restart_kickstarts_gui_address() {
    let inst = mac_instance("myinst", 5656);
    assert!(matches!(inst, Instance::Launchd(_)));
    let c = inst.restart(&Restart {});
    assert_eq!(c.program, "launchctl");
    assert_eq!(args(&c), vec!["kickstart", "-k", "gui/501/edgedb-server-myinst"]);
}

#[test]
fn launchd_start_stop_and_service_status() {
    let inst = mac_instance("myinst", 5656);
    let plist = "/Users/alice/Library/LaunchAgents/com.edgedb.edgedb-server-myinst.plist";
    let start = inst.start(&Start { foreground: false }, None).unwrap();
    assert_eq!(start.program, "launchctl");
    assert_eq!(args(&start), vec!["load", "-w", plist]);
    let stop = inst.stop(&Stop {});
    assert_eq!(args(&stop), vec!["unload", plist]);
    match inst.status(&Status { service: true, extended: false }) {
        StatusAction::Service(c) => {
            assert_eq!(args(&c), vec!["print", "gui/501/edgedb-server-myinst"]);
        }
        other => panic!("unexpected {:?}", other),
    }
    if let Instance::Launchd(l) = &inst {
        assert_eq!(l.unit_path(), plist);
        assert_eq!(l.launchd_name(), "gui/501/edgedb-server-myinst");
    }
}

#[test]
fn launchd_socket_under_home_run_dir() {
    let inst = mac_instance("myinst", 5656);
    assert_eq!(inst.get_socket(true), "/Users/alice/.edgedb/run/myinst/.s.EDGEDB.admin.5656");
    assert_eq!(inst.get_socket(false), "/Users/alice/.edgedb/run/myinst/.s.EDGEDB.5656");
}

#[test]
fn admin_and_plain_sockets_differ_by_suffix_only() {
    for port in [0u16, 1, 9, 10, 5656, 65535] {
        for inst in [linux_instance("a", port, None), mac_instance("a", port)] {
            let plain = inst.get_socket(false);
            let admin = inst.get_socket(true);
            assert_eq!(admin.replacen(".admin", "", 1), plain);
            assert_eq!(admin.len(), plain.len() + ".admin".len());
        }
    }
}

#[test]
fn unsupported_combinations_fail() {
    let host = linux_host(None);
    let docker = Metadata { method: InstallMethod::Docker, version: "3.0".to_string(), port: 5656 };
    for platform in [Platform::Linux, Platform::Macos, Platform::Other] {
        let r = get_instance_from_metadata("x", false, &docker, platform, &host);
        assert_eq!(r.unwrap_err(), ControlError::UnsupportedConfiguration);
    }
    let r = get_instance_from_metadata("x", false, &metadata(5656), Platform::Other, &host);
    assert_eq!(r.unwrap_err(), ControlError::UnsupportedConfiguration);
}

#[test]
fn launchd_without_home_fails() {
    let mut host = mac_host();
    host.home_dir = None;
    let r = get_instance_from_metadata("x", false, &metadata(5656), Platform::Macos, &host);
    assert_eq!(r.unwrap_err(), ControlError::HomeDirUnavailable);
}

#[test]
fn lookup_of_missing_instance_fails_before_reading_metadata() {
    let host = linux_host(None);
    let r = get_instance("ghost", &host, false, false);
    assert_eq!(r.unwrap_err(), ControlError::InstanceNotFound { name: "ghost".to_string() });
}

#[test]
fn lookup_of_system_instance_is_not_implemented() {
    let host = linux_host(None);
    let r = get_instance("sys", &host, false, true);
    let e = r.unwrap_err();
    assert_eq!(e, ControlError::SystemScopeNotImplemented { name: "sys".to_string() });
    assert_eq!(
        e.message(),
        "Instance \"sys\" is a system instance; system instances are not implemented yet"
    );
    assert_eq!(system_instance_data_dir(&host, "sys"), "/var/lib/edgedb/data/sys");
}

#[test]
fn lookup_prefers_user_scope_instance() {
    let host = linux_host(None);
    let q = get_instance("both", &host, true, true).unwrap();
    assert!(!q.system);
    assert_eq!(q.dir, "/home/alice/.local/share/edgedb/data/both");
}

#[test]
fn lookup_of_existing_instance_asks_for_its_metadata() {
    let host = linux_host(None);
    let q = get_instance("myinst", &host, true, false).unwrap();
    assert_eq!(q.name, "myinst");
    assert_eq!(q.dir, "/home/alice/.local/share/edgedb/data/myinst");
    assert!(!q.system);
    assert_eq!(instance_data_dir(&host, "myinst"), q.dir);
}

#[test]
fn run_command_holds_each_flag_once() {
    let inst = linux_instance("myinst", 5656, Some("/run/user/1000"));
    let c = inst.run_command(Some("/usr/bin/edgedb-server-3".to_string())).unwrap();
    assert_eq!(c.program, "/usr/bin/edgedb-server-3");
    assert_eq!(
        args(&c),
        vec![
            "--port",
            "5656",
            "--data-dir",
            "/home/alice/.local/share/edgedb/data/myinst",
            "--runstate-dir",
            "/run/user/1000/edgedb-myinst",
        ]
    );
    for flag in ["--port", "--data-dir", "--runstate-dir"] {
        assert_eq!(c.args.iter().filter(|a| a.as_str() == flag).count(), 1);
    }
    let admin = inst.get_socket(true);
    let parent = &admin[..admin.rfind('/').unwrap()];
    assert_eq!(c.args[5], parent);
}

#[test]
fn foreground_start_runs_the_server() {
    let inst = mac_instance("myinst", 5656);
    let server = "/Library/Frameworks/EdgeDB.framework/Versions/3.0/bin/edgedb-server";
    let c = inst.start(&Start { foreground: true }, Some(server.to_string())).unwrap();
    assert_eq!(c.program, server);
    assert_eq!(args(&c)[..2], ["--port", "5656"]);
    assert_eq!(c.args[5], "/Users/alice/.edgedb/run/myinst");
}

#[test]
fn foreground_start_without_server_binary_fails() {
    let inst = mac_instance("myinst", 5656);
    let r = inst.start(&Start { foreground: true }, None);
    assert_eq!(r.unwrap_err(), ControlError::ServerBinaryUnresolved { version: "3.0".to_string() });
}

#[test]
fn extended_status_goes_through_status_query() {
    for inst in [linux_instance("a", 1, None), mac_instance("a", 1)] {
        let r = inst.status(&Status { service: true, extended: true });
        assert!(matches!(r, StatusAction::Extended));
        let r = inst.status(&Status { service: false, extended: true });
        assert!(matches!(r, StatusAction::Extended));
        let r = inst.status(&Status { service: false, extended: false });
        assert!(matches!(r, StatusAction::Summary));
    }
}

#[test]
fn instance_keeps_name_and_scope() {
    let inst = get_instance_from_metadata("n1", true, &metadata(1), Platform::Linux, &linux_host(None))
        .unwrap();
    assert_eq!(inst.name(), "n1");
    assert!(inst.is_system());
}

#[test]
fn error_messages() {
    let e = ControlError::InstanceNotFound { name: "foo".to_string() };
    assert_eq!(e.message(), "No instance \"foo\" found. Run:\n  edgedb server init foo");
    let e = ControlError::ExternalCommandFailed { program: "systemctl".to_string(), code: Some(3) };
    assert_eq!(e.message(), "Command systemctl failed with exit code 3");
    let e = ControlError::ExternalCommandFailed { program: "launchctl".to_string(), code: None };
    assert_eq!(e.message(), "Command launchctl failed");
    let e = ControlError::MetadataUnreadable { path: "/d/x".to_string(), reason: "eof".to_string() };
    assert_eq!(e.message(), "failed to read metadata /d/x/metadata.json: eof");
    assert_eq!(ControlError::DataDirUnavailable.message(), "Cannot find the user's data directory");
    assert_eq!(
        ControlError::UnsupportedConfiguration.message(),
        "Unknown installation method and OS combination"
    );
}

#[test]
fn decimal_and_join() {
    assert_eq!(decimal_string(0), "0");
    assert_eq!(decimal_string(65535), "65535");
    assert_eq!(decimal_string(4294967295), "4294967295");
    assert_eq!(join_path("/a", "b"), "/a/b");
    assert_eq!(join_path("/a/", "b"), "/a/b");
    assert_eq!(join_path("", "b"), "b");
    assert_eq!(join_path("/a", "/b"), "/b");
}

#[test]
fn current_host_keeps_given_facts() {
    let h = HostDirs::current("/data".to_string(), "/sys".to_string(), 42);
    assert_eq!(h.data_root, "/data");
    assert_eq!(h.system_data_root, "/sys");
    assert_eq!(h.uid, 42);
    if let Some(d) = &h.runtime_dir {
        assert!(!d.is_empty());
    }
    if let Some(d) = &h.home_dir {
        assert!(!d.is_empty());
    }
}

#[test]
fn install_method_names() {
    assert_eq!(InstallMethod::from_name("package"), Some(InstallMethod::Package));
    assert_eq!(InstallMethod::from_name("docker"), Some(InstallMethod::Docker));
    assert_eq!(InstallMethod::from_name("Package"), None);
    assert_eq!(InstallMethod::from_name(""), None);
}

#[test]
fn text_comparison() {
    assert!(same_text("abc", "abc"));
    assert!(!same_text("abc", "abd"));
    assert!(!same_text("abc", "ab"));
    assert!(same_text("", ""));
}
