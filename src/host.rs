//! The directories and user id of the host that an instance lives on.
use vstd::prelude::*;

verus! {

/// The host facts that instances are computed from, read once.
#[derive(Debug, Clone)]
pub struct HostDirs {
    /// The root under which each user-scope instance has its data directory.
    pub data_root: String,
    /// The root under which each system-scope instance has its data directory.
    pub system_data_root: String,
    /// The runtime directory from the environment, if it names one.
    pub runtime_dir: Option<String>,
    /// The current user's home directory, if it is known.
    pub home_dir: Option<String>,
    /// The numeric id of the current user.
    pub uid: u32,
}

pub struct HostView {
    pub data_root: Seq<char>,
    pub system_data_root: Seq<char>,
    pub runtime_dir: Option<Seq<char>>,
    pub home_dir: Option<Seq<char>>,
    pub uid: u32,
}

pub open spec fn opt_view(o: Option<String>) -> Option<Seq<char>> {
    match o {
        Some(s) => Some(s@),
        None => None,
    }
}

/// Host facts as they are read: every directory that is present is a
/// non-empty path.
pub open spec fn host_wf(host: HostView) -> bool {
    &&& host.data_root.len() > 0
    &&& host.runtime_dir matches Some(d) ==> d.len() > 0
    &&& host.home_dir matches Some(h) ==> h.len() > 0
}

impl View for HostDirs {
    type V = HostView;

    open spec fn view(&self) -> HostView {
        HostView {
            data_root: self.data_root@,
            system_data_root: self.system_data_root@,
            runtime_dir: opt_view(self.runtime_dir),
            home_dir: opt_view(self.home_dir),
            uid: self.uid,
        }
    }
}

/// Relies on dirs::runtime_dir: the runtime directory named by the
/// environment, present only where it is an absolute path, hence not empty.
#[verifier::external_body]
fn runtime_dir() -> (r: Option<String>)
    ensures
        r matches Some(d) ==> d@.len() > 0,
{
    dirs::runtime_dir().map(|p| p.to_string_lossy().into_owned())
}

/// Relies on dirs::home_dir: the current user's home directory, present
/// only where it is not empty.
#[verifier::external_body]
fn home_dir() -> (r: Option<String>)
    ensures
        r matches Some(d) ==> d@.len() > 0,
{
    dirs::home_dir().map(|p| p.to_string_lossy().into_owned())
}

impl HostDirs {
    /// Reads the runtime and home directories of the current process; the
    /// user-scope data root is a non-empty path.
    pub fn current(data_root: String, system_data_root: String, uid: u32) -> (r: HostDirs)
        requires
            data_root@.len() > 0,
        ensures
            r@.data_root == data_root@,
            r@.system_data_root == system_data_root@,
            r@.uid == uid,
            host_wf(r@),
    {
        HostDirs { data_root, system_data_root, runtime_dir: runtime_dir(), home_dir: home_dir(), uid }
    }
}

} // verus!
