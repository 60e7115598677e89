//! What holds of every instance that the dispatcher builds.
use vstd::prelude::*;
use crate::host::{host_wf, HostView};
use crate::instance::{lacks_home, resolved, supported, InstanceView, MetadataView, Platform};
use crate::systemd::socket_file;
use crate::text::{decimal, is_digit, join, lemma_decimal_digits};

verus! {

pub open spec fn has_slash(s: Seq<char>) -> bool {
    exists|k: int| 0 <= k < s.len() && s[k] == '/'
}

pub open spec fn no_slash(s: Seq<char>) -> bool {
    forall|k: int| 0 <= k < s.len() ==> s[k] != '/'
}

/// `a` occurs in `args` at index `k` and nowhere else.
pub open spec fn occurs_once_at(args: Seq<Seq<char>>, a: Seq<char>, k: int) -> bool {
    &&& 0 <= k < args.len()
    &&& forall|j: int| 0 <= j < args.len() ==> (args[j] == a <==> j == k)
}

proof fn lemma_join_slash(a: Seq<char>, b: Seq<char>)
    ensures
        a.len() > 0 ==> has_slash(join(a, b)),
        has_slash(b) ==> has_slash(join(a, b)),
{
    if b.len() > 0 && b[0] == '/' {
        assert(join(a, b)[0] == '/');
    } else if a.len() == 0 || a.last() == '/' {
        let r = a + b;
        if a.len() > 0 {
            assert(r[a.len() - 1] == '/');
        }
        if has_slash(b) {
            let k = choose|k: int| 0 <= k < b.len() && b[k] == '/';
            assert(r[a.len() + k] == '/');
        }
    } else {
        let r = a + seq!['/'] + b;
        assert(r[a.len() as int] == '/');
    }
}

proof fn lemma_join_socket_file(dir: Seq<char>, admin: bool, port: u16)
    ensures
        join(dir, socket_file(admin, port)) == (if dir.len() == 0 || dir.last() == '/' {
            dir + socket_file(admin, port)
        } else {
            dir + seq!['/'] + socket_file(admin, port)
        }),
{
    reveal_strlit(".s.EDGEDB");
    let f = socket_file(admin, port);
    assert(f[0] == '.');
}

/// The plain and the admin socket of every instance that a supported pair
/// of installation method and platform yields differ only by the `.admin`
/// token, for every port.
pub proof fn lemma_admin_socket_adds_only_suffix(
    name: Seq<char>,
    system: bool,
    md: MetadataView,
    platform: Platform,
    host: HostView,
)
    requires
        supported(md.method, platform),
        !lacks_home(platform, host),
    ensures
        ({
            let i = resolved(name, system, md, platform, host);
            exists|p: Seq<char>, s: Seq<char>|
                i.socket(false) == p + s && #[trigger] i.socket(true) == p + ".admin"@ + s
        }),
{
    let i = resolved(name, system, md, platform, host);
    let dir = i.socket_dir();
    lemma_join_socket_file(dir, false, md.port);
    lemma_join_socket_file(dir, true, md.port);
    let lead = if dir.len() == 0 || dir.last() == '/' {
        dir
    } else {
        dir + seq!['/']
    };
    let p = lead + ".s.EDGEDB"@;
    let s = "."@ + decimal(md.port as nat);
    assert(i.socket(false) =~= p + s);
    assert(i.socket(true) =~= p + ".admin"@ + s);
}

proof fn lemma_distinct_by_slash(x: Seq<char>, flag: Seq<char>)
    requires
        has_slash(x),
        no_slash(flag),
    ensures
        x != flag,
{
}

/// The foreground command of every instance that a supported pair yields on
/// a host read as it is (every `HostDirs::current` result) holds `--port`, `--data-dir` and `--runstate-dir`
/// exactly once each, each followed by the instance's port, its data
/// directory, and the directory of its admin socket.
pub proof fn lemma_run_command_flags(
    name: Seq<char>,
    system: bool,
    md: MetadataView,
    platform: Platform,
    host: HostView,
    server: Seq<char>,
)
    requires
        supported(md.method, platform),
        !lacks_home(platform, host),
        host_wf(host),
    ensures
        ({
            let i = resolved(name, system, md, platform, host);
            let args = i.run_command(server).args;
            &&& occurs_once_at(args, "--port"@, 0)
            &&& args[1] == decimal(md.port as nat)
            &&& occurs_once_at(args, "--data-dir"@, 2)
            &&& args[3] == i.data_dir()
            &&& occurs_once_at(args, "--runstate-dir"@, 4)
            &&& join(args[5], socket_file(true, md.port)) == i.socket(true)
        }),
{
    let i = resolved(name, system, md, platform, host);
    let args = i.run_command(server).args;
    reveal_strlit("--port");
    reveal_strlit("--data-dir");
    reveal_strlit("--runstate-dir");
    reveal_strlit("/run/user");
    reveal_strlit(".edgedb/run");
    lemma_join_slash(host.data_root, name);
    match i {
        InstanceView::Systemd(s) => {
            lemma_join_slash("/run/user"@, decimal(host.uid as nat));
            lemma_join_slash(s.runtime_base(), "edgedb-"@ + name);
        },
        InstanceView::Launchd(l) => {
            assert(".edgedb/run"@[7] == '/');
            lemma_join_slash(l.home, ".edgedb/run"@);
            lemma_join_slash(join(l.home, ".edgedb/run"@), name);
        },
    }
    assert(no_slash("--port"@));
    assert(no_slash("--data-dir"@));
    assert(no_slash("--runstate-dir"@));
    lemma_distinct_by_slash(args[3], "--port"@);
    lemma_distinct_by_slash(args[3], "--data-dir"@);
    lemma_distinct_by_slash(args[3], "--runstate-dir"@);
    lemma_distinct_by_slash(args[5], "--port"@);
    lemma_distinct_by_slash(args[5], "--data-dir"@);
    lemma_distinct_by_slash(args[5], "--runstate-dir"@);
    lemma_decimal_digits(md.port as nat);
    assert(is_digit(args[1][0]));
    assert(args[1] != "--port"@ && args[1] != "--data-dir"@ && args[1] != "--runstate-dir"@) by {
        assert("--port"@[0] == '-');
        assert("--data-dir"@[0] == '-');
        assert("--runstate-dir"@[0] == '-');
    }
    assert("--port"@.len() != "--data-dir"@.len());
    assert("--port"@.len() != "--runstate-dir"@.len());
    assert("--data-dir"@.len() != "--runstate-dir"@.len());
}

} // verus!
