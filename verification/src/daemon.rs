//! The daemon's settings and files.

use crate::numbers::{decimal, decimal_text, lemma_digits_read_back, lemma_written_chars};
use crate::paths::{join_of, join_path};
use vstd::prelude::*;

verus! {

/// Router -> worker operation timeout, in seconds.
pub const WORKER_OP_TIMEOUT_SECS: u64 = 600;

/// Timeout for connecting to a worker's socket.
pub const WORKER_CONNECT_TIMEOUT_SECS: u64 = 5;

/// Timeout waiting for a freshly spawned worker to start accepting.
pub const WORKER_BOOT_TIMEOUT_SECS: u64 = 30;

/// Grace period for a worker to exit after being asked to shut down.
pub const WORKER_STOP_TIMEOUT_SECS: u64 = 5;

/// Default CLI client read timeout (slightly above the worker op timeout so
/// the daemon's own timeout error reaches the client first).
pub const CLIENT_DEFAULT_TIMEOUT_SECS: u64 = 630;

/// CLI timeout for `daemon status` (must stay short to be useful when the
/// daemon is wedged).
pub const CLIENT_STATUS_TIMEOUT_SECS: u64 = 3;

/// CLI timeout for `daemon stop`.
pub const CLIENT_STOP_TIMEOUT_SECS: u64 = 20;

/// Maximum accepted length of a single JSON protocol line.
pub const MAX_LINE_BYTES: usize = 16 * 1024 * 1024;

/// What the machine says of where caches are kept.
#[derive(Debug)]
pub struct CacheEnv {
    /// Whether the machine keeps caches in the library of the home directory.
    pub macos: bool,
    /// The directory for caches, where one is set.
    pub xdg_cache_home: Option<String>,
    /// The home directory, where one is set.
    pub home: Option<String>,
}

/// The directory for the daemon's files.
pub open spec fn cache_dir(env: CacheEnv) -> Seq<char> {
    if env.macos && env.home is Some {
        join_of(env.home->0@, "Library/Caches/ida-rs-cli"@)
    } else if !env.macos && env.xdg_cache_home is Some {
        join_of(env.xdg_cache_home->0@, "ida-rs-cli"@)
    } else if !env.macos && env.home is Some {
        join_of(env.home->0@, ".cache/ida-rs-cli"@)
    } else {
        "/tmp/ida-rs-cli"@
    }
}

/// The directory for the daemon's files.
pub fn dirs_cache_dir(env: &CacheEnv) -> (r: String)
    ensures
        r@ == cache_dir(*env),
{
    if env.macos {
        if let Some(home) = &env.home {
            return join_path(home.as_str(), "Library/Caches/ida-rs-cli");
        }
    } else {
        if let Some(xdg) = &env.xdg_cache_home {
            return join_path(xdg.as_str(), "ida-rs-cli");
        }
        if let Some(home) = &env.home {
            return join_path(home.as_str(), ".cache/ida-rs-cli");
        }
    }
    "/tmp/ida-rs-cli".to_owned()
}

/// Default socket path for the daemon (router).
pub fn socket_path(env: &CacheEnv) -> (r: String)
    ensures
        r@ == join_of(cache_dir(*env), "ida-rs-cli.sock"@),
{
    join_path(dirs_cache_dir(env).as_str(), "ida-rs-cli.sock")
}

/// Registry file path (records daemon PID, socket, start time).
pub fn registry_path(env: &CacheEnv) -> (r: String)
    ensures
        r@ == join_of(cache_dir(*env), "daemon.json"@),
{
    join_path(dirs_cache_dir(env).as_str(), "daemon.json")
}

/// Directory holding per-target worker sockets.
pub fn worker_dir(env: &CacheEnv) -> (r: String)
    ensures
        r@ == join_of(cache_dir(*env), "workers"@),
{
    join_path(dirs_cache_dir(env).as_str(), "workers")
}

/// The name of the socket for a target's worker. It holds the router's process, so that a worker of
/// an earlier daemon can never remove the socket of a later one.
pub open spec fn worker_socket_name(router_pid: nat, id: Seq<char>) -> Seq<char> {
    "r"@ + decimal(router_pid) + "-"@ + id + ".sock"@
}

/// Socket path for the worker serving target `id`.
pub fn worker_socket_path(env: &CacheEnv, router_pid: u32, id: &str) -> (r: String)
    ensures
        r@ == join_of(
            join_of(cache_dir(*env), "workers"@),
            worker_socket_name(router_pid as nat, id@),
        ),
{
    let mut name = "r".to_owned();
    name.push_str(decimal_text(router_pid as u64).as_str());
    name.push_str("-");
    name.push_str(id);
    name.push_str(".sock");
    join_path(worker_dir(env).as_str(), name.as_str())
}

/// No two workers share a socket, neither within one daemon nor across two.
pub proof fn lemma_worker_sockets_differ(
    env: CacheEnv,
    pid: nat,
    id: Seq<char>,
    other_pid: nat,
    other_id: Seq<char>,
)
    ensures
        join_of(join_of(cache_dir(env), "workers"@), worker_socket_name(pid, id)) == join_of(
            join_of(cache_dir(env), "workers"@),
            worker_socket_name(other_pid, other_id),
        ) ==> pid == other_pid && id == other_id,
{
    let dir = join_of(cache_dir(env), "workers"@);
    let a = worker_socket_name(pid, id);
    let b = worker_socket_name(other_pid, other_id);
    let d = decimal(pid);
    let e = decimal(other_pid);
    let m = d.len() as int;
    let n = e.len() as int;
    reveal_strlit("r");
    reveal_strlit("-");
    reveal_strlit(".sock");
    lemma_written_chars(pid, 10);
    lemma_written_chars(other_pid, 10);
    lemma_digits_read_back(pid, 10);
    lemma_digits_read_back(other_pid, 10);
    assert(a[0] == 'r' && b[0] == 'r');
    if join_of(dir, a) == join_of(dir, b) {
        let front = join_of(dir, a).len() - a.len();
        assert(join_of(dir, a).skip(front) =~= a);
        assert(join_of(dir, b).skip(front) =~= b);
        assert(a[1 + m] == '-');
        assert(b[1 + n] == '-');
        if m < n {
            assert(b[1 + m] == e[m]);
        }
        if n < m {
            assert(a[1 + n] == d[n]);
        }
        assert(d =~= a.subrange(1, 1 + m));
        assert(e =~= b.subrange(1, 1 + n));
        assert(id =~= a.subrange(2 + m, a.len() - 5));
        assert(other_id =~= b.subrange(2 + n, b.len() - 5));
    }
}

/// Log file used by `daemon start --background`.
pub fn log_path(env: &CacheEnv) -> (r: String)
    ensures
        r@ == join_of(cache_dir(*env), "daemon.log"@),
{
    join_path(dirs_cache_dir(env).as_str(), "daemon.log")
}

/// The daemon's files are in the machine's place for caches: in the library of
/// the home directory on one kind of machine, else where the setting says, else
/// in the home directory, and in the temporary directory where there is none.
pub proof fn lemma_place_for_files(env: CacheEnv, home: Seq<char>, set: Seq<char>)
    requires
        env.home is Some ==> env.home->0@ == home && home.len() > 0 && home.last() != '/',
        env.xdg_cache_home is Some ==> env.xdg_cache_home->0@ == set && set.len() > 0 && set.last()
            != '/',
    ensures
        env.macos && env.home is Some ==> cache_dir(env) == home + "/Library/Caches/ida-rs-cli"@,
        !env.macos && env.xdg_cache_home is Some ==> cache_dir(env) == set + "/ida-rs-cli"@,
        !env.macos && env.xdg_cache_home is None && env.home is Some ==> cache_dir(env) == home
            + "/.cache/ida-rs-cli"@,
        env.home is None && (env.macos || env.xdg_cache_home is None) ==> cache_dir(env)
            == "/tmp/ida-rs-cli"@,
{
    reveal_strlit("Library/Caches/ida-rs-cli");
    reveal_strlit("/Library/Caches/ida-rs-cli");
    reveal_strlit("ida-rs-cli");
    reveal_strlit("/ida-rs-cli");
    reveal_strlit(".cache/ida-rs-cli");
    reveal_strlit("/.cache/ida-rs-cli");
    assert(seq!['/'] + "Library/Caches/ida-rs-cli"@ =~= "/Library/Caches/ida-rs-cli"@);
    assert(seq!['/'] + "ida-rs-cli"@ =~= "/ida-rs-cli"@);
    assert(seq!['/'] + ".cache/ida-rs-cli"@ =~= "/.cache/ida-rs-cli"@);
    assert(home + seq!['/'] + "Library/Caches/ida-rs-cli"@ =~= home + (seq!['/']
        + "Library/Caches/ida-rs-cli"@));
    assert(set + seq!['/'] + "ida-rs-cli"@ =~= set + (seq!['/'] + "ida-rs-cli"@));
    assert(home + seq!['/'] + ".cache/ida-rs-cli"@ =~= home + (seq!['/'] + ".cache/ida-rs-cli"@));
}

/// A daemon gives up on a worker before a client gives up on the daemon, and a
/// worker that does not come up or does not stop is waited for far less.
pub proof fn lemma_time_limits()
    ensures
        WORKER_OP_TIMEOUT_SECS == 600,
        WORKER_OP_TIMEOUT_SECS < CLIENT_DEFAULT_TIMEOUT_SECS,
        CLIENT_DEFAULT_TIMEOUT_SECS == 630,
        WORKER_CONNECT_TIMEOUT_SECS < WORKER_BOOT_TIMEOUT_SECS < WORKER_OP_TIMEOUT_SECS,
        WORKER_BOOT_TIMEOUT_SECS == 30 && WORKER_CONNECT_TIMEOUT_SECS == 5,
        WORKER_STOP_TIMEOUT_SECS == 5 && WORKER_STOP_TIMEOUT_SECS < CLIENT_STOP_TIMEOUT_SECS,
        CLIENT_STATUS_TIMEOUT_SECS == 3 && CLIENT_STOP_TIMEOUT_SECS == 20,
        MAX_LINE_BYTES == 16 * 1024 * 1024,
{
}

} // verus!
