//! Command-line resolution for the processes the supervisor runs: the
//! dependency-synchronization step, the one-shot initialization script, and
//! one runtime module invocation per worker role and for the server. Every
//! invocation runs under the backend working directory with the resolved
//! environment file.
use vstd::prelude::*;

verus! {

/// The server's runtime module.
pub const SERVER_MODULE: &'static str = "valuecell.server.main";

/// The package index mirror used where the default index is unreachable or
/// slow for the detected region.
pub const MIRROR_INDEX_URL: &'static str = "https://mirrors.aliyun.com/pypi/simple/";

/// The dependency-synchronization command line: a frozen sync, with the
/// mirror index named exactly when the region decision asked for it.
pub open spec fn sync_argv_spec(use_mirror: bool) -> Seq<Seq<char>> {
    if use_mirror {
        seq!["uv"@, "sync"@, "--frozen"@, "--index-url"@, MIRROR_INDEX_URL@]
    } else {
        seq!["uv"@, "sync"@, "--frozen"@]
    }
}

/// Build the dependency-synchronization command line.
pub fn sync_argv(use_mirror: bool) -> (argv: Vec<String>)
    ensures
        argv@.map_values(|s: String| s@) == sync_argv_spec(use_mirror),
{
    let mut argv: Vec<String> = Vec::new();
    argv.push("uv".to_owned());
    argv.push("sync".to_owned());
    argv.push("--frozen".to_owned());
    if use_mirror {
        argv.push("--index-url".to_owned());
        argv.push(MIRROR_INDEX_URL.to_owned());
    }
    proof {
        assert(argv@.map_values(|s: String| s@) =~= sync_argv_spec(use_mirror));
    }
    argv
}

/// The command line that runs one runtime module (a worker role or the
/// server) with the resolved environment file.
pub open spec fn module_run_argv_spec(env_file: Seq<char>, module: Seq<char>) -> Seq<Seq<char>> {
    seq!["uv"@, "run"@, "--env-file"@, env_file, "-m"@, module]
}

/// Build the command line for one runtime module.
pub fn module_run_argv(env_file: &str, module: &str) -> (argv: Vec<String>)
    ensures
        argv@.map_values(|s: String| s@) == module_run_argv_spec(env_file@, module@),
{
    let mut argv: Vec<String> = Vec::new();
    argv.push("uv".to_owned());
    argv.push("run".to_owned());
    argv.push("--env-file".to_owned());
    argv.push(env_file.to_owned());
    argv.push("-m".to_owned());
    argv.push(module.to_owned());
    proof {
        assert(argv@.map_values(|s: String| s@) =~= module_run_argv_spec(env_file@, module@));
    }
    argv
}

/// The command line that runs the one-shot initialization script with the
/// resolved environment file.
pub open spec fn script_run_argv_spec(env_file: Seq<char>, script: Seq<char>) -> Seq<Seq<char>> {
    seq!["uv"@, "run"@, "--env-file"@, env_file, script]
}

/// Build the command line for the initialization script.
pub fn script_run_argv(env_file: &str, script: &str) -> (argv: Vec<String>)
    ensures
        argv@.map_values(|s: String| s@) == script_run_argv_spec(env_file@, script@),
{
    let mut argv: Vec<String> = Vec::new();
    argv.push("uv".to_owned());
    argv.push("run".to_owned());
    argv.push("--env-file".to_owned());
    argv.push(env_file.to_owned());
    argv.push(script.to_owned());
    proof {
        assert(argv@.map_values(|s: String| s@) =~= script_run_argv_spec(env_file@, script@));
    }
    argv
}

} // verus!
