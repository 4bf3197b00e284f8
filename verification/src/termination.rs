//! The descendant terminator and the shutdown orchestrator's plans.
//!
//! Both are decision logic: they compute, step by step, what the host must
//! do to tear a process (and its descendants) down. Neither can fail — both
//! functions are total and return no error, and the host executes every step
//! best-effort — so no shutdown-path failure ever reaches the caller.
//!
//! Termination of one process is two-phase: request a graceful exit, wait a
//! grace period, signal the process's descendants (graceful signal, timed
//! wait, forceful signal where the platform can signal a process's children;
//! one forceful tree-kill where it cannot), then force-kill the process
//! itself.
use vstd::prelude::*;

use crate::strutil::dec_str;
use crate::strutil::u32_to_decimal;

verus! {

/// How the host can reach a process's descendants: with per-child signals
/// (`Signals`) or only with a recursive tree-kill utility (`TreeKillUtility`).
#[derive(Clone, Copy, PartialEq, Eq, Structural, Debug)]
pub enum Platform {
    Signals,
    TreeKillUtility,
}

/// Grace intervals of the two-phase termination protocol, in milliseconds:
/// `exit_grace_millis` after the graceful exit request to the process
/// itself, `tree_grace_millis` between the graceful and the forceful signal
/// to its descendants.
#[derive(Clone, Copy, PartialEq, Eq, Structural, Debug)]
pub struct GracePolicy {
    pub exit_grace_millis: u64,
    pub tree_grace_millis: u64,
}

/// One step of the termination protocol, for the host to execute
/// best-effort and in order.
#[derive(Clone, Copy, PartialEq, Eq, Structural, Debug)]
pub enum ShutdownStep {
    /// Write the graceful-exit request to the process's input stream.
    RequestExit { pid: u32 },
    /// Sleep for the given interval.
    Wait { millis: u64 },
    /// Signal the descendants of `pid`: a stop request when `forceful` is
    /// false, an immediate kill when it is true.
    SignalDescendants { pid: u32, forceful: bool },
    /// Force-kill the process handle itself.
    KillProcess { pid: u32 },
}

/// The graceful-exit request written to a process's input stream.
pub const EXIT_COMMAND: &'static str = "__EXIT__\n";

/// The descendant-termination steps for one process: graceful signal, timed
/// wait, forceful signal where per-child signals exist; one forceful
/// tree-kill where only the utility does.
pub open spec fn descendant_plan(platform: Platform, pid: u32, policy: GracePolicy) -> Seq<
    ShutdownStep,
> {
    match platform {
        Platform::Signals => seq![
            ShutdownStep::SignalDescendants { pid, forceful: false },
            ShutdownStep::Wait { millis: policy.tree_grace_millis },
            ShutdownStep::SignalDescendants { pid, forceful: true },
        ],
        Platform::TreeKillUtility => seq![ShutdownStep::SignalDescendants { pid, forceful: true }],
    }
}

/// Compute the descendant-termination steps for `pid`. Total for every
/// process id, platform and policy, and returns no error: whether the
/// target process exists, has descendants, or the signalling primitive
/// works is the host's best-effort business and never observable here.
pub fn terminate_descendants_steps(platform: Platform, pid: u32, policy: GracePolicy) -> (steps:
    Vec<ShutdownStep>)
    ensures
        steps@ == descendant_plan(platform, pid, policy),
{
    let mut steps: Vec<ShutdownStep> = Vec::new();
    match platform {
        Platform::Signals => {
            steps.push(ShutdownStep::SignalDescendants { pid, forceful: false });
            steps.push(ShutdownStep::Wait { millis: policy.tree_grace_millis });
            steps.push(ShutdownStep::SignalDescendants { pid, forceful: true });
        },
        Platform::TreeKillUtility => {
            steps.push(ShutdownStep::SignalDescendants { pid, forceful: true });
        },
    }
    proof {
        assert(steps@ =~= descendant_plan(platform, pid, policy));
    }
    steps
}

/// The full termination steps for one registered process: graceful exit
/// request, grace wait, descendant termination, then a direct forceful
/// kill of the process itself.
pub open spec fn entry_plan(platform: Platform, pid: u32, policy: GracePolicy) -> Seq<
    ShutdownStep,
> {
    seq![
        ShutdownStep::RequestExit { pid },
        ShutdownStep::Wait { millis: policy.exit_grace_millis },
    ] + descendant_plan(platform, pid, policy) + seq![ShutdownStep::KillProcess { pid }]
}

/// The whole shutdown plan: the termination steps of every drained process,
/// in registry order.
pub open spec fn shutdown_plan(pids: Seq<u32>, platform: Platform, policy: GracePolicy) -> Seq<
    ShutdownStep,
>
    decreases pids.len(),
{
    if pids.len() == 0 {
        Seq::<ShutdownStep>::empty()
    } else {
        entry_plan(platform, pids[0], policy) + shutdown_plan(pids.drop_first(), platform, policy)
    }
}

/// Append the termination steps for one process to a plan under
/// construction.
fn push_entry_plan(plan: &mut Vec<ShutdownStep>, platform: Platform, pid: u32, policy: GracePolicy)
    ensures
        final(plan)@ == old(plan)@ + entry_plan(platform, pid, policy),
{
    plan.push(ShutdownStep::RequestExit { pid });
    plan.push(ShutdownStep::Wait { millis: policy.exit_grace_millis });
    let mut tail = terminate_descendants_steps(platform, pid, policy);
    plan.append(&mut tail);
    plan.push(ShutdownStep::KillProcess { pid });
    proof {
        assert(plan@ =~= old(plan)@ + entry_plan(platform, pid, policy));
    }
}

/// Compute the shutdown plan for the given process ids, in order. Total and
/// error-free, like every shutdown-path operation.
pub fn build_shutdown_plan(pids: &Vec<u32>, platform: Platform, policy: GracePolicy) -> (plan: Vec<
    ShutdownStep,
>)
    ensures
        plan@ == shutdown_plan(pids@, platform, policy),
{
    let mut plan: Vec<ShutdownStep> = Vec::new();
    let n = pids.len();
    proof {
        assert(pids@.skip(0) =~= pids@);
    }
    let mut i: usize = 0;
    while i < n
        invariant
            0 <= i <= n,
            n == pids@.len(),
            plan@ + shutdown_plan(pids@.skip(i as int), platform, policy) == shutdown_plan(
                pids@,
                platform,
                policy,
            ),
        decreases n - i,
    {
        let ghost rest = pids@.skip(i as int);
        proof {
            assert(rest[0] == pids@[i as int]);
            assert(rest.drop_first() =~= pids@.skip(i as int + 1));
        }
        let ghost plan_pre = plan@;
        push_entry_plan(&mut plan, platform, pids[i], policy);
        proof {
            assert(plan_pre + shutdown_plan(rest, platform, policy) == shutdown_plan(
                pids@,
                platform,
                policy,
            ));
            assert(shutdown_plan(rest, platform, policy) == entry_plan(platform, rest[0], policy)
                + shutdown_plan(rest.drop_first(), platform, policy));
            assert(plan@ + shutdown_plan(rest.drop_first(), platform, policy) =~= plan_pre + (
            entry_plan(platform, rest[0], policy) + shutdown_plan(
                rest.drop_first(),
                platform,
                policy,
            )));
        }
        i += 1;
    }
    proof {
        assert(pids@.skip(n as int) =~= Seq::<u32>::empty());
        assert(plan@ + Seq::<ShutdownStep>::empty() =~= plan@);
    }
    plan
}

/// The command line that signals the descendants of `pid`: per-child
/// signalling where the platform has it, the recursive tree-kill utility
/// where it does not.
pub open spec fn signal_tree_argv(platform: Platform, pid: u32, forceful: bool) -> Seq<Seq<char>> {
    match platform {
        Platform::Signals => seq![
            "pkill"@,
            if forceful { "-KILL"@ } else { "-INT"@ },
            "-P"@,
            dec_str(pid as nat),
        ],
        Platform::TreeKillUtility => seq![
            "taskkill"@,
            "/F"@,
            "/T"@,
            "/PID"@,
            dec_str(pid as nat),
        ],
    }
}

/// Render the descendant-signalling command for the host to run.
pub fn signal_tree_command(platform: Platform, pid: u32, forceful: bool) -> (argv: Vec<String>)
    ensures
        argv@.map_values(|s: String| s@) == signal_tree_argv(platform, pid, forceful),
{
    let mut argv: Vec<String> = Vec::new();
    match platform {
        Platform::Signals => {
            argv.push("pkill".to_owned());
            if forceful {
                argv.push("-KILL".to_owned());
            } else {
                argv.push("-INT".to_owned());
            }
            argv.push("-P".to_owned());
            argv.push(u32_to_decimal(pid));
        },
        Platform::TreeKillUtility => {
            argv.push("taskkill".to_owned());
            argv.push("/F".to_owned());
            argv.push("/T".to_owned());
            argv.push("/PID".to_owned());
            argv.push(u32_to_decimal(pid));
        },
    }
    proof {
        assert(argv@.map_values(|s: String| s@) =~= signal_tree_argv(platform, pid, forceful));
    }
    argv
}

/// How long the plan sleeps in total, in milliseconds.
pub open spec fn total_wait_millis(plan: Seq<ShutdownStep>) -> int
    decreases plan.len(),
{
    if plan.len() == 0 {
        0
    } else {
        (match plan[0] {
            ShutdownStep::Wait { millis } => millis as int,
            _ => 0,
        }) + total_wait_millis(plan.drop_first())
    }
}

/// The grace time spent on one entry: the exit grace plus, where per-child
/// signals exist, the descendant grace.
pub open spec fn entry_wait_millis(platform: Platform, policy: GracePolicy) -> int {
    match platform {
        Platform::Signals => policy.exit_grace_millis as int + policy.tree_grace_millis as int,
        Platform::TreeKillUtility => policy.exit_grace_millis as int,
    }
}

proof fn lemma_total_wait_concat(a: Seq<ShutdownStep>, b: Seq<ShutdownStep>)
    ensures
        total_wait_millis(a + b) == total_wait_millis(a) + total_wait_millis(b),
    decreases a.len(),
{
    if a.len() == 0 {
        assert(a + b =~= b);
    } else {
        assert((a + b)[0] == a[0]);
        assert((a + b).drop_first() =~= a.drop_first() + b);
        lemma_total_wait_concat(a.drop_first(), b);
    }
}

proof fn lemma_entry_plan_wait(platform: Platform, pid: u32, policy: GracePolicy)
    ensures
        total_wait_millis(entry_plan(platform, pid, policy)) == entry_wait_millis(
            platform,
            policy,
        ),
{
    let pre = seq![
        ShutdownStep::RequestExit { pid },
        ShutdownStep::Wait { millis: policy.exit_grace_millis },
    ];
    let desc = descendant_plan(platform, pid, policy);
    let kill = seq![ShutdownStep::KillProcess { pid }];
    lemma_total_wait_concat(pre + desc, kill);
    lemma_total_wait_concat(pre, desc);
    assert(pre.drop_first().drop_first() =~= Seq::<ShutdownStep>::empty());
    assert(total_wait_millis(Seq::<ShutdownStep>::empty()) == 0);
    assert(total_wait_millis(pre.drop_first()) == policy.exit_grace_millis as int
        + total_wait_millis(pre.drop_first().drop_first()));
    assert(total_wait_millis(pre) == 0 + total_wait_millis(pre.drop_first()));
    assert(kill.drop_first() =~= Seq::<ShutdownStep>::empty());
    assert(total_wait_millis(kill) == 0 + total_wait_millis(kill.drop_first()));
    match platform {
        Platform::Signals => {
            assert(desc.drop_first() =~= seq![
                ShutdownStep::Wait { millis: policy.tree_grace_millis },
                ShutdownStep::SignalDescendants { pid, forceful: true },
            ]);
            assert(desc.drop_first().drop_first() =~= seq![
                ShutdownStep::SignalDescendants { pid, forceful: true },
            ]);
            assert(desc.drop_first().drop_first().drop_first() =~= Seq::<ShutdownStep>::empty());
            assert(total_wait_millis(desc.drop_first().drop_first()) == 0
                + total_wait_millis(desc.drop_first().drop_first().drop_first()));
            assert(total_wait_millis(desc.drop_first()) == policy.tree_grace_millis as int
                + total_wait_millis(desc.drop_first().drop_first()));
            assert(total_wait_millis(desc) == 0 + total_wait_millis(desc.drop_first()));
        },
        Platform::TreeKillUtility => {
            assert(desc.drop_first() =~= Seq::<ShutdownStep>::empty());
            assert(total_wait_millis(desc) == 0 + total_wait_millis(desc.drop_first()));
        },
    }
}

/// Total shutdown latency is bounded: the plan sleeps exactly one grace
/// interval per drained process — linear in the registry's size, never
/// unbounded, and zero once the registry is empty.
pub proof fn lemma_shutdown_latency_linear(
    pids: Seq<u32>,
    platform: Platform,
    policy: GracePolicy,
)
    ensures
        total_wait_millis(shutdown_plan(pids, platform, policy)) == pids.len()
            * entry_wait_millis(platform, policy),
    decreases pids.len(),
{
    if pids.len() == 0 {
    } else {
        let head = entry_plan(platform, pids[0], policy);
        let rest = shutdown_plan(pids.drop_first(), platform, policy);
        lemma_total_wait_concat(head, rest);
        lemma_entry_plan_wait(platform, pids[0], policy);
        lemma_shutdown_latency_linear(pids.drop_first(), platform, policy);
        let w = entry_wait_millis(platform, policy);
        let n = pids.len() as int;
        assert(w + (n - 1) * w == n * w) by (nonlinear_arith);
    }
}

/// An empty registry yields an empty shutdown plan: a second `stop_all`,
/// which drains nothing, therefore issues no request, no signal and no
/// kill — calling it twice is calling it once.
pub proof fn lemma_stop_all_idempotent(platform: Platform, policy: GracePolicy)
    ensures
        shutdown_plan(Seq::<u32>::empty(), platform, policy) =~= Seq::<ShutdownStep>::empty(),
{
}

/// One process's termination steps always end in force: the forceful
/// descendant signal and the direct kill are in the plan on either
/// platform.
pub proof fn lemma_entry_plan_ends_in_force(platform: Platform, pid: u32, policy: GracePolicy)
    ensures
        entry_plan(platform, pid, policy).contains(ShutdownStep::KillProcess { pid }),
        entry_plan(platform, pid, policy).contains(
            ShutdownStep::SignalDescendants { pid, forceful: true },
        ),
{
    let head = entry_plan(platform, pid, policy);
    let kill = ShutdownStep::KillProcess { pid };
    let force = ShutdownStep::SignalDescendants { pid, forceful: true };
    match platform {
        Platform::Signals => {
            assert(head[5] == kill);
            assert(head[4] == force);
        },
        Platform::TreeKillUtility => {
            assert(head[3] == kill);
            assert(head[2] == force);
        },
    }
    assert(head.contains(kill));
    assert(head.contains(force));
}

/// Every drained process is force-killed and has its descendants signalled
/// forcefully, whether or not it heeded the graceful request: the plan
/// always contains both forceful steps for each process id.
pub proof fn lemma_every_process_force_killed(
    pids: Seq<u32>,
    platform: Platform,
    policy: GracePolicy,
    i: int,
)
    requires
        0 <= i < pids.len(),
    ensures
        shutdown_plan(pids, platform, policy).contains(
            ShutdownStep::KillProcess { pid: pids[i] },
        ),
        shutdown_plan(pids, platform, policy).contains(
            ShutdownStep::SignalDescendants { pid: pids[i], forceful: true },
        ),
    decreases pids.len(),
{
    let plan = shutdown_plan(pids, platform, policy);
    let head = entry_plan(platform, pids[0], policy);
    let rest = shutdown_plan(pids.drop_first(), platform, policy);
    assert(plan == head + rest);
    if i == 0 {
        let kill = ShutdownStep::KillProcess { pid: pids[0] };
        let force = ShutdownStep::SignalDescendants { pid: pids[0], forceful: true };
        lemma_entry_plan_ends_in_force(platform, pids[0], policy);
        assert(exists|j: int| 0 <= j < head.len() && head[j] == kill);
        let j = choose|j: int| 0 <= j < head.len() && head[j] == kill;
        assert(plan[j] == kill);
        assert(exists|k: int| 0 <= k < head.len() && head[k] == force);
        let k = choose|k: int| 0 <= k < head.len() && head[k] == force;
        assert(plan[k] == force);
        assert(plan.contains(kill));
        assert(plan.contains(force));
    } else {
        lemma_every_process_force_killed(pids.drop_first(), platform, policy, i - 1);
        let kill = ShutdownStep::KillProcess { pid: pids[i] };
        let force = ShutdownStep::SignalDescendants { pid: pids[i], forceful: true };
        assert(pids.drop_first()[i - 1] == pids[i]);
        assert(exists|j: int| 0 <= j < rest.len() && rest[j] == kill);
        let j = choose|j: int| 0 <= j < rest.len() && rest[j] == kill;
        assert(plan[head.len() + j] == kill);
        assert(exists|k: int| 0 <= k < rest.len() && rest[k] == force);
        let k = choose|k: int| 0 <= k < rest.len() && rest[k] == force;
        assert(plan[head.len() + k] == force);
        assert(plan.contains(kill));
        assert(plan.contains(force));
    }
}

} // verus!
