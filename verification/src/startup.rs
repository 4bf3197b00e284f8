//! The startup orchestrator's decision logic.
//!
//! Bring-up order: a mandatory dependency-synchronization step, an optional
//! one-shot initialization step, then one launch attempt per worker role and
//! one for the server. Only the synchronization step gates startup; an
//! individual launch failure is recorded as a gap, never as an abort, and an
//! absent initialization target is skipped.
//!
//! The host performs the actual process spawns and reports each attempt's
//! outcome; `record_all` folds those outcomes into the registry exactly as
//! `record_attempts` describes.
use vstd::prelude::*;

use crate::registry::ProcessRegistry;
use crate::registry::SupervisedProcess;
use crate::registry::spec_has_pid;

verus! {

/// Outcome of the blocking dependency-synchronization step.
#[derive(Clone, Copy, PartialEq, Eq, Structural, Debug)]
pub enum SyncOutcome {
    Completed,
    Failed,
}

/// Outcome of the one-shot initialization step. An absent target is the
/// expected first-run/already-initialized distinction and is non-fatal, as
/// is a failure of the step itself.
#[derive(Clone, Copy, PartialEq, Eq, Structural, Debug)]
pub enum InitOutcome {
    Completed,
    TargetAbsent,
    Failed,
}

/// The only error `start_all` can raise: the synchronization step failed.
#[derive(Clone, Copy, PartialEq, Eq, Structural, Debug)]
pub enum StartupError {
    SyncFailed,
}

/// One launch attempt: the role it was made for and, on success, the process
/// id of the new process.
pub struct LaunchAttempt {
    pub role: String,
    pub outcome: Option<u32>,
}

/// The registry after one attempt is recorded: a success appends its entry
/// (unless the process id is somehow already held), a failure changes
/// nothing.
pub open spec fn record_attempt(
    reg: Seq<(u32, Seq<char>)>,
    role: Seq<char>,
    outcome: Option<u32>,
) -> Seq<(u32, Seq<char>)> {
    match outcome {
        Some(pid) => if spec_has_pid(reg, pid) {
            reg
        } else {
            reg.push((pid, role))
        },
        None => reg,
    }
}

/// The registry after a whole sequence of attempts is recorded, first to
/// last.
pub open spec fn record_attempts(
    reg: Seq<(u32, Seq<char>)>,
    attempts: Seq<LaunchAttempt>,
) -> Seq<(u32, Seq<char>)>
    decreases attempts.len(),
{
    if attempts.len() == 0 {
        reg
    } else {
        record_attempts(
            record_attempt(reg, attempts[0].role@, attempts[0].outcome),
            attempts.drop_first(),
        )
    }
}

/// How many of the attempts succeeded.
pub open spec fn count_successes(attempts: Seq<LaunchAttempt>) -> nat
    decreases attempts.len(),
{
    if attempts.len() == 0 {
        0
    } else {
        (if attempts[0].outcome is Some {
            1nat
        } else {
            0nat
        }) + count_successes(attempts.drop_first())
    }
}

/// The successful attempts carry process ids that are pairwise distinct and
/// not already registered — what the operating system guarantees of the pids
/// of concurrently live processes this supervisor itself spawned.
pub open spec fn fresh_distinct_pids(
    reg: Seq<(u32, Seq<char>)>,
    attempts: Seq<LaunchAttempt>,
) -> bool {
    &&& forall|i: int|
        0 <= i < attempts.len() && attempts[i].outcome is Some
            ==> !spec_has_pid(reg, attempts[i].outcome->0)
    &&& forall|i: int, j: int|
        0 <= i < j < attempts.len() && attempts[i].outcome is Some
            && attempts[j].outcome is Some ==> attempts[i].outcome->0 != attempts[j].outcome->0
}

/// What the whole startup run leaves in the registry. The synchronization
/// step gates everything; the initialization step's outcome gates nothing.
pub open spec fn startup_registry(
    reg: Seq<(u32, Seq<char>)>,
    sync: SyncOutcome,
    init: InitOutcome,
    attempts: Seq<LaunchAttempt>,
) -> Seq<(u32, Seq<char>)> {
    match sync {
        SyncOutcome::Failed => reg,
        SyncOutcome::Completed => record_attempts(reg, attempts),
    }
}

/// What the whole startup run returns to the caller.
pub open spec fn startup_verdict(sync: SyncOutcome) -> Result<(), StartupError> {
    match sync {
        SyncOutcome::Failed => Err(StartupError::SyncFailed),
        SyncOutcome::Completed => Ok(()),
    }
}

/// Fold a sequence of launch outcomes into the registry, in order.
pub fn record_all(reg: &mut ProcessRegistry, attempts: &Vec<LaunchAttempt>)
    requires
        old(reg).wf(),
    ensures
        final(reg).wf(),
        final(reg)@ == record_attempts(old(reg)@, attempts@),
{
    let n = attempts.len();
    proof {
        assert(attempts@.skip(0) =~= attempts@);
    }
    let mut i: usize = 0;
    while i < n
        invariant
            0 <= i <= n,
            n == attempts@.len(),
            reg.wf(),
            record_attempts(reg@, attempts@.skip(i as int))
                == record_attempts(old(reg)@, attempts@),
        decreases n - i,
    {
        let ghost rest = attempts@.skip(i as int);
        proof {
            assert(rest[0] == attempts@[i as int]);
            assert(rest.drop_first() =~= attempts@.skip(i as int + 1));
        }
        let ghost reg_pre = reg@;
        let a = &attempts[i];
        match a.outcome {
            Some(pid) => {
                let entry = SupervisedProcess { pid, role: a.role.clone() };
                assert(entry@ == (pid, a.role@));
                let _added = reg.register(entry);
            },
            None => {},
        }
        proof {
            assert(reg@ == record_attempt(reg_pre, rest[0].role@, rest[0].outcome));
            assert(record_attempts(reg_pre, rest) == record_attempts(reg@, rest.drop_first()));
        }
        i += 1;
    }
    proof {
        assert(attempts@.skip(n as int) =~= Seq::<LaunchAttempt>::empty());
    }
}

/// Recording attempts never removes an already-registered process: the old
/// registry stays an unchanged prefix of the new one, whatever mixture of
/// successes and failures follows.
pub proof fn lemma_registered_processes_persist(
    reg: Seq<(u32, Seq<char>)>,
    attempts: Seq<LaunchAttempt>,
)
    ensures
        record_attempts(reg, attempts).len() >= reg.len(),
        forall|k: int|
            0 <= k < reg.len() ==> record_attempts(reg, attempts)[k] == reg[k],
    decreases attempts.len(),
{
    if attempts.len() > 0 {
        let reg1 = record_attempt(reg, attempts[0].role@, attempts[0].outcome);
        lemma_registered_processes_persist(reg1, attempts.drop_first());
        assert forall|k: int| 0 <= k < reg.len() implies record_attempts(reg, attempts)[k]
            == reg[k] by {
            assert(reg1[k] == reg[k]);
            assert(record_attempts(reg1, attempts.drop_first())[k] == reg1[k]);
        }
    }
}

/// For any sequence of launch attempts with K successes (fresh, distinct
/// process ids) and the rest failures, recording them adds exactly K
/// entries: failures neither remove registered processes nor abort the
/// remaining launches. With the server's attempt as the last element this is
/// the registry `start_all` leaves behind.
pub proof fn lemma_registry_counts_successes(
    reg: Seq<(u32, Seq<char>)>,
    attempts: Seq<LaunchAttempt>,
)
    requires
        fresh_distinct_pids(reg, attempts),
    ensures
        record_attempts(reg, attempts).len() == reg.len() + count_successes(attempts),
    decreases attempts.len(),
{
    if attempts.len() > 0 {
        let a = attempts[0];
        let reg1 = record_attempt(reg, a.role@, a.outcome);
        let rest = attempts.drop_first();
        assert forall|i: int|
            0 <= i < rest.len() && rest[i].outcome is Some implies !spec_has_pid(
            reg1,
            rest[i].outcome->0,
        ) by {
            assert(rest[i] == attempts[i + 1]);
            assert(!spec_has_pid(reg, attempts[i + 1].outcome->0));
            if a.outcome is Some {
                assert(attempts[0].outcome->0 != attempts[i + 1].outcome->0);
            }
        }
        assert forall|i: int, j: int|
            0 <= i < j < rest.len() && rest[i].outcome is Some
                && rest[j].outcome is Some implies rest[i].outcome->0 != rest[j].outcome->0 by {
            assert(rest[i] == attempts[i + 1]);
            assert(rest[j] == attempts[j + 1]);
        }
        lemma_registry_counts_successes(reg1, rest);
        if a.outcome is Some {
            assert(!spec_has_pid(reg, a.outcome->0));
            assert(reg1.len() == reg.len() + 1);
        }
    }
}

/// If the synchronization step fails, startup registers nothing — a registry
/// that was empty stays empty — and the caller gets the error, whatever the
/// initialization outcome and whatever launch attempts were prepared.
pub proof fn lemma_sync_failure_registers_nothing(
    init: InitOutcome,
    attempts: Seq<LaunchAttempt>,
)
    ensures
        startup_registry(
            Seq::<(u32, Seq<char>)>::empty(),
            SyncOutcome::Failed,
            init,
            attempts,
        ) =~= Seq::<(u32, Seq<char>)>::empty(),
        startup_verdict(SyncOutcome::Failed) == Err::<(), StartupError>(StartupError::SyncFailed),
{
}

/// The initialization step never gates startup: an absent target (or even a
/// failed run) leaves exactly the registry and the verdict that a completed
/// run would, so all workers and the server are still attempted.
pub proof fn lemma_init_outcome_never_gates(
    reg: Seq<(u32, Seq<char>)>,
    sync: SyncOutcome,
    init_a: InitOutcome,
    init_b: InitOutcome,
    attempts: Seq<LaunchAttempt>,
)
    ensures
        startup_registry(reg, sync, init_a, attempts) == startup_registry(
            reg,
            sync,
            init_b,
            attempts,
        ),
{
}

} // verus!
