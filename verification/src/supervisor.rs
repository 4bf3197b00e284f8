//! The supervisor: owns the live-process registry and drives the startup
//! and shutdown orchestration.
//!
//! `start_all` folds the host-reported outcomes of the ordered bring-up
//! sequence into the registry: only a synchronization failure aborts (and
//! registers nothing); launch failures and a missing initialization target
//! are tolerated. `stop_all` drains the registry atomically and hands back
//! the full two-phase termination plan for the drained processes; it never
//! fails, and on an already-empty registry it is a no-op.
use vstd::prelude::*;

use crate::catalog::RoleCatalog;
use crate::launcher::module_run_argv;
use crate::launcher::module_run_argv_spec;
use crate::paths::BackendPaths;
use crate::registry::ProcessRegistry;
use crate::startup::InitOutcome;
use crate::startup::LaunchAttempt;
use crate::startup::StartupError;
use crate::startup::SyncOutcome;
use crate::startup::record_all;
use crate::startup::startup_registry;
use crate::startup::startup_verdict;
use crate::termination::GracePolicy;
use crate::termination::Platform;
use crate::termination::ShutdownStep;
use crate::termination::build_shutdown_plan;
use crate::termination::shutdown_plan;

verus! {

/// The role label under which the server process is registered.
pub const SERVER_ROLE: &'static str = "server";

/// The process ids of a registry's entries, in order.
pub open spec fn pids_of(reg: Seq<(u32, Seq<char>)>) -> Seq<u32> {
    reg.map_values(|e: (u32, Seq<char>)| e.0)
}

/// One launch the host must perform: the role label to register a success
/// under, and the command line to start.
pub struct LaunchRequest {
    pub role: String,
    pub argv: Vec<String>,
}

impl View for LaunchRequest {
    type V = (Seq<char>, Seq<Seq<char>>);

    open spec fn view(&self) -> (Seq<char>, Seq<Seq<char>>) {
        (self.role@, self.argv@.map_values(|s: String| s@))
    }
}

/// The ordered launch list startup attempts: every configured worker role
/// in catalog order, then the server.
pub open spec fn launch_plan_spec(
    catalog: Seq<(Seq<char>, Seq<char>)>,
    env_file: Seq<char>,
    server_target: Seq<char>,
) -> Seq<(Seq<char>, Seq<Seq<char>>)> {
    catalog.map_values(
        |b: (Seq<char>, Seq<char>)| (b.0, module_run_argv_spec(env_file, b.1)),
    ).push(("server"@, module_run_argv_spec(env_file, server_target)))
}

/// The supervisor: resolved paths, the role catalog, the termination
/// configuration, and the registry of live processes it owns.
pub struct Supervisor {
    paths: BackendPaths,
    catalog: RoleCatalog,
    server_target: String,
    platform: Platform,
    policy: GracePolicy,
    registry: ProcessRegistry,
}

proof fn lemma_wf_agrees(s: Supervisor)
    ensures
        s.wf() <==> s.registry.wf(),
{
    if s.registry.wf() {
        assert forall|i: int, j: int|
            0 <= i < j < s.registry_view().len() implies s.registry_view()[i].0
            != s.registry_view()[j].0 by {
            assert(s.registry@[i].0 != s.registry@[j].0);
        }
    }
    if s.wf() {
        assert forall|i: int, j: int|
            0 <= i < j < s.registry@.len() implies s.registry@[i].0 != s.registry@[j].0 by {
            assert(s.registry_view()[i].0 != s.registry_view()[j].0);
        }
    }
}

impl Supervisor {
    /// The registry's contents.
    pub closed spec fn registry_view(&self) -> Seq<(u32, Seq<char>)> {
        self.registry@
    }

    /// The platform the termination plans are rendered for.
    pub closed spec fn spec_platform(&self) -> Platform {
        self.platform
    }

    /// The configured grace intervals.
    pub closed spec fn spec_policy(&self) -> GracePolicy {
        self.policy
    }

    /// The server's runtime module.
    pub closed spec fn spec_server_target(&self) -> Seq<char> {
        self.server_target@
    }

    /// The configured worker roles.
    pub closed spec fn spec_catalog(&self) -> Seq<(Seq<char>, Seq<char>)> {
        self.catalog@
    }

    /// The resolved environment-file path.
    pub closed spec fn spec_env_file(&self) -> Seq<char> {
        self.paths.env_file@
    }

    /// The resolved backend working directory.
    pub closed spec fn spec_backend_dir(&self) -> Seq<char> {
        self.paths.backend_dir@
    }

    /// The resolved log directory.
    pub closed spec fn spec_log_dir(&self) -> Seq<char> {
        self.paths.log_dir@
    }

    /// The registry never holds a process id twice.
    pub open spec fn wf(&self) -> bool {
        forall|i: int, j: int|
            0 <= i < j < self.registry_view().len() ==> self.registry_view()[i].0
                != self.registry_view()[j].0
    }

    /// A supervisor over validated paths, with an empty registry.
    pub fn new(
        paths: BackendPaths,
        catalog: RoleCatalog,
        server_target: String,
        platform: Platform,
        policy: GracePolicy,
    ) -> (s: Self)
        ensures
            s.wf(),
            s.registry_view() =~= Seq::<(u32, Seq<char>)>::empty(),
            s.spec_platform() == platform,
            s.spec_policy() == policy,
            s.spec_server_target() == server_target@,
            s.spec_catalog() == catalog@,
            s.spec_env_file() == paths.env_file@,
            s.spec_backend_dir() == paths.backend_dir@,
            s.spec_log_dir() == paths.log_dir@,
    {
        let registry = ProcessRegistry::new();
        let s = Supervisor { paths, catalog, server_target, platform, policy, registry };
        proof {
            lemma_wf_agrees(s);
        }
        s
    }

    /// How many processes the supervisor currently owns.
    pub fn registered_count(&self) -> (n: usize)
        ensures
            n == self.registry_view().len(),
    {
        self.registry.len()
    }

    /// The resolved backend working directory, for the host to spawn under.
    pub fn backend_dir(&self) -> (s: &String)
        ensures
            s@ == self.spec_backend_dir(),
    {
        &self.paths.backend_dir
    }

    /// The resolved environment-file path.
    pub fn env_file(&self) -> (s: &String)
        ensures
            s@ == self.spec_env_file(),
    {
        &self.paths.env_file
    }

    /// The resolved log directory.
    pub fn log_dir(&self) -> (s: &String)
        ensures
            s@ == self.spec_log_dir(),
    {
        &self.paths.log_dir
    }

    /// The ordered launches startup must attempt: each catalog role, then
    /// the server, each with its rendered command line.
    pub fn launch_plan(&self) -> (reqs: Vec<LaunchRequest>)
        ensures
            reqs@.map_values(|r: LaunchRequest| r@) == launch_plan_spec(
                self.spec_catalog(),
                self.spec_env_file(),
                self.spec_server_target(),
            ),
    {
        let mut reqs: Vec<LaunchRequest> = Vec::new();
        let n = self.catalog.len();
        let mut i: usize = 0;
        while i < n
            invariant
                0 <= i <= n,
                n == self.spec_catalog().len(),
                reqs@.len() == i,
                forall|k: int|
                    0 <= k < i ==> reqs@[k]@ == (
                        self.spec_catalog()[k].0,
                        module_run_argv_spec(self.spec_env_file(), self.spec_catalog()[k].1),
                    ),
            decreases n - i,
        {
            let b = self.catalog.binding(i);
            let argv = module_run_argv(self.paths.env_file.as_str(), b.target.as_str());
            reqs.push(LaunchRequest { role: b.role.clone(), argv });
            i += 1;
        }
        let argv = module_run_argv(self.paths.env_file.as_str(), self.server_target.as_str());
        proof {
            reveal_strlit("server");
        }
        reqs.push(LaunchRequest { role: SERVER_ROLE.to_owned(), argv });
        proof {
            assert(reqs@.map_values(|r: LaunchRequest| r@) =~= launch_plan_spec(
                self.spec_catalog(),
                self.spec_env_file(),
                self.spec_server_target(),
            ));
        }
        reqs
    }

    /// Record a completed startup run. The synchronization step gates
    /// everything: on its failure the error is returned and the registry is
    /// untouched — no worker and no server is registered. Otherwise every
    /// reported launch success is registered in order, launch failures and
    /// the initialization outcome notwithstanding, and startup succeeds.
    pub fn start_all(
        &mut self,
        sync: SyncOutcome,
        init: InitOutcome,
        attempts: &Vec<LaunchAttempt>,
    ) -> (r: Result<(), StartupError>)
        requires
            old(self).wf(),
        ensures
            final(self).wf(),
            final(self).registry_view() == startup_registry(
                old(self).registry_view(),
                sync,
                init,
                attempts@,
            ),
            r == startup_verdict(sync),
            final(self).spec_platform() == old(self).spec_platform(),
            final(self).spec_policy() == old(self).spec_policy(),
            final(self).spec_server_target() == old(self).spec_server_target(),
            final(self).spec_catalog() == old(self).spec_catalog(),
            final(self).spec_env_file() == old(self).spec_env_file(),
            final(self).spec_backend_dir() == old(self).spec_backend_dir(),
            final(self).spec_log_dir() == old(self).spec_log_dir(),
    {
        match sync {
            SyncOutcome::Failed => Err(StartupError::SyncFailed),
            SyncOutcome::Completed => {
                proof {
                    lemma_wf_agrees(*self);
                }
                record_all(&mut self.registry, attempts);
                proof {
                    lemma_wf_agrees(*self);
                }
                Ok(())
            },
        }
    }

    /// Drain the registry atomically and return the two-phase termination
    /// plan for everything drained, in registry order. Never fails; once it
    /// returns, the registry is empty, so a repeated call drains nothing
    /// and issues an empty plan.
    pub fn stop_all(&mut self) -> (plan: Vec<ShutdownStep>)
        requires
            old(self).wf(),
        ensures
            final(self).wf(),
            final(self).registry_view() =~= Seq::<(u32, Seq<char>)>::empty(),
            plan@ == shutdown_plan(
                pids_of(old(self).registry_view()),
                old(self).spec_platform(),
                old(self).spec_policy(),
            ),
            old(self).registry_view().len() == 0 ==> plan@ =~= Seq::<ShutdownStep>::empty(),
            final(self).spec_platform() == old(self).spec_platform(),
            final(self).spec_policy() == old(self).spec_policy(),
            final(self).spec_server_target() == old(self).spec_server_target(),
            final(self).spec_catalog() == old(self).spec_catalog(),
            final(self).spec_env_file() == old(self).spec_env_file(),
            final(self).spec_backend_dir() == old(self).spec_backend_dir(),
            final(self).spec_log_dir() == old(self).spec_log_dir(),
    {
        let ghost oldv = self.registry@;
        let entries = self.registry.drain();
        let mut pids: Vec<u32> = Vec::new();
        let n = entries.len();
        proof {
            assert(entries@.map_values(|p: crate::registry::SupervisedProcess| p@).len()
                == entries@.len());
        }
        let mut i: usize = 0;
        while i < n
            invariant
                0 <= i <= n,
                n == entries@.len(),
                oldv.len() == entries@.len(),
                forall|k: int|
                    0 <= k < entries@.len() ==> oldv[k] == entries@[k]@,
                pids@.len() == i,
                forall|k: int| 0 <= k < i ==> pids@[k] == oldv[k].0,
            decreases n - i,
        {
            pids.push(entries[i].pid);
            i += 1;
        }
        proof {
            assert(pids@ =~= pids_of(oldv));
            lemma_wf_agrees(*self);
        }
        build_shutdown_plan(&pids, self.platform, self.policy)
    }
}

} // verus!
