use valuecell_supervisor::BackendPaths;
use valuecell_supervisor::ConstructionError;
use valuecell_supervisor::GracePolicy;
use valuecell_supervisor::InitOutcome;
use valuecell_supervisor::LaunchAttempt;
use valuecell_supervisor::Platform;
use valuecell_supervisor::RoleCatalog;
use valuecell_supervisor::ShutdownStep;
use valuecell_supervisor::StartupError;
use valuecell_supervisor::Supervisor;
use valuecell_supervisor::SyncOutcome;

fn paths() -> BackendPaths {
    BackendPaths::new(
        "/srv/backend".to_string(),
        true,
        "/srv/backend/.env".to_string(),
        true,
        "/var/log/backend".to_string(),
        true,
    )
    .unwrap()
}

fn catalog() -> RoleCatalog {
    let mut c = RoleCatalog::new();
    assert!(c.define("research".to_string(), "app.research.main".to_string()));
    assert!(c.define("analysis".to_string(), "app.analysis.main".to_string()));
    c
}

fn policy() -> GracePolicy {
    GracePolicy { exit_grace_millis: 3000, tree_grace_millis: 3000 }
}

fn supervisor() -> Supervisor {
    Supervisor::new(
        paths(),
        catalog(),
        "app.server.main".to_string(),
        Platform::Signals,
        policy(),
    )
}

fn attempt(role: &str, outcome: Option<u32>) -> LaunchAttempt {
    LaunchAttempt { role: role.to_string(), outcome }
}

#[test]
fn startup_registers_successes_and_tolerates_failures() {
    let mut sup = supervisor();
    // two worker attempts, one fails; the server succeeds
    let attempts = vec![
        attempt("research", Some(101)),
        attempt("analysis", None),
        attempt("server", Some(102)),
    ];
    let r = sup.start_all(SyncOutcome::Completed, InitOutcome::Completed, &attempts);
    assert!(r.is_ok());
    assert_eq!(sup.registered_count(), 2);
}

#[test]
fn startup_with_all_launches_failing_still_succeeds() {
    let mut sup = supervisor();
    let attempts = vec![
        attempt("research", None),
        attempt("analysis", None),
        attempt("server", None),
    ];
    let r = sup.start_all(SyncOutcome::Completed, InitOutcome::Completed, &attempts);
    assert!(r.is_ok());
    assert_eq!(sup.registered_count(), 0);
}

#[test]
fn sync_failure_aborts_and_registers_nothing() {
    let mut sup = supervisor();
    let attempts = vec![attempt("research", Some(5)), attempt("server", Some(6))];
    let r = sup.start_all(SyncOutcome::Failed, InitOutcome::Completed, &attempts);
    assert_eq!(r, Err(StartupError::SyncFailed));
    assert_eq!(sup.registered_count(), 0);
}

#[test]
fn absent_init_target_does_not_gate_startup() {
    let mut sup = supervisor();
    let attempts = vec![
        attempt("research", Some(21)),
        attempt("analysis", Some(22)),
        attempt("server", Some(23)),
    ];
    let r = sup.start_all(SyncOutcome::Completed, InitOutcome::TargetAbsent, &attempts);
    assert!(r.is_ok());
    assert_eq!(sup.registered_count(), 3);
}

#[test]
fn stop_all_twice_is_stop_all_once() {
    let mut sup = supervisor();
    let attempts = vec![attempt("server", Some(42))];
    sup.start_all(SyncOutcome::Completed, InitOutcome::Completed, &attempts)
        .unwrap();
    assert_eq!(sup.registered_count(), 1);

    let first = sup.stop_all();
    assert!(!first.is_empty());
    assert_eq!(sup.registered_count(), 0);

    let second = sup.stop_all();
    assert!(second.is_empty());
    assert_eq!(sup.registered_count(), 0);
}

#[test]
fn stop_all_plan_is_the_two_phase_protocol() {
    let mut sup = supervisor();
    let attempts = vec![attempt("server", Some(42))];
    sup.start_all(SyncOutcome::Completed, InitOutcome::Completed, &attempts)
        .unwrap();
    let plan = sup.stop_all();
    assert_eq!(
        plan,
        vec![
            ShutdownStep::RequestExit { pid: 42 },
            ShutdownStep::Wait { millis: 3000 },
            ShutdownStep::SignalDescendants { pid: 42, forceful: false },
            ShutdownStep::Wait { millis: 3000 },
            ShutdownStep::SignalDescendants { pid: 42, forceful: true },
            ShutdownStep::KillProcess { pid: 42 },
        ]
    );
}

#[test]
fn stop_all_keeps_registry_order() {
    let mut sup = supervisor();
    let attempts = vec![
        attempt("research", Some(7)),
        attempt("analysis", Some(8)),
        attempt("server", Some(9)),
    ];
    sup.start_all(SyncOutcome::Completed, InitOutcome::Completed, &attempts)
        .unwrap();
    let plan = sup.stop_all();
    let kills: Vec<u32> = plan
        .iter()
        .filter_map(|s| match s {
            ShutdownStep::KillProcess { pid } => Some(*pid),
            _ => None,
        })
        .collect();
    assert_eq!(kills, vec![7, 8, 9]);
}

#[test]
fn launch_plan_lists_workers_then_server() {
    let sup = supervisor();
    let reqs = sup.launch_plan();
    assert_eq!(reqs.len(), 3);
    assert_eq!(reqs[0].role, "research");
    assert_eq!(
        reqs[0].argv,
        vec!["uv", "run", "--env-file", "/srv/backend/.env", "-m", "app.research.main"]
            .into_iter()
            .map(String::from)
            .collect::<Vec<String>>()
    );
    assert_eq!(reqs[1].role, "analysis");
    assert_eq!(reqs[2].role, "server");
    assert_eq!(
        reqs[2].argv,
        vec!["uv", "run", "--env-file", "/srv/backend/.env", "-m", "app.server.main"]
            .into_iter()
            .map(String::from)
            .collect::<Vec<String>>()
    );
}

#[test]
fn construction_fails_closed_on_each_missing_path() {
    let e = BackendPaths::new(
        "b".to_string(), false, "e".to_string(), true, "l".to_string(), true,
    );
    assert_eq!(e.err().unwrap(), ConstructionError::BackendDirMissing);
    let e = BackendPaths::new(
        "b".to_string(), true, "e".to_string(), false, "l".to_string(), true,
    );
    assert_eq!(e.err().unwrap(), ConstructionError::EnvFileMissing);
    let e = BackendPaths::new(
        "b".to_string(), true, "e".to_string(), true, "l".to_string(), false,
    );
    assert_eq!(e.err().unwrap(), ConstructionError::LogDirUnavailable);
    let p = BackendPaths::new(
        "b".to_string(), true, "e".to_string(), true, "l".to_string(), true,
    )
    .unwrap();
    assert_eq!(p.backend_dir, "b");
    assert_eq!(p.env_file, "e");
    assert_eq!(p.log_dir, "l");
}

#[test]
fn duplicate_pids_are_never_registered_twice() {
    let mut sup = supervisor();
    let attempts = vec![attempt("research", Some(3)), attempt("server", Some(3))];
    sup.start_all(SyncOutcome::Completed, InitOutcome::Completed, &attempts)
        .unwrap();
    assert_eq!(sup.registered_count(), 1);
}

#[test]
fn catalog_lookups_fail_closed() {
    let mut c = RoleCatalog::new();
    assert!(c.define("research".to_string(), "app.research.main".to_string()));
    assert!(!c.define("research".to_string(), "elsewhere".to_string()));
    assert_eq!(c.len(), 1);
    assert_eq!(c.lookup("research").unwrap(), "app.research.main");
    assert!(c.lookup("unknown").is_none());
    assert!(c.lookup("").is_none());
}
