//! A local process supervisor: launches a set of dependent backend processes
//! (a dependency-synchronization step, an optional initialization step, worker
//! processes, and a server process), tracks them in a registry, and on
//! shutdown drives a two-phase termination protocol (graceful signal, timed
//! wait, forceful kill of the process subtree).
//!
//! The supervisor itself decides *what* to run and *what to do next*; the
//! host application performs the actual process spawning, file writing and
//! waiting, feeding the observed outcomes back in.
mod catalog;
mod client_id;
mod launcher;
mod logsink;
mod mirror;
mod paths;
mod registry;
mod startup;
mod strutil;
mod supervisor;
mod termination;

pub use client_id::trimmed_of;
pub use client_id::stored_id_usable;
pub use client_id::resolved_client_id;
pub use client_id::get_or_create_client_id;
pub use client_id::lemma_persisted_id_round_trip;
pub use mirror::str_field_of;
pub use mirror::mirror_index_decision;
pub use mirror::is_mirror_region_code;
pub use mirror::is_mirror_region;
pub use mirror::decide_index_url;
pub use logsink::ProcessEvent;
pub use logsink::SinkDirective;
pub use logsink::is_output;
pub use logsink::output_payload;
pub use logsink::stops_sink;
pub use logsink::strip_trailing_newlines;
pub use logsink::sink_lines_spec;
pub use logsink::strip_newlines;
pub use logsink::sink_step;
pub use logsink::sink_lines;
pub use logsink::LogSink;
pub use logsink::count_outputs;
pub use logsink::lemma_sink_preserves_every_line;
pub use launcher::SERVER_MODULE;
pub use launcher::MIRROR_INDEX_URL;
pub use launcher::sync_argv_spec;
pub use launcher::sync_argv;
pub use launcher::module_run_argv_spec;
pub use launcher::module_run_argv;
pub use launcher::script_run_argv_spec;
pub use launcher::script_run_argv;
pub use supervisor::SERVER_ROLE;
pub use supervisor::pids_of;
pub use supervisor::LaunchRequest;
pub use supervisor::launch_plan_spec;
pub use supervisor::Supervisor;
pub use catalog::RoleBinding;
pub use catalog::RoleCatalog;
pub use catalog::spec_has_role;
pub use catalog::spec_lookup;
pub use paths::BackendPaths;
pub use paths::ConstructionError;
pub use paths::construction_failure;
pub use registry::ProcessRegistry;
pub use registry::SupervisedProcess;
pub use registry::spec_has_pid;
pub use startup::SyncOutcome;
pub use startup::InitOutcome;
pub use startup::StartupError;
pub use startup::LaunchAttempt;
pub use startup::record_attempt;
pub use startup::record_attempts;
pub use startup::count_successes;
pub use startup::fresh_distinct_pids;
pub use startup::startup_registry;
pub use startup::startup_verdict;
pub use startup::record_all;
pub use startup::lemma_registered_processes_persist;
pub use startup::lemma_registry_counts_successes;
pub use startup::lemma_sync_failure_registers_nothing;
pub use startup::lemma_init_outcome_never_gates;
pub use strutil::opt_str_view;
pub use strutil::dec_digit;
pub use strutil::dec_str;
pub use strutil::u32_to_decimal;
pub use strutil::str_eq;
pub use termination::Platform;
pub use termination::GracePolicy;
pub use termination::ShutdownStep;
pub use termination::EXIT_COMMAND;
pub use termination::descendant_plan;
pub use termination::terminate_descendants_steps;
pub use termination::entry_plan;
pub use termination::shutdown_plan;
pub use termination::build_shutdown_plan;
pub use termination::signal_tree_argv;
pub use termination::signal_tree_command;
pub use termination::total_wait_millis;
pub use termination::entry_wait_millis;
pub use termination::lemma_shutdown_latency_linear;
pub use termination::lemma_stop_all_idempotent;
pub use termination::lemma_entry_plan_ends_in_force;
pub use termination::lemma_every_process_force_killed;
