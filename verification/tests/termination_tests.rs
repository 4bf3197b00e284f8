use valuecell_supervisor::EXIT_COMMAND;
use valuecell_supervisor::GracePolicy;
use valuecell_supervisor::Platform;
use valuecell_supervisor::ShutdownStep;
use valuecell_supervisor::build_shutdown_plan;
use valuecell_supervisor::signal_tree_command;
use valuecell_supervisor::terminate_descendants_steps;
use valuecell_supervisor::u32_to_decimal;

fn policy() -> GracePolicy {
    GracePolicy { exit_grace_millis: 150, tree_grace_millis: 3000 }
}

#[test]
fn descendant_termination_escalates_on_signal_platforms() {
    let steps = terminate_descendants_steps(Platform::Signals, 4242, policy());
    assert_eq!(
        steps,
        vec![
            ShutdownStep::SignalDescendants { pid: 4242, forceful: false },
            ShutdownStep::Wait { millis: 3000 },
            ShutdownStep::SignalDescendants { pid: 4242, forceful: true },
        ]
    );
}

#[test]
fn descendant_termination_uses_tree_kill_fallback() {
    let steps = terminate_descendants_steps(Platform::TreeKillUtility, 4242, policy());
    assert_eq!(
        steps,
        vec![ShutdownStep::SignalDescendants { pid: 4242, forceful: true }]
    );
}

#[test]
fn descendant_termination_never_errors_on_any_pid() {
    // a pid that exists nowhere, the idle pid, and the largest possible one
    for pid in [0u32, 1, u32::MAX] {
        for platform in [Platform::Signals, Platform::TreeKillUtility] {
            let steps = terminate_descendants_steps(platform, pid, policy());
            assert!(!steps.is_empty());
            assert!(steps
                .iter()
                .any(|s| *s == ShutdownStep::SignalDescendants { pid, forceful: true }));
        }
    }
}

#[test]
fn signal_commands_render_exactly() {
    let argv = signal_tree_command(Platform::Signals, 42, false);
    assert_eq!(argv, vec!["pkill", "-INT", "-P", "42"]);
    let argv = signal_tree_command(Platform::Signals, 42, true);
    assert_eq!(argv, vec!["pkill", "-KILL", "-P", "42"]);
    let argv = signal_tree_command(Platform::TreeKillUtility, 42, true);
    assert_eq!(argv, vec!["taskkill", "/F", "/T", "/PID", "42"]);
}

#[test]
fn decimal_rendering_is_exact() {
    assert_eq!(u32_to_decimal(0), "0");
    assert_eq!(u32_to_decimal(7), "7");
    assert_eq!(u32_to_decimal(10), "10");
    assert_eq!(u32_to_decimal(507), "507");
    assert_eq!(u32_to_decimal(u32::MAX), "4294967295");
}

#[test]
fn empty_plan_for_empty_registry() {
    let plan = build_shutdown_plan(&Vec::new(), Platform::Signals, policy());
    assert!(plan.is_empty());
}

#[test]
fn every_entry_gets_exit_request_waits_and_kill() {
    let plan = build_shutdown_plan(&vec![10, 20], Platform::TreeKillUtility, policy());
    assert_eq!(
        plan,
        vec![
            ShutdownStep::RequestExit { pid: 10 },
            ShutdownStep::Wait { millis: 150 },
            ShutdownStep::SignalDescendants { pid: 10, forceful: true },
            ShutdownStep::KillProcess { pid: 10 },
            ShutdownStep::RequestExit { pid: 20 },
            ShutdownStep::Wait { millis: 150 },
            ShutdownStep::SignalDescendants { pid: 20, forceful: true },
            ShutdownStep::KillProcess { pid: 20 },
        ]
    );
}

#[test]
fn shutdown_sleeps_one_grace_interval_per_entry() {
    let plan = build_shutdown_plan(&vec![1, 2], Platform::Signals, policy());
    let total: u64 = plan
        .iter()
        .map(|s| match s {
            ShutdownStep::Wait { millis } => *millis,
            _ => 0,
        })
        .sum();
    assert_eq!(total, 2 * (150 + 3000));
}

#[test]
fn exit_command_is_the_protocol_line() {
    assert_eq!(EXIT_COMMAND, "__EXIT__\n");
}
