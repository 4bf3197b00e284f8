use valuecell_supervisor::ProcessRegistry;
use valuecell_supervisor::SupervisedProcess;
use valuecell_supervisor::str_eq;

fn proc(pid: u32, role: &str) -> SupervisedProcess {
    SupervisedProcess { pid, role: role.to_string() }
}

#[test]
fn registry_keeps_order_and_refuses_duplicates() {
    let mut reg = ProcessRegistry::new();
    assert_eq!(reg.len(), 0);
    assert!(reg.register(proc(1, "research")));
    assert!(reg.register(proc(2, "server")));
    assert!(!reg.register(proc(1, "research")));
    assert_eq!(reg.len(), 2);
    assert!(reg.has_pid(1));
    assert!(reg.has_pid(2));
    assert!(!reg.has_pid(3));

    let drained = reg.drain();
    assert_eq!(reg.len(), 0);
    assert!(!reg.has_pid(1));
    assert_eq!(drained.len(), 2);
    assert_eq!(drained[0].pid, 1);
    assert_eq!(drained[0].role, "research");
    assert_eq!(drained[1].pid, 2);
    assert_eq!(drained[1].role, "server");
}

#[test]
fn drained_registry_accepts_a_new_round() {
    let mut reg = ProcessRegistry::new();
    assert!(reg.register(proc(1, "server")));
    let _ = reg.drain();
    // the pid can be reused once its first round is torn down
    assert!(reg.register(proc(1, "server")));
    assert_eq!(reg.len(), 1);
}

#[test]
fn string_comparison_is_character_exact() {
    assert!(str_eq("server", "server"));
    assert!(!str_eq("server", "serve"));
    assert!(!str_eq("server", "Server"));
    assert!(str_eq("", ""));
    assert!(!str_eq("", "x"));
}
