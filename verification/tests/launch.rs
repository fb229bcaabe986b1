use pty_session::{
    allocate_pty, child_env_removals, child_env_vars, exec_argv, EXEC_FAILURE_STATUS,
    FIRST_CLOSED_FD,
};

#[test]
fn env_plan_is_fixed() {
    let vars = child_env_vars();
    assert_eq!(vars.len(), 3);
    assert_eq!(vars[0].0, "TERM");
    assert_eq!(vars[0].1, "xterm-256color");
    assert_eq!(vars[1].0, "COLORTERM");
    assert_eq!(vars[1].1, "truecolor");
    assert_eq!(vars[2].0, "TERM_PROGRAM");
    assert_eq!(vars[2].1, "sshx");

    let removed = child_env_removals();
    assert_eq!(removed.len(), 1);
    assert_eq!(removed[0], "TERM_PROGRAM_VERSION");
}

#[test]
fn argv_is_the_command_alone() {
    let argv = exec_argv("/bin/sh");
    assert_eq!(argv.len(), 1);
    assert_eq!(argv[0], "/bin/sh");
}

#[test]
fn launch_constants() {
    assert_ne!(EXEC_FAILURE_STATUS, 0);
    assert_eq!(FIRST_CLOSED_FD, 3);
}

#[test]
fn allocate_pty_returns_distinct_descriptors() {
    let pair = allocate_pty().expect("the OS should grant a PTY pair");
    let master = pair.master();
    let slave = pair.slave();
    assert!(master >= 0);
    assert!(slave >= 0);
    assert_ne!(master, slave);
}
