use vstd::prelude::*;

verus! {

/// Exit status of the child when replacing its process image fails. It is
/// nonzero and reserved for that failure: a successful exec never returns,
/// so the child can only exit with this status through that path.
pub const EXEC_FAILURE_STATUS: i32 = 1;

/// Lowest descriptor number the child closes before exec. Standard input,
/// output and error stay attached to the slave side of the PTY; every
/// higher inherited descriptor is released so none leaks into the command.
pub const FIRST_CLOSED_FD: i32 = 3;

/// The environment entries written into the child before exec, in order:
/// the terminal type, the color capability, and the identity of the
/// controlling terminal program. Fixed, so the spawned shell reports a
/// consistent terminal regardless of the parent's environment.
pub fn child_env_vars() -> (r: Vec<(String, String)>)
    ensures
        r@.len() == 3,
        r@[0].0@ == "TERM"@,
        r@[0].1@ == "xterm-256color"@,
        r@[1].0@ == "COLORTERM"@,
        r@[1].1@ == "truecolor"@,
        r@[2].0@ == "TERM_PROGRAM"@,
        r@[2].1@ == "sshx"@,
{
    let mut v: Vec<(String, String)> = Vec::new();
    v.push((String::from_str("TERM"), String::from_str("xterm-256color")));
    v.push((String::from_str("COLORTERM"), String::from_str("truecolor")));
    v.push((String::from_str("TERM_PROGRAM"), String::from_str("sshx")));
    v
}

/// The environment entries removed from the child before exec, so that a
/// version marker inherited from the parent's terminal does not leak
/// through to the spawned shell.
pub fn child_env_removals() -> (r: Vec<String>)
    ensures
        r@.len() == 1,
        r@[0]@ == "TERM_PROGRAM_VERSION"@,
{
    let mut v: Vec<String> = Vec::new();
    v.push(String::from_str("TERM_PROGRAM_VERSION"));
    v
}

/// Argument vector for the spawned command: its own name and nothing else.
pub fn exec_argv(shell: &str) -> (r: Vec<String>)
    ensures
        r@.len() == 1,
        r@[0]@ == shell@,
{
    let mut v: Vec<String> = Vec::new();
    v.push(String::from_str(shell));
    v
}

} // verus!
