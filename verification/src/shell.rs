use vstd::prelude::*;

verus! {

/// Selects the shell to spawn: the caller's preference when one is present
/// (normally read from the shell-path environment variable), otherwise a
/// fixed fallback path.
pub fn get_default_shell(shell_var: Option<String>) -> (r: String)
    ensures
        shell_var is Some ==> r@ == shell_var->Some_0@,
        shell_var is None ==> r@ == "/bin/bash"@,
{
    match shell_var {
        Some(s) => s,
        None => String::from_str("/bin/bash"),
    }
}

} // verus!
