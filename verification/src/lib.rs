//! Driver core for a pseudo-terminal session: the verified state of a
//! session over a PTY master/slave pair — child identity, duplicated
//! master-side handles, geometry, and the once-only lifecycle guard —
//! together with the fixed decisions the child launcher executes between
//! fork and exec.

mod launch;
mod session;
mod shell;
mod winsize;

pub use launch::child_env_removals;
pub use launch::child_env_vars;
pub use launch::exec_argv;
pub use launch::EXEC_FAILURE_STATUS;
pub use launch::FIRST_CLOSED_FD;
pub use session::allocate_pty;
pub use session::lemma_fresh_size_zero;
pub use session::lemma_release_absorbing;
pub use session::lemma_winsize_round_trip;
pub use session::AllocationError;
pub use session::PtyPair;
pub use session::Terminal;
pub use shell::get_default_shell;
pub use winsize::make_winsize;
pub use winsize::WindowSize;
