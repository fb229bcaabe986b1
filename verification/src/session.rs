use vstd::prelude::*;

verus! {

/// Failure to obtain a PTY pair from the operating system (resource
/// exhaustion, permission); carries the raw OS error number.
#[derive(Clone, Copy, Debug, PartialEq, Eq, Structural)]
pub struct AllocationError {
    pub errno: i32,
}

/// A freshly allocated pseudo-terminal descriptor pair: the master side is
/// kept by the driver, the slave side becomes the child's controlling
/// terminal. The two sides are always distinct, nonnegative descriptors.
pub struct PtyPair {
    master: i32,
    slave: i32,
}

impl PtyPair {
    /// The master-side descriptor, held by the driver.
    pub closed spec fn master_id(self) -> i32 {
        self.master
    }

    /// The slave-side descriptor, destined for the child.
    pub closed spec fn slave_id(self) -> i32 {
        self.slave
    }

    /// Both sides are real descriptors and do not alias one another.
    pub open spec fn wf(self) -> bool {
        0 <= self.master_id() && 0 <= self.slave_id() && self.master_id() != self.slave_id()
    }

    pub fn master(&self) -> (fd: i32)
        ensures
            fd == self.master_id(),
    {
        self.master
    }

    pub fn slave(&self) -> (fd: i32)
        ensures
            fd == self.slave_id(),
    {
        self.slave
    }
}

/// Relies on nix::pty::openpty: on success the kernel hands back a fresh
/// master/slave pair for one new PTY, as two distinct, nonnegative
/// descriptors, with default terminal attributes and unset geometry. On
/// failure it hands back the OS error number.
#[verifier::external_body]
fn openpty_raw() -> (r: Result<(i32, i32), AllocationError>)
    ensures
        r is Ok ==> 0 <= r->Ok_0.0 && 0 <= r->Ok_0.1 && r->Ok_0.0 != r->Ok_0.1,
{
    match nix::pty::openpty(None, None) {
        Ok(p) => Ok((p.master, p.slave)),
        Err(e) => Err(AllocationError { errno: e as i32 }),
    }
}

/// Requests a fresh PTY pair from the operating system. The only side
/// effect is the creation of the two descriptors; on refusal the error is
/// surfaced and nothing is retried.
pub fn allocate_pty() -> (r: Result<PtyPair, AllocationError>)
    ensures
        r is Ok ==> r->Ok_0.wf(),
{
    match openpty_raw() {
        Ok((m, s)) => Ok(PtyPair { master: m, slave: s }),
        Err(e) => Err(e),
    }
}

/// Relies on nix::sys::signal::kill: sends SIGKILL to the process with the
/// given positive id. The outcome (for instance "no such process" when the
/// child exited already) is deliberately ignored: termination is
/// best-effort. A positive id is demanded so the signal can never address
/// a whole process group.
#[verifier::external_body]
fn send_sigkill(pid: i32)
    requires
        0 < pid,
{
    let _ = nix::sys::signal::kill(
        nix::unistd::Pid::from_raw(pid),
        nix::sys::signal::Signal::SIGKILL,
    );
}

/// The state of one terminal session: the identifier of its single child
/// process, the two duplicated master-side descriptors that serve reads
/// and writes, whether the lifecycle guard has fired, and the geometry
/// last written to the PTY.
pub struct Terminal {
    child: i32,
    rfd: i32,
    wfd: i32,
    released: bool,
    rows: u16,
    cols: u16,
}

impl Terminal {
    /// The identifier of the session's only child process; read-only after
    /// creation, referenced again only by the lifecycle guard.
    pub closed spec fn child_id(self) -> i32 {
        self.child
    }

    /// The descriptor serving reads from the PTY master.
    pub closed spec fn read_fd(self) -> i32 {
        self.rfd
    }

    /// The descriptor serving writes to the PTY master.
    pub closed spec fn write_fd(self) -> i32 {
        self.wfd
    }

    /// Whether the lifecycle guard has already signalled the child.
    pub closed spec fn terminated(self) -> bool {
        self.released
    }

    /// The geometry recorded by the latest set_winsize, (0, 0) before any.
    pub closed spec fn size(self) -> (u16, u16) {
        (self.rows, self.cols)
    }

    /// A session is well formed when its child identifier is positive (an
    /// actual process, never a process group) and its two master-side
    /// handles are real descriptors that do not alias one another.
    pub open spec fn wf(self) -> bool {
        0 < self.child_id() && 0 <= self.read_fd() && 0 <= self.write_fd() && self.read_fd()
            != self.write_fd()
    }

    /// The model value of a session just opened for child `child` over the
    /// independent master-side duplicates `read_fd` and `write_fd`.
    pub closed spec fn opened(child: i32, read_fd: i32, write_fd: i32) -> Terminal {
        Terminal { child, rfd: read_fd, wfd: write_fd, released: false, rows: 0, cols: 0 }
    }

    /// `self` with its recorded geometry replaced by the given one.
    pub closed spec fn with_size(self, rows: u16, cols: u16) -> Terminal {
        Terminal { rows, cols, ..self }
    }

    /// `self` after the lifecycle guard has fired.
    pub closed spec fn after_release(self) -> Terminal {
        Terminal { released: true, ..self }
    }

    /// Opens the session state for a child that was just spawned over a
    /// PTY: no termination signal sent yet, geometry unset.
    pub fn new(child: i32, read_fd: i32, write_fd: i32) -> (t: Terminal)
        requires
            0 < child,
            0 <= read_fd,
            0 <= write_fd,
            read_fd != write_fd,
        ensures
            t == Terminal::opened(child, read_fd, write_fd),
            t.wf(),
            !t.terminated(),
            t.size() == (0u16, 0u16),
            t.child_id() == child,
    {
        Terminal { child, rfd: read_fd, wfd: write_fd, released: false, rows: 0, cols: 0 }
    }

    /// The identifier of the session's only child process.
    pub fn child_pid(&self) -> (pid: i32)
        ensures
            pid == self.child_id(),
    {
        self.child
    }

    /// Reads the session's geometry: exactly the pair last set, (0, 0) for
    /// a fresh session.
    pub fn get_winsize(&self) -> (r: (u16, u16))
        ensures
            r == self.size(),
    {
        (self.rows, self.cols)
    }

    /// Records a new geometry for the session. Any rows and columns in the
    /// full 16-bit range are accepted; nothing else about the session
    /// changes.
    pub fn set_winsize(&mut self, rows: u16, cols: u16)
        ensures
            *final(self) == old(self).with_size(rows, cols),
            final(self).size() == (rows, cols),
            final(self).child_id() == old(self).child_id(),
            final(self).terminated() == old(self).terminated(),
            final(self).wf() == old(self).wf(),
    {
        self.rows = rows;
        self.cols = cols;
    }

    /// The lifecycle guard: on its first call it sends the child an
    /// unconditional, best-effort kill signal and marks the session
    /// terminated; any later call does nothing. Returns whether this call
    /// sent the signal, so the guard demonstrably fires exactly once.
    pub fn release(&mut self) -> (fired: bool)
        requires
            old(self).wf(),
        ensures
            *final(self) == old(self).after_release(),
            final(self).terminated(),
            fired == !old(self).terminated(),
            final(self).child_id() == old(self).child_id(),
            final(self).size() == old(self).size(),
            final(self).wf(),
    {
        if self.released {
            return false;
        }
        send_sigkill(self.child);
        self.released = true;
        true
    }
}

/// A freshly opened session reports geometry (0, 0) before any set_winsize
/// call: the model value that `new` returns always carries size (0, 0) and
/// an unfired guard.
pub proof fn lemma_fresh_size_zero(child: i32, read_fd: i32, write_fd: i32)
    ensures
        Terminal::opened(child, read_fd, write_fd).size() == (0u16, 0u16),
        !Terminal::opened(child, read_fd, write_fd).terminated(),
{
}

/// Round trip: for every geometry with rows and columns in the full 16-bit
/// range, setting the size and then reading it yields exactly the pair
/// that was set, and disturbs nothing else about the session.
pub proof fn lemma_winsize_round_trip(t: Terminal, rows: u16, cols: u16)
    ensures
        t.with_size(rows, cols).size() == (rows, cols),
        t.with_size(rows, cols).child_id() == t.child_id(),
        t.with_size(rows, cols).terminated() == t.terminated(),
        t.with_size(rows, cols).wf() == t.wf(),
{
}

/// Releasing is absorbing: once the guard has fired the session stays
/// terminated, keeps its child identifier, and a later geometry change
/// does not clear the terminated mark. The session never returns to the
/// created state.
pub proof fn lemma_release_absorbing(t: Terminal, rows: u16, cols: u16)
    ensures
        t.after_release().terminated(),
        t.after_release().child_id() == t.child_id(),
        t.after_release().after_release() == t.after_release(),
        t.after_release().with_size(rows, cols).terminated(),
{
}

} // verus!
