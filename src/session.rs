//! The pseudo-terminal session: which operating-system objects it owns, when
//! they may be used, and how they are released.
//!
//! The session never performs a system call itself. Each operation is split
//! into a gate (which handle the call goes to, or why there is none) and an
//! interpretation of the call's outcome. Release of the owned objects is
//! described as a list of cleanup steps that the owner performs in order.

use vstd::prelude::*;
use crate::error::SessionError;

verus! {

/// The platform's "still active" exit-code sentinel: a process reporting it
/// has not exited yet.
pub const STILL_ACTIVE: u32 = 259;

/// The two ends of an anonymous unidirectional pipe, as raw handle values.
#[derive(Clone, Copy, Debug, PartialEq, Eq, Structural)]
pub struct PipeEnds {
    pub read: u64,
    pub write: u64,
}

/// The handles and identifier of a launched child process.
#[derive(Clone, Copy, Debug, PartialEq, Eq, Structural)]
pub struct ChildProcess {
    pub process: u64,
    pub thread: u64,
    pub pid: u32,
}

/// One cleanup step that the owner of the operating-system objects performs.
#[derive(Clone, Copy, Debug, PartialEq, Eq, Structural)]
pub enum Cleanup {
    /// Force-kill the process behind the handle (exit code 1).
    TerminateProcess(u64),
    /// Close a pipe, process or thread handle.
    CloseHandle(u64),
    /// Close the pseudo-console.
    ClosePseudoConsole(u64),
    /// Delete the process-attribute list built for the launch.
    DeleteAttributeList,
}

/// Everything a session is, as plain values.
pub struct SessionView {
    /// The pseudo-console, until it is closed.
    pub console: Option<u64>,
    /// The child process handles, until they are closed.
    pub child: Option<ChildProcess>,
    /// The child's process identifier (kept after termination, for reports).
    pub pid: u32,
    /// Parent-side write end of the child's input pipe.
    pub input: u64,
    /// Parent-side read end of the child's output pipe.
    pub output: u64,
    /// Geometry of the last successful creation or resize.
    pub cols: i16,
    pub rows: i16,
}

/// A live or terminated pseudo-terminal session.
pub struct ConPtySession {
    console: Option<u64>,
    child: Option<ChildProcess>,
    pid: u32,
    input_writer: u64,
    output_reader: u64,
    cols: i16,
    rows: i16,
}

impl View for ConPtySession {
    type V = SessionView;

    closed spec fn view(&self) -> SessionView {
        SessionView {
            console: self.console,
            child: self.child,
            pid: self.pid,
            input: self.input_writer,
            output: self.output_reader,
            cols: self.cols,
            rows: self.rows,
        }
    }
}

/// A session is live while it still holds its process and console handles.
pub open spec fn live(v: SessionView) -> bool {
    v.child is Some && v.console is Some
}

/// The cleanup steps `terminate` hands out: kill and close the child process
/// if it is still held, then close the pseudo-console if it is still held.
pub open spec fn terminate_plan(v: SessionView) -> Seq<Cleanup> {
    let process_steps = match v.child {
        Some(c) => seq![
            Cleanup::TerminateProcess(c.process),
            Cleanup::CloseHandle(c.process),
            Cleanup::CloseHandle(c.thread),
        ],
        None => Seq::<Cleanup>::empty(),
    };
    let console_steps = match v.console {
        Some(h) => seq![Cleanup::ClosePseudoConsole(h)],
        None => Seq::<Cleanup>::empty(),
    };
    process_steps + console_steps
}

/// The session after `terminate`: process and console released, the rest kept.
pub open spec fn terminated(v: SessionView) -> SessionView {
    SessionView { console: None, child: None, ..v }
}

/// The cleanup steps that release everything a session holds: the
/// termination steps, then both parent-side pipe ends.
pub open spec fn close_plan(v: SessionView) -> Seq<Cleanup> {
    terminate_plan(v) + seq![Cleanup::CloseHandle(v.input), Cleanup::CloseHandle(v.output)]
}

/// The objects a freshly launched session owns, each named by the cleanup
/// step that releases it.
pub open spec fn owned(v: SessionView) -> Seq<Cleanup> {
    let process_steps = match v.child {
        Some(c) => seq![Cleanup::CloseHandle(c.process), Cleanup::CloseHandle(c.thread)],
        None => Seq::<Cleanup>::empty(),
    };
    let console_steps = match v.console {
        Some(h) => seq![Cleanup::ClosePseudoConsole(h)],
        None => Seq::<Cleanup>::empty(),
    };
    seq![Cleanup::CloseHandle(v.input), Cleanup::CloseHandle(v.output)] + console_steps
        + process_steps
}

/// How an operating-system outcome is reported by a live session.
pub open spec fn io_outcome<T>(outcome: Result<T, i32>) -> Result<T, SessionError> {
    match outcome {
        Ok(v) => Ok(v),
        Err(code) => Err(SessionError::Io(code)),
    }
}

/// What a pipe operation whose system call returned `outcome` reports: the
/// outcome while the session is live, `Terminated` once it is not.
pub open spec fn pipe_result<T>(v: SessionView, outcome: Result<T, i32>) -> Result<T, SessionError> {
    if live(v) {
        io_outcome(outcome)
    } else {
        Err(SessionError::Terminated)
    }
}

/// The session after a resize to `cols` x `rows` whose system call
/// returned `outcome`: the new geometry when live and accepted, else as it was.
pub open spec fn after_resize(v: SessionView, cols: i16, rows: i16, outcome: Result<(), i32>) -> SessionView {
    if live(v) && outcome is Ok {
        SessionView { cols, rows, ..v }
    } else {
        v
    }
}

/// What a resize whose system call returned `outcome` reports.
pub open spec fn resize_result(v: SessionView, outcome: Result<(), i32>) -> Result<(), SessionError> {
    if !live(v) {
        Err(SessionError::Terminated)
    } else {
        io_outcome(outcome)
    }
}

/// Decodes a raw exit-code query result: the still-active sentinel means the
/// process is running.
pub open spec fn exit_status(raw: u32) -> Option<u32> {
    if raw == STILL_ACTIVE {
        None
    } else {
        Some(raw)
    }
}

impl ConPtySession {
    /// Assembles a live session from the objects a successful launch produced.
    pub(crate) fn assemble(
        console: u64,
        child: ChildProcess,
        input_writer: u64,
        output_reader: u64,
        cols: i16,
        rows: i16,
    ) -> (s: ConPtySession)
        ensures
            s@ == (SessionView {
                console: Some(console),
                child: Some(child),
                pid: child.pid,
                input: input_writer,
                output: output_reader,
                cols,
                rows,
            }),
    {
        ConPtySession {
            console: Some(console),
            child: Some(child),
            pid: child.pid,
            input_writer,
            output_reader,
            cols,
            rows,
        }
    }

    /// Whether the session still holds its process and console.
    pub fn is_live(&self) -> (r: bool)
        ensures
            r == live(self@),
    {
        self.child.is_some() && self.console.is_some()
    }

    /// Current geometry: columns.
    pub fn cols(&self) -> (r: i16)
        ensures
            r == self@.cols,
    {
        self.cols
    }

    /// Current geometry: rows.
    pub fn rows(&self) -> (r: i16)
        ensures
            r == self@.rows,
    {
        self.rows
    }

    /// The child's process identifier.
    pub fn pid(&self) -> (r: u32)
        ensures
            r == self@.pid,
    {
        self.pid
    }

    /// The pipe end that a write goes to, while the session is live.
    pub fn input_handle(&self) -> (r: Result<u64, SessionError>)
        ensures
            live(self@) ==> r == Ok::<u64, SessionError>(self@.input),
            !live(self@) ==> r == Err::<u64, SessionError>(SessionError::Terminated),
    {
        if self.is_live() {
            Ok(self.input_writer)
        } else {
            Err(SessionError::Terminated)
        }
    }

    /// The pipe end that reads and peeks go to, while the session is live.
    pub fn output_handle(&self) -> (r: Result<u64, SessionError>)
        ensures
            live(self@) ==> r == Ok::<u64, SessionError>(self@.output),
            !live(self@) ==> r == Err::<u64, SessionError>(SessionError::Terminated),
    {
        if self.is_live() {
            Ok(self.output_reader)
        } else {
            Err(SessionError::Terminated)
        }
    }

    /// The pseudo-console that a resize goes to, while the session is live.
    pub fn console_handle(&self) -> (r: Result<u64, SessionError>)
        ensures
            live(self@) ==> r == Ok::<u64, SessionError>(self@.console->0),
            !live(self@) ==> r == Err::<u64, SessionError>(SessionError::Terminated),
    {
        match (&self.child, &self.console) {
            (Some(_), Some(h)) => Ok(*h),
            _ => Err(SessionError::Terminated),
        }
    }

    /// The process handle that an exit-code query goes to, while the session is live.
    pub fn process_handle(&self) -> (r: Result<u64, SessionError>)
        ensures
            live(self@) ==> r == Ok::<u64, SessionError>(self@.child->0.process),
            !live(self@) ==> r == Err::<u64, SessionError>(SessionError::Terminated),
    {
        match (&self.child, &self.console) {
            (Some(c), Some(_)) => Ok(c.process),
            _ => Err(SessionError::Terminated),
        }
    }

    /// Reports a write to the input pipe: the number of bytes the system
    /// accepted, or its error. A terminated session reports `Terminated`
    /// whatever the outcome.
    pub fn write(&self, outcome: Result<usize, i32>) -> (r: Result<usize, SessionError>)
        ensures
            r == pipe_result(self@, outcome),
    {
        if !self.is_live() {
            return Err(SessionError::Terminated);
        }
        match outcome {
            Ok(n) => Ok(n),
            Err(code) => Err(SessionError::Io(code)),
        }
    }

    /// Reports a blocking read from the output pipe: the number of bytes
    /// read (0 once the pipe is closed), or the error.
    pub fn read(&self, outcome: Result<usize, i32>) -> (r: Result<usize, SessionError>)
        ensures
            r == pipe_result(self@, outcome),
    {
        if !self.is_live() {
            return Err(SessionError::Terminated);
        }
        match outcome {
            Ok(n) => Ok(n),
            Err(code) => Err(SessionError::Io(code)),
        }
    }

    /// Reports a non-blocking peek of the output pipe, given the number of
    /// bytes the system says are waiting.
    pub fn has_data_available(&self, outcome: Result<u32, i32>) -> (r: Result<bool, SessionError>)
        ensures
            live(self@) ==> r == match outcome {
                Ok(avail) => Ok::<bool, SessionError>(avail > 0),
                Err(code) => Err(SessionError::Io(code)),
            },
            !live(self@) ==> r == Err::<bool, SessionError>(SessionError::Terminated),
    {
        if !self.is_live() {
            return Err(SessionError::Terminated);
        }
        match outcome {
            Ok(avail) => Ok(avail > 0),
            Err(code) => Err(SessionError::Io(code)),
        }
    }

    /// Reports an exit-code query: `None` while the process is still active,
    /// `Some(code)` once it has exited.
    pub fn get_exit_code(&self, outcome: Result<u32, i32>) -> (r: Result<Option<u32>, SessionError>)
        ensures
            live(self@) ==> r == match outcome {
                Ok(raw) => Ok::<Option<u32>, SessionError>(exit_status(raw)),
                Err(code) => Err(SessionError::Io(code)),
            },
            !live(self@) ==> r == Err::<Option<u32>, SessionError>(SessionError::Terminated),
    {
        if !self.is_live() {
            return Err(SessionError::Terminated);
        }
        match outcome {
            Ok(raw) => {
                if raw == STILL_ACTIVE {
                    Ok(None)
                } else {
                    Ok(Some(raw))
                }
            },
            Err(code) => Err(SessionError::Io(code)),
        }
    }

    /// Records a resize of the pseudo-console to `cols` x `rows`. The
    /// geometry changes only when the session is live and the system
    /// accepted the new size; nothing else changes.
    pub fn resize(&mut self, cols: i16, rows: i16, outcome: Result<(), i32>) -> (r: Result<
        (),
        SessionError,
    >)
        ensures
            final(self)@ == after_resize(old(self)@, cols, rows, outcome),
            r == resize_result(old(self)@, outcome),
    {
        if !self.is_live() {
            return Err(SessionError::Terminated);
        }
        match outcome {
            Ok(()) => {
                self.cols = cols;
                self.rows = rows;
                Ok(())
            },
            Err(code) => Err(SessionError::Io(code)),
        }
    }

    /// Terminates the session: hands out the steps that kill the child and
    /// close its process, thread and console handles, and forgets those
    /// handles. Steps for a handle already released are not repeated, so a
    /// second call hands out nothing.
    pub fn terminate(&mut self) -> (r: Vec<Cleanup>)
        ensures
            r@ == terminate_plan(old(self)@),
            final(self)@ == terminated(old(self)@),
    {
        let mut steps: Vec<Cleanup> = Vec::new();
        if let Some(c) = self.child {
            steps.push(Cleanup::TerminateProcess(c.process));
            steps.push(Cleanup::CloseHandle(c.process));
            steps.push(Cleanup::CloseHandle(c.thread));
        }
        if let Some(h) = self.console {
            steps.push(Cleanup::ClosePseudoConsole(h));
        }
        self.child = None;
        self.console = None;
        proof {
            assert(steps@ =~= terminate_plan(old(self)@));
        }
        steps
    }

    /// Ends the session's life: terminates it (if that has not happened
    /// yet) and releases both parent-side pipe ends.
    pub fn close(self) -> (r: Vec<Cleanup>)
        ensures
            r@ == close_plan(self@),
    {
        let mut s = self;
        let mut steps = s.terminate();
        steps.push(Cleanup::CloseHandle(s.input_writer));
        steps.push(Cleanup::CloseHandle(s.output_reader));
        proof {
            assert(steps@ =~= close_plan(self@));
        }
        steps
    }
}

/// Terminating is idempotent: a second `terminate` hands out no cleanup
/// step and leaves the session as the first one left it.
pub proof fn lemma_terminate_idempotent(v: SessionView)
    ensures
        terminate_plan(terminated(v)) == Seq::<Cleanup>::empty(),
        terminated(terminated(v)) == terminated(v),
{
    assert(terminate_plan(terminated(v)) =~= Seq::<Cleanup>::empty());
}

/// A resize of a live session to a positive geometry that the system
/// accepts succeeds, the geometry queries then report the new size, and the
/// session stays live with the same handles.
pub proof fn lemma_resize_reflected(v: SessionView, cols: i16, rows: i16)
    requires
        live(v),
        cols > 0,
        rows > 0,
    ensures
        resize_result(v, Ok(())) is Ok,
        after_resize(v, cols, rows, Ok(())).cols == cols,
        after_resize(v, cols, rows, Ok(())).rows == rows,
        live(after_resize(v, cols, rows, Ok(()))),
        after_resize(v, cols, rows, Ok(())) == (SessionView { cols, rows, ..v }),
{
}

/// Once terminated, a session refuses writes, reads and resizes with
/// `Terminated`, whatever the system would have answered, and a resize then
/// leaves it unchanged.
pub proof fn lemma_io_refused_after_terminate(v: SessionView)
    ensures
        !live(terminated(v)),
        forall|outcome: Result<usize, i32>|
            #[trigger] pipe_result(terminated(v), outcome) == Err::<usize, SessionError>(
                SessionError::Terminated,
            ),
        forall|outcome: Result<(), i32>|
            #[trigger] resize_result(terminated(v), outcome) == Err::<(), SessionError>(
                SessionError::Terminated,
            ),
        forall|outcome: Result<(), i32>, cols: i16, rows: i16|
            #[trigger] after_resize(terminated(v), cols, rows, outcome) == terminated(v),
{
}

/// Over a session's whole life, whether or not it was terminated first, each
/// object it owned is released exactly once: the close-handle and
/// close-console steps of `terminate` followed by `close` are, up to order,
/// the objects owned at launch.
pub proof fn lemma_lifecycle_releases_each_once(v: SessionView)
    requires
        live(v),
    ensures
        releases(terminate_plan(v) + close_plan(terminated(v))).to_multiset()
            == owned(v).to_multiset(),
        releases(close_plan(v)).to_multiset() == owned(v).to_multiset(),
{
    let c = v.child->0;
    let h = v.console->0;
    let a = Cleanup::CloseHandle(v.input);
    let b = Cleanup::CloseHandle(v.output);
    let p = Cleanup::CloseHandle(c.process);
    let t = Cleanup::CloseHandle(c.thread);
    let k = Cleanup::ClosePseudoConsole(h);
    assert(terminate_plan(v) =~= seq![Cleanup::TerminateProcess(c.process), p, t, k]);
    assert(close_plan(terminated(v)) =~= seq![a, b]);
    assert(close_plan(v) =~= seq![Cleanup::TerminateProcess(c.process), p, t, k, a, b]);
    assert(owned(v) =~= seq![a, b, k, p, t]);
    let whole = seq![Cleanup::TerminateProcess(c.process), p, t, k] + seq![a, b];
    assert(whole =~= seq![Cleanup::TerminateProcess(c.process), p, t, k, a, b]);
    lemma_releases_six(c.process, p, t, k, a, b);
    assert(seq![p, t, k, a, b].to_multiset() =~= seq![a, b, k, p, t].to_multiset()) by {
        lemma_five_permuted(p, t, k, a, b);
    }
}

/// The cleanup steps of a plan that release an object (everything but the
/// kill of a process).
pub open spec fn releases(plan: Seq<Cleanup>) -> Seq<Cleanup> {
    plan.filter(|s: Cleanup| !(s is TerminateProcess))
}

proof fn lemma_releases_six(pid: u64, p: Cleanup, t: Cleanup, k: Cleanup, a: Cleanup, b: Cleanup)
    requires
        !(p is TerminateProcess),
        !(t is TerminateProcess),
        !(k is TerminateProcess),
        !(a is TerminateProcess),
        !(b is TerminateProcess),
    ensures
        releases(seq![Cleanup::TerminateProcess(pid), p, t, k, a, b]) == seq![p, t, k, a, b],
{
    let s = seq![Cleanup::TerminateProcess(pid), p, t, k, a, b];
    let f = |s: Cleanup| !(s is TerminateProcess);
    reveal(Seq::filter);
    assert(s.drop_last() =~= seq![Cleanup::TerminateProcess(pid), p, t, k, a]);
    assert(s.drop_last().drop_last() =~= seq![Cleanup::TerminateProcess(pid), p, t, k]);
    assert(s.drop_last().drop_last().drop_last() =~= seq![Cleanup::TerminateProcess(pid), p, t]);
    assert(s.drop_last().drop_last().drop_last().drop_last() =~= seq![
        Cleanup::TerminateProcess(pid),
        p,
    ]);
    assert(s.drop_last().drop_last().drop_last().drop_last().drop_last() =~= seq![
        Cleanup::TerminateProcess(pid),
    ]);
    assert(seq![Cleanup::TerminateProcess(pid)].drop_last() =~= Seq::<Cleanup>::empty());
    assert(Seq::<Cleanup>::empty().filter(f) =~= Seq::<Cleanup>::empty());
    assert(seq![Cleanup::TerminateProcess(pid)].filter(f) =~= Seq::<Cleanup>::empty());
    assert(seq![Cleanup::TerminateProcess(pid), p].filter(f) =~= seq![p]);
    assert(seq![Cleanup::TerminateProcess(pid), p, t].filter(f) =~= seq![p, t]);
    assert(seq![Cleanup::TerminateProcess(pid), p, t, k].filter(f) =~= seq![p, t, k]);
    assert(seq![Cleanup::TerminateProcess(pid), p, t, k, a].filter(f) =~= seq![p, t, k, a]);
    assert(s.filter(f) =~= seq![p, t, k, a, b]);
}

proof fn lemma_five_permuted(p: Cleanup, t: Cleanup, k: Cleanup, a: Cleanup, b: Cleanup)
    ensures
        seq![p, t, k, a, b].to_multiset() == seq![a, b, k, p, t].to_multiset(),
{
    broadcast use vstd::seq_lib::group_to_multiset_ensures;

    let left = seq![p, t, k, a, b];
    let right = seq![a, b, k, p, t];
    assert(left =~= seq![p, t] + seq![k] + seq![a, b]);
    assert(right =~= seq![a, b] + seq![k] + seq![p, t]);
    vstd::seq_lib::lemma_multiset_commutative(seq![p, t] + seq![k], seq![a, b]);
    vstd::seq_lib::lemma_multiset_commutative(seq![p, t], seq![k]);
    vstd::seq_lib::lemma_multiset_commutative(seq![a, b] + seq![k], seq![p, t]);
    vstd::seq_lib::lemma_multiset_commutative(seq![a, b], seq![k]);
    assert(left.to_multiset() =~= right.to_multiset());
}

} // verus!
