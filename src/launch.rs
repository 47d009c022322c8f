//! The launch protocol: the ordered steps that create a pseudo-terminal
//! session, as a state machine.
//!
//! The owner asks for the next action, performs it, and reports the event.
//! Steps, in order: create the input pipe pair, create the output pipe pair,
//! create the pseudo-console over the child-side ends, close those ends in
//! this process, build the process-attribute list, attach the console to it,
//! create the process, delete the list. A failure at any step releases
//! everything created so far before the error is reported, so a failed launch
//! leaks nothing and a successful one owns exactly what the session holds.

use vstd::prelude::*;
use crate::error::SessionError;
use crate::session::{ChildProcess, Cleanup, ConPtySession, PipeEnds, SessionView, owned};

verus! {

/// Where a launch stands.
#[derive(Clone, Copy, Debug, PartialEq, Eq, Structural)]
pub enum LaunchStage {
    /// Waiting for the input pipe pair.
    InputPipe,
    /// Waiting for the output pipe pair.
    OutputPipe { stdin: PipeEnds },
    /// Waiting for the pseudo-console.
    Console { stdin: PipeEnds, stdout: PipeEnds },
    /// Waiting for the child-side pipe ends to be closed.
    ChildEnds { input: u64, output: u64, console: u64 },
    /// Waiting for the process-attribute list to be built.
    AttributeList { input: u64, output: u64, console: u64 },
    /// Waiting for the console to be attached to the attribute list.
    Attribute { input: u64, output: u64, console: u64 },
    /// Waiting for the child process to be created.
    Process { input: u64, output: u64, console: u64 },
    /// Waiting for the attribute list to be deleted after a successful creation.
    ListDeletion { input: u64, output: u64, console: u64, child: ChildProcess },
    /// Waiting for the release of everything created before a failure.
    RollingBack(SessionError),
    /// Finished; no further event is accepted.
    Done,
}

/// What the owner must do next.
pub enum LaunchAction {
    /// Create an anonymous pipe pair; report `PipeCreated` or `Failed`.
    CreatePipe,
    /// Create the pseudo-console reading from `input` and writing to `output`;
    /// report `ConsoleCreated` or `Failed`.
    CreateConsole { cols: i16, rows: i16, input: u64, output: u64 },
    /// Perform these cleanup steps in order (failures are only logged);
    /// report `Released`.
    Release(Vec<Cleanup>),
    /// Size, allocate and initialise a one-entry process-attribute list;
    /// report `AttributeListReady` or `Failed`.
    InitAttributeList,
    /// Put the pseudo-console into the attribute list; report
    /// `ConsoleAttached` or `Failed`.
    AttachConsole { console: u64 },
    /// Create the child process for `command` with the extended startup
    /// information; report `ProcessCreated` or `Failed`.
    CreateProcess { command: String },
    /// The launch is over.
    Finished(Result<ConPtySession, SessionError>),
}

/// What the owner reports after performing an action.
#[derive(Clone, Copy, Debug, PartialEq, Eq, Structural)]
pub enum LaunchEvent {
    PipeCreated(PipeEnds),
    ConsoleCreated(u64),
    AttributeListReady,
    ConsoleAttached,
    ProcessCreated(ChildProcess),
    Released,
    /// The action failed with this platform error code.
    Failed(i32),
}

/// The objects held at a stage, each named by the step that releases it.
pub open spec fn held(stage: LaunchStage) -> Seq<Cleanup> {
    match stage {
        LaunchStage::OutputPipe { stdin } => seq![
            Cleanup::CloseHandle(stdin.read),
            Cleanup::CloseHandle(stdin.write),
        ],
        LaunchStage::Console { stdin, stdout } => seq![
            Cleanup::CloseHandle(stdin.read),
            Cleanup::CloseHandle(stdin.write),
            Cleanup::CloseHandle(stdout.read),
            Cleanup::CloseHandle(stdout.write),
        ],
        LaunchStage::ChildEnds { input, output, console } => seq![
            Cleanup::CloseHandle(input),
            Cleanup::CloseHandle(output),
            Cleanup::ClosePseudoConsole(console),
        ],
        LaunchStage::AttributeList { input, output, console } => seq![
            Cleanup::CloseHandle(input),
            Cleanup::CloseHandle(output),
            Cleanup::ClosePseudoConsole(console),
        ],
        LaunchStage::Attribute { input, output, console } => seq![
            Cleanup::DeleteAttributeList,
            Cleanup::CloseHandle(input),
            Cleanup::CloseHandle(output),
            Cleanup::ClosePseudoConsole(console),
        ],
        LaunchStage::Process { input, output, console } => seq![
            Cleanup::DeleteAttributeList,
            Cleanup::CloseHandle(input),
            Cleanup::CloseHandle(output),
            Cleanup::ClosePseudoConsole(console),
        ],
        LaunchStage::ListDeletion { input, output, console, child } => seq![
            Cleanup::CloseHandle(input),
            Cleanup::CloseHandle(output),
            Cleanup::ClosePseudoConsole(console),
            Cleanup::CloseHandle(child.process),
            Cleanup::CloseHandle(child.thread),
        ],
        _ => Seq::<Cleanup>::empty(),
    }
}

impl ConPtySession {
    /// Begins creating a session that runs `command` on a pseudo-console of
    /// `cols` x `rows`: returns the launch and its first action. The session
    /// itself comes out of the launch's last action.
    pub fn new(command: &str, cols: i16, rows: i16) -> (r: (Launch, LaunchAction))
        ensures
            r.0.stage() == LaunchStage::InputPipe,
            r.0.command() == command@,
            r.0.cols() == cols,
            r.0.rows() == rows,
            r.0.acquired() == Seq::<Cleanup>::empty(),
            r.0.released() == Seq::<Cleanup>::empty(),
            r.0.handed_over() == Seq::<Cleanup>::empty(),
            r.0.balanced(),
            r.1 is CreatePipe,
    {
        let launch = Launch {
            command: command.to_owned(),
            cols,
            rows,
            stage: LaunchStage::InputPipe,
            acquired: Ghost(Seq::empty()),
            released: Ghost(Seq::empty()),
            handed_over: Ghost(Seq::empty()),
        };
        proof {
            broadcast use vstd::seq_lib::group_to_multiset_ensures;

            assert(launch.acquired@.to_multiset() =~= launch.released@.to_multiset().add(
                held(launch.stage).to_multiset(),
            ).add(launch.handed_over@.to_multiset()));
        }
        (launch, LaunchAction::CreatePipe)
    }
}

/// Whether `event` is a possible report for the action of `stage`.
pub open spec fn accepts(stage: LaunchStage, event: LaunchEvent) -> bool {
    match stage {
        LaunchStage::InputPipe | LaunchStage::OutputPipe { .. } => event is PipeCreated
            || event is Failed,
        LaunchStage::Console { .. } => event is ConsoleCreated || event is Failed,
        LaunchStage::AttributeList { .. } => event is AttributeListReady || event is Failed,
        LaunchStage::Attribute { .. } => event is ConsoleAttached || event is Failed,
        LaunchStage::Process { .. } => event is ProcessCreated || event is Failed,
        LaunchStage::ChildEnds { .. } | LaunchStage::ListDeletion { .. }
        | LaunchStage::RollingBack(_) => event is Released,
        LaunchStage::Done => false,
    }
}

/// The tagged error for a failure of the action of `stage`.
pub open spec fn failure(stage: LaunchStage, code: i32) -> SessionError {
    match stage {
        LaunchStage::InputPipe | LaunchStage::OutputPipe { .. } => SessionError::PipeCreationFailed(
            code,
        ),
        LaunchStage::Console { .. } => SessionError::ConsoleCreationFailed(code),
        _ => SessionError::LaunchFailed(code),
    }
}

/// The stage after a successful report at `stage`.
pub open spec fn advanced(stage: LaunchStage, event: LaunchEvent) -> LaunchStage {
    match (stage, event) {
        (LaunchStage::InputPipe, LaunchEvent::PipeCreated(p)) => LaunchStage::OutputPipe {
            stdin: p,
        },
        (LaunchStage::OutputPipe { stdin }, LaunchEvent::PipeCreated(p)) => LaunchStage::Console {
            stdin,
            stdout: p,
        },
        (LaunchStage::Console { stdin, stdout }, LaunchEvent::ConsoleCreated(h)) => {
            LaunchStage::ChildEnds { input: stdin.write, output: stdout.read, console: h }
        },
        (LaunchStage::ChildEnds { input, output, console }, LaunchEvent::Released) => {
            LaunchStage::AttributeList { input, output, console }
        },
        (LaunchStage::AttributeList { input, output, console }, LaunchEvent::AttributeListReady) => {
            LaunchStage::Attribute { input, output, console }
        },
        (LaunchStage::Attribute { input, output, console }, LaunchEvent::ConsoleAttached) => {
            LaunchStage::Process { input, output, console }
        },
        (LaunchStage::Process { input, output, console }, LaunchEvent::ProcessCreated(child)) => {
            LaunchStage::ListDeletion { input, output, console, child }
        },
        _ => LaunchStage::Done,
    }
}

/// The stage after `event` is reported at `stage`: a failure with something
/// held rolls back, a failure with nothing held finishes, a release after a
/// rollback or after the list deletion finishes.
pub open spec fn next_stage(stage: LaunchStage, event: LaunchEvent) -> LaunchStage {
    match event {
        LaunchEvent::Failed(code) => if held(stage).len() == 0 {
            LaunchStage::Done
        } else {
            LaunchStage::RollingBack(failure(stage, code))
        },
        _ => advanced(stage, event),
    }
}

/// The objects an event hands over, each named by the step that releases it.
pub open spec fn acquired_by(event: LaunchEvent) -> Seq<Cleanup> {
    match event {
        LaunchEvent::PipeCreated(p) => seq![
            Cleanup::CloseHandle(p.read),
            Cleanup::CloseHandle(p.write),
        ],
        LaunchEvent::ConsoleCreated(h) => seq![Cleanup::ClosePseudoConsole(h)],
        LaunchEvent::AttributeListReady => seq![Cleanup::DeleteAttributeList],
        LaunchEvent::ProcessCreated(c) => seq![
            Cleanup::CloseHandle(c.process),
            Cleanup::CloseHandle(c.thread),
        ],
        _ => Seq::<Cleanup>::empty(),
    }
}

/// The view of the session a successful launch produces.
pub open spec fn launched(
    input: u64,
    output: u64,
    console: u64,
    child: ChildProcess,
    cols: i16,
    rows: i16,
) -> SessionView {
    SessionView {
        console: Some(console),
        child: Some(child),
        pid: child.pid,
        input,
        output,
        cols,
        rows,
    }
}

/// A launch in progress for one command line and initial geometry.
pub struct Launch {
    command: String,
    cols: i16,
    rows: i16,
    stage: LaunchStage,
    /// Every object reported created so far, in order.
    acquired: Ghost<Seq<Cleanup>>,
    /// Every release step handed out so far, in order.
    released: Ghost<Seq<Cleanup>>,
    /// The objects handed over to the launched session.
    handed_over: Ghost<Seq<Cleanup>>,
}

impl Launch {
    /// The launch's stage.
    pub closed spec fn stage(&self) -> LaunchStage {
        self.stage
    }

    /// The command line the launch runs.
    pub closed spec fn command(&self) -> Seq<char> {
        self.command@
    }

    /// The initial geometry: columns and rows.
    pub closed spec fn cols(&self) -> i16 {
        self.cols
    }

    pub closed spec fn rows(&self) -> i16 {
        self.rows
    }

    /// Every object reported created so far.
    pub closed spec fn acquired(&self) -> Seq<Cleanup> {
        self.acquired@
    }

    /// Every release step handed out so far.
    pub closed spec fn released(&self) -> Seq<Cleanup> {
        self.released@
    }

    /// The objects handed over to the launched session.
    pub closed spec fn handed_over(&self) -> Seq<Cleanup> {
        self.handed_over@
    }

    /// The ledger balances: what was created is, up to order, what was
    /// released plus what is held now plus what was handed to the session
    /// (nothing, until the launch is done).
    pub open spec fn balanced(&self) -> bool {
        &&& self.acquired().to_multiset() == self.released().to_multiset().add(
            held(self.stage()).to_multiset(),
        ).add(self.handed_over().to_multiset())
        &&& !(self.stage() is Done) ==> self.handed_over() == Seq::<Cleanup>::empty()
    }

    /// Whether `event` is a possible report for the current action.
    pub fn accepts(&self, event: &LaunchEvent) -> (r: bool)
        ensures
            r == accepts(self.stage(), *event),
    {
        match self.stage {
            LaunchStage::InputPipe | LaunchStage::OutputPipe { .. } => matches!(
                event,
                LaunchEvent::PipeCreated(_) | LaunchEvent::Failed(_)
            ),
            LaunchStage::Console { .. } => matches!(
                event,
                LaunchEvent::ConsoleCreated(_) | LaunchEvent::Failed(_)
            ),
            LaunchStage::AttributeList { .. } => matches!(
                event,
                LaunchEvent::AttributeListReady | LaunchEvent::Failed(_)
            ),
            LaunchStage::Attribute { .. } => matches!(
                event,
                LaunchEvent::ConsoleAttached | LaunchEvent::Failed(_)
            ),
            LaunchStage::Process { .. } => matches!(
                event,
                LaunchEvent::ProcessCreated(_) | LaunchEvent::Failed(_)
            ),
            LaunchStage::ChildEnds { .. } | LaunchStage::ListDeletion { .. }
            | LaunchStage::RollingBack(_) => matches!(event, LaunchEvent::Released),
            LaunchStage::Done => false,
        }
    }

    /// Takes the report of the current action and returns the next action.
    ///
    /// On a failure, the next action releases everything held (or, with
    /// nothing held, finishes with the error tagged by the failed step).
    /// Once the launch finishes with an error, everything it created has
    /// been released; once it finishes with a session, everything it
    /// created has been released except what the session owns.
    pub fn advance(&mut self, event: LaunchEvent) -> (r: LaunchAction)
        requires
            old(self).balanced(),
            accepts(old(self).stage(), event),
        ensures
            final(self).balanced(),
            final(self).command() == old(self).command(),
            final(self).cols() == old(self).cols(),
            final(self).rows() == old(self).rows(),
            final(self).stage() == next_stage(old(self).stage(), event),
            final(self).acquired() == old(self).acquired() + acquired_by(event),
            // the action that goes with the new stage
            match final(self).stage() {
                LaunchStage::OutputPipe { .. } => r is CreatePipe,
                LaunchStage::Console { stdin, stdout } => r == (LaunchAction::CreateConsole {
                    cols: old(self).cols(),
                    rows: old(self).rows(),
                    input: stdin.read,
                    output: stdout.write,
                }),
                LaunchStage::ChildEnds { .. } => r is Release && r->Release_0@ == seq![
                    Cleanup::CloseHandle(old(self).stage()->Console_stdin.read),
                    Cleanup::CloseHandle(old(self).stage()->Console_stdout.write),
                ],
                LaunchStage::AttributeList { .. } => r is InitAttributeList,
                LaunchStage::Attribute { console, .. } => r == (LaunchAction::AttachConsole {
                    console,
                }),
                LaunchStage::Process { .. } => r is CreateProcess && r->CreateProcess_command@
                    == old(self).command(),
                LaunchStage::ListDeletion { .. } => r is Release && r->Release_0@ == seq![
                    Cleanup::DeleteAttributeList,
                ],
                LaunchStage::RollingBack(_) => r is Release && r->Release_0@ == held(
                    old(self).stage(),
                ),
                LaunchStage::Done => r is Finished,
                LaunchStage::InputPipe => false,
            },
            final(self).released() == old(self).released() + match r {
                LaunchAction::Release(steps) => steps@,
                _ => Seq::<Cleanup>::empty(),
            },
            // how a launch finishes
            r is Finished ==> match old(self).stage() {
                LaunchStage::ListDeletion { input, output, console, child } => r->Finished_0
                    is Ok && r->Finished_0->Ok_0@ == launched(
                    input,
                    output,
                    console,
                    child,
                    old(self).cols(),
                    old(self).rows(),
                ),
                LaunchStage::RollingBack(e) => r->Finished_0 == Err::<ConPtySession, SessionError>(
                    e,
                ),
                _ => r->Finished_0 == Err::<ConPtySession, SessionError>(
                    failure(old(self).stage(), event->Failed_0),
                ),
            },
            final(self).handed_over() == match r {
                LaunchAction::Finished(Ok(s)) => owned(s@),
                _ => old(self).handed_over(),
            },
            r is Finished && r->Finished_0 is Err ==> final(self).acquired().to_multiset()
                == final(self).released().to_multiset().add(final(self).handed_over().to_multiset()),
    {
        broadcast use vstd::seq_lib::group_to_multiset_ensures;

        let ghost old_stage = self.stage;
        let ghost gained = acquired_by(event);
        proof {
            self.acquired@ = self.acquired@ + gained;
        }
        if let LaunchEvent::Failed(code) = event {
            let err = match self.stage {
                LaunchStage::InputPipe | LaunchStage::OutputPipe { .. } => {
                    SessionError::PipeCreationFailed(code)
                },
                LaunchStage::Console { .. } => SessionError::ConsoleCreationFailed(code),
                _ => SessionError::LaunchFailed(code),
            };
            let steps = self.held_steps();
            if steps.len() == 0 {
                self.stage = LaunchStage::Done;
                proof {
                    assert(held(old_stage) + gained =~= Seq::<Cleanup>::empty() + held(self.stage));
                    lemma_settle(
                        old(self).acquired@,
                        old(self).released@,
                        old(self).handed_over@,
                        old_stage,
                        gained,
                        Seq::<Cleanup>::empty(),
                        self.stage,
                    );
                    self.released@ = self.released@ + Seq::<Cleanup>::empty();
                }
                return LaunchAction::Finished(Err(err));
            }
            self.stage = LaunchStage::RollingBack(err);
            proof {
                assert(held(old_stage) + gained =~= steps@ + held(self.stage));
                lemma_settle(
                        old(self).acquired@,
                        old(self).released@,
                        old(self).handed_over@,
                        old_stage,
                        gained,
                        steps@,
                        self.stage,
                    );
                    self.released@ = self.released@ + steps@;
            }
            return LaunchAction::Release(steps);
        }
        match self.stage {
            LaunchStage::InputPipe => {
                let p = match event {
                    LaunchEvent::PipeCreated(p) => p,
                    _ => {
                        proof {
                            assert(false);
                        }
                        return LaunchAction::CreatePipe;
                    },
                };
                self.stage = LaunchStage::OutputPipe { stdin: p };
                proof {
                    assert(held(old_stage) + gained =~= Seq::<Cleanup>::empty() + held(self.stage));
                    lemma_settle(
                        old(self).acquired@,
                        old(self).released@,
                        old(self).handed_over@,
                        old_stage,
                        gained,
                        Seq::<Cleanup>::empty(),
                        self.stage,
                    );
                    self.released@ = self.released@ + Seq::<Cleanup>::empty();
                }
                LaunchAction::CreatePipe
            },
            LaunchStage::OutputPipe { stdin } => {
                let p = match event {
                    LaunchEvent::PipeCreated(p) => p,
                    _ => {
                        proof {
                            assert(false);
                        }
                        return LaunchAction::CreatePipe;
                    },
                };
                self.stage = LaunchStage::Console { stdin, stdout: p };
                proof {
                    assert(held(old_stage) + gained =~= Seq::<Cleanup>::empty() + held(self.stage));
                    lemma_settle(
                        old(self).acquired@,
                        old(self).released@,
                        old(self).handed_over@,
                        old_stage,
                        gained,
                        Seq::<Cleanup>::empty(),
                        self.stage,
                    );
                    self.released@ = self.released@ + Seq::<Cleanup>::empty();
                }
                LaunchAction::CreateConsole {
                    cols: self.cols,
                    rows: self.rows,
                    input: stdin.read,
                    output: p.write,
                }
            },
            LaunchStage::Console { stdin, stdout } => {
                let h = match event {
                    LaunchEvent::ConsoleCreated(h) => h,
                    _ => {
                        proof {
                            assert(false);
                        }
                        return LaunchAction::CreatePipe;
                    },
                };
                self.stage = LaunchStage::ChildEnds {
                    input: stdin.write,
                    output: stdout.read,
                    console: h,
                };
                let mut steps: Vec<Cleanup> = Vec::new();
                steps.push(Cleanup::CloseHandle(stdin.read));
                steps.push(Cleanup::CloseHandle(stdout.write));
                proof {
                    let a = Cleanup::CloseHandle(stdin.read);
                    let b = Cleanup::CloseHandle(stdin.write);
                    let c = Cleanup::CloseHandle(stdout.read);
                    let d = Cleanup::CloseHandle(stdout.write);
                    let k = Cleanup::ClosePseudoConsole(h);
                    assert(held(old_stage) + gained =~= seq![a, b, c, d, k]);
                    assert(steps@ + held(self.stage) =~= seq![a, d, b, c, k]);
                    lemma_swap_inner(a, b, c, d, k);
                    lemma_settle(
                        old(self).acquired@,
                        old(self).released@,
                        old(self).handed_over@,
                        old_stage,
                        gained,
                        steps@,
                        self.stage,
                    );
                    self.released@ = self.released@ + steps@;
                }
                LaunchAction::Release(steps)
            },
            LaunchStage::ChildEnds { input, output, console } => {
                self.stage = LaunchStage::AttributeList { input, output, console };
                proof {
                    assert(held(old_stage) + gained =~= Seq::<Cleanup>::empty() + held(self.stage));
                    lemma_settle(
                        old(self).acquired@,
                        old(self).released@,
                        old(self).handed_over@,
                        old_stage,
                        gained,
                        Seq::<Cleanup>::empty(),
                        self.stage,
                    );
                    self.released@ = self.released@ + Seq::<Cleanup>::empty();
                }
                LaunchAction::InitAttributeList
            },
            LaunchStage::AttributeList { input, output, console } => {
                self.stage = LaunchStage::Attribute { input, output, console };
                proof {
                    let a = Cleanup::CloseHandle(input);
                    let b = Cleanup::CloseHandle(output);
                    let k = Cleanup::ClosePseudoConsole(console);
                    let l = Cleanup::DeleteAttributeList;
                    assert(held(old_stage) + gained =~= seq![a, b, k] + seq![l]);
                    assert(Seq::<Cleanup>::empty() + held(self.stage) =~= seq![l] + seq![a, b, k]);
                    vstd::seq_lib::lemma_multiset_commutative(seq![a, b, k], seq![l]);
                    vstd::seq_lib::lemma_multiset_commutative(seq![l], seq![a, b, k]);
                    assert((seq![a, b, k] + seq![l]).to_multiset() =~= (seq![l] + seq![
                        a,
                        b,
                        k,
                    ]).to_multiset());
                    lemma_settle(
                        old(self).acquired@,
                        old(self).released@,
                        old(self).handed_over@,
                        old_stage,
                        gained,
                        Seq::<Cleanup>::empty(),
                        self.stage,
                    );
                    self.released@ = self.released@ + Seq::<Cleanup>::empty();
                }
                LaunchAction::AttachConsole { console }
            },
            LaunchStage::Attribute { input, output, console } => {
                self.stage = LaunchStage::Process { input, output, console };
                proof {
                    assert(held(old_stage) + gained =~= Seq::<Cleanup>::empty() + held(self.stage));
                    lemma_settle(
                        old(self).acquired@,
                        old(self).released@,
                        old(self).handed_over@,
                        old_stage,
                        gained,
                        Seq::<Cleanup>::empty(),
                        self.stage,
                    );
                    self.released@ = self.released@ + Seq::<Cleanup>::empty();
                }
                LaunchAction::CreateProcess { command: self.command.clone() }
            },
            LaunchStage::Process { input, output, console } => {
                let child = match event {
                    LaunchEvent::ProcessCreated(c) => c,
                    _ => {
                        proof {
                            assert(false);
                        }
                        return LaunchAction::CreatePipe;
                    },
                };
                self.stage = LaunchStage::ListDeletion { input, output, console, child };
                let mut steps: Vec<Cleanup> = Vec::new();
                steps.push(Cleanup::DeleteAttributeList);
                proof {
                    assert(held(old_stage) + gained =~= steps@ + held(self.stage));
                    lemma_settle(
                        old(self).acquired@,
                        old(self).released@,
                        old(self).handed_over@,
                        old_stage,
                        gained,
                        steps@,
                        self.stage,
                    );
                    self.released@ = self.released@ + steps@;
                }
                LaunchAction::Release(steps)
            },
            LaunchStage::ListDeletion { input, output, console, child } => {
                let session = ConPtySession::assemble(
                    console,
                    child,
                    input,
                    output,
                    self.cols,
                    self.rows,
                );
                proof {
                    assert(owned(session@) =~= held(old_stage));
                    self.handed_over@ = owned(session@);
                    assert(old(self).handed_over@.to_multiset() =~= vstd::multiset::Multiset::empty());
                }
                self.stage = LaunchStage::Done;
                proof {
                    assert(held(old_stage) + gained =~= Seq::<Cleanup>::empty() + self.handed_over@);
                    lemma_rebalance(
                        old(self).released@,
                        held(old_stage),
                        old(self).handed_over@,
                        gained,
                        Seq::<Cleanup>::empty(),
                        self.handed_over@,
                    );
                    assert(old(self).released@ + Seq::<Cleanup>::empty() =~= old(self).released@);
                    assert(held(self.stage) =~= Seq::<Cleanup>::empty());
                    vstd::seq_lib::lemma_multiset_commutative(old(self).acquired@, gained);
                    assert(self.acquired@.to_multiset() =~= self.released@.to_multiset().add(
                        held(self.stage).to_multiset(),
                    ).add(self.handed_over@.to_multiset()));
                }
                LaunchAction::Finished(Ok(session))
            },
            LaunchStage::RollingBack(e) => {
                self.stage = LaunchStage::Done;
                proof {
                    assert(held(old_stage) + gained =~= Seq::<Cleanup>::empty() + held(self.stage));
                    lemma_settle(
                        old(self).acquired@,
                        old(self).released@,
                        old(self).handed_over@,
                        old_stage,
                        gained,
                        Seq::<Cleanup>::empty(),
                        self.stage,
                    );
                    self.released@ = self.released@ + Seq::<Cleanup>::empty();
                }
                LaunchAction::Finished(Err(e))
            },
            LaunchStage::Done => {
                proof {
                    assert(false);
                }
                LaunchAction::CreatePipe
            },
        }
    }


    /// The release steps for everything held at the current stage.
    fn held_steps(&self) -> (r: Vec<Cleanup>)
        ensures
            r@ == held(self.stage()),
    {
        let mut steps: Vec<Cleanup> = Vec::new();
        match self.stage {
            LaunchStage::OutputPipe { stdin } => {
                steps.push(Cleanup::CloseHandle(stdin.read));
                steps.push(Cleanup::CloseHandle(stdin.write));
            },
            LaunchStage::Console { stdin, stdout } => {
                steps.push(Cleanup::CloseHandle(stdin.read));
                steps.push(Cleanup::CloseHandle(stdin.write));
                steps.push(Cleanup::CloseHandle(stdout.read));
                steps.push(Cleanup::CloseHandle(stdout.write));
            },
            LaunchStage::ChildEnds { input, output, console }
            | LaunchStage::AttributeList { input, output, console } => {
                steps.push(Cleanup::CloseHandle(input));
                steps.push(Cleanup::CloseHandle(output));
                steps.push(Cleanup::ClosePseudoConsole(console));
            },
            LaunchStage::Attribute { input, output, console }
            | LaunchStage::Process { input, output, console } => {
                steps.push(Cleanup::DeleteAttributeList);
                steps.push(Cleanup::CloseHandle(input));
                steps.push(Cleanup::CloseHandle(output));
                steps.push(Cleanup::ClosePseudoConsole(console));
            },
            LaunchStage::ListDeletion { input, output, console, child } => {
                steps.push(Cleanup::CloseHandle(input));
                steps.push(Cleanup::CloseHandle(output));
                steps.push(Cleanup::ClosePseudoConsole(console));
                steps.push(Cleanup::CloseHandle(child.process));
                steps.push(Cleanup::CloseHandle(child.thread));
            },
            _ => {},
        }
        proof {
            assert(steps@ =~= held(self.stage));
        }
        steps
    }
}

/// A finished launch leaks nothing: everything it created has been
/// released, except the objects it handed to the session, which the
/// session's `close` releases in turn.
pub proof fn lemma_finished_launch_leaks_nothing(l: Launch)
    requires
        l.balanced(),
        l.stage() is Done,
    ensures
        l.acquired().to_multiset() == l.released().to_multiset().add(
            l.handed_over().to_multiset(),
        ),
{
    broadcast use vstd::seq_lib::group_to_multiset_ensures, vstd::multiset::group_multiset_axioms;

    assert(held(l.stage()) =~= Seq::<Cleanup>::empty());
    assert(l.released().to_multiset().add(held(l.stage()).to_multiset()) =~= l.released().to_multiset());
}

/// A move from `old_stage` to `new_stage` that gains `gained` and releases
/// `now_released` keeps the ledger balanced, given that the objects held
/// before plus those gained are, up to order, those released now plus those
/// held after.
proof fn lemma_settle(
    acquired: Seq<Cleanup>,
    released: Seq<Cleanup>,
    handed: Seq<Cleanup>,
    old_stage: LaunchStage,
    gained: Seq<Cleanup>,
    now_released: Seq<Cleanup>,
    new_stage: LaunchStage,
)
    requires
        acquired.to_multiset() == released.to_multiset().add(held(old_stage).to_multiset()).add(
            handed.to_multiset(),
        ),
        (held(old_stage) + gained).to_multiset() == (now_released + held(new_stage)).to_multiset(),
    ensures
        (acquired + gained).to_multiset() == (released + now_released).to_multiset().add(
            held(new_stage).to_multiset(),
        ).add(handed.to_multiset()),
{
    broadcast use vstd::seq_lib::group_to_multiset_ensures;

    vstd::seq_lib::lemma_multiset_commutative(acquired, gained);
    lemma_rebalance(released, held(old_stage), handed, gained, now_released, held(new_stage));
}

/// Moving objects between held, released and handed-over keeps the ledger
/// balanced when the objects gained plus those held before are, up to order,
/// those released now plus those held after.
proof fn lemma_rebalance(
    released: Seq<Cleanup>,
    held_before: Seq<Cleanup>,
    handed: Seq<Cleanup>,
    gained: Seq<Cleanup>,
    now_released: Seq<Cleanup>,
    held_after: Seq<Cleanup>,
)
    requires
        (held_before + gained).to_multiset() == (now_released + held_after).to_multiset(),
    ensures
        released.to_multiset().add(held_before.to_multiset()).add(handed.to_multiset()).add(
            gained.to_multiset(),
        ) == (released + now_released).to_multiset().add(held_after.to_multiset()).add(
            handed.to_multiset(),
        ),
{
    broadcast use vstd::seq_lib::group_to_multiset_ensures, vstd::multiset::group_multiset_axioms;

    vstd::seq_lib::lemma_multiset_commutative(held_before, gained);
    vstd::seq_lib::lemma_multiset_commutative(now_released, held_after);
    vstd::seq_lib::lemma_multiset_commutative(released, now_released);
    let lhs = released.to_multiset().add(held_before.to_multiset()).add(handed.to_multiset()).add(
        gained.to_multiset(),
    );
    let rhs = (released + now_released).to_multiset().add(held_after.to_multiset()).add(
        handed.to_multiset(),
    );
    assert forall|x: Cleanup| lhs.count(x) == rhs.count(x) by {
        let hb = held_before.to_multiset();
        let g = gained.to_multiset();
        let n = now_released.to_multiset();
        let ha = held_after.to_multiset();
        assert(hb.add(g).count(x) == hb.count(x) + g.count(x));
        assert(n.add(ha).count(x) == n.count(x) + ha.count(x));
        assert(hb.add(g) == n.add(ha));
        assert(hb.count(x) + g.count(x) == n.count(x) + ha.count(x));
        assert((released + now_released).to_multiset().count(x) == released.to_multiset().count(x) + n.count(x));
    }
    assert(lhs =~= rhs);
}

proof fn lemma_swap_inner(a: Cleanup, b: Cleanup, c: Cleanup, d: Cleanup, k: Cleanup)
    ensures
        seq![a, b, c, d, k].to_multiset() == seq![a, d, b, c, k].to_multiset(),
{
    broadcast use vstd::seq_lib::group_to_multiset_ensures;

    assert(seq![a, b, c, d, k] =~= seq![a] + (seq![b, c] + seq![d]) + seq![k]);
    assert(seq![a, d, b, c, k] =~= seq![a] + (seq![d] + seq![b, c]) + seq![k]);
    vstd::seq_lib::lemma_multiset_commutative(seq![b, c], seq![d]);
    vstd::seq_lib::lemma_multiset_commutative(seq![d], seq![b, c]);
    vstd::seq_lib::lemma_multiset_commutative(seq![a], seq![b, c] + seq![d]);
    vstd::seq_lib::lemma_multiset_commutative(seq![a], seq![d] + seq![b, c]);
    vstd::seq_lib::lemma_multiset_commutative(seq![a] + (seq![b, c] + seq![d]), seq![k]);
    vstd::seq_lib::lemma_multiset_commutative(seq![a] + (seq![d] + seq![b, c]), seq![k]);
    assert(seq![a, b, c, d, k].to_multiset() =~= seq![a, d, b, c, k].to_multiset());
}

} // verus!
