use vstd::prelude::*;
use crate::error::{ending_of, BridgeError, Ending};
use crate::invocation::{build_invocation, engine_args, Invocation};
use crate::layout::{EngineLayout, Workspace};
use crate::request::AnonymizationRequest;
use crate::text::views;

verus! {

/// Where one engine run stands.
#[derive(Clone, Copy, Debug, PartialEq, Eq, Structural)]
pub enum Phase {
    /// Waiting to learn whether the engine's entry point exists.
    CheckingEntryPoint,
    /// Waiting to learn whether the engine's configuration file exists.
    CheckingConfig,
    /// Waiting for the workspace directory to be created.
    CreatingDir,
    /// Waiting for the input file to be written and flushed.
    WritingInput,
    /// Waiting for the engine process to terminate.
    Running,
    /// Waiting for the output file to be read.
    ReadingOutput,
    /// Waiting for the three transient files to be removed; the outcome is
    /// decided.
    CleaningUp(Ending),
    /// The outcome has been handed out.
    Finished(Ending),
}

/// What the host reports back after carrying out an action.
pub enum Event {
    /// Whether the path of a `CheckExists` action exists.
    Checked(bool),
    /// The result of a `CreateDir` action.
    Created(Result<(), String>),
    /// The result of a `WriteInput` action.
    Written(Result<(), String>),
    /// The engine process of a `Launch` action terminated; `code` is its
    /// exit code when the platform gives one, and the two outputs were
    /// captured in full.
    Exited { code: Option<i32>, stdout: String, stderr: String },
    /// The engine process of a `Launch` action could not be started.
    LaunchFailed(String),
    /// The result of a `ReadOutput` action.
    OutputRead(Result<String, String>),
    /// A `RemoveFiles` action was carried out; its failures are not reported.
    Removed,
}

/// What the host is asked to do next.
pub enum Action {
    /// Report whether this path exists.
    CheckExists(String),
    /// Create this directory and its parents, if missing.
    CreateDir(String),
    /// Write `text` to `path` in full and flush it.
    WriteInput { path: String, text: String },
    /// Start this process, wait for it, and capture both outputs.
    Launch(Invocation),
    /// Read this file in full as text.
    ReadOutput(String),
    /// Try to remove each of these files, then the directory that held them
    /// if it is empty, ignoring any failure.
    RemoveFiles { files: Vec<String>, dir: String },
    /// The run is over; hand this outcome to the caller.
    Finish(Result<String, BridgeError>),
}

/// Whether `e` answers the action issued in phase `p`.
pub open spec fn phase_accepts(p: Phase, e: Event) -> bool {
    match p {
        Phase::CheckingEntryPoint => e is Checked,
        Phase::CheckingConfig => e is Checked,
        Phase::CreatingDir => e is Created,
        Phase::WritingInput => e is Written,
        Phase::Running => e is Exited || e is LaunchFailed,
        Phase::ReadingOutput => e is OutputRead,
        Phase::CleaningUp(_) => e is Removed,
        Phase::Finished(_) => false,
    }
}

/// Whether an exit code means success.
pub open spec fn exit_success(code: Option<i32>) -> bool {
    code == Some(0i32)
}

/// The phase after `p` once `e` has been reported.
pub open spec fn next_phase(p: Phase, e: Event) -> Phase {
    match p {
        Phase::CheckingEntryPoint => if e == Event::Checked(true) {
            Phase::CheckingConfig
        } else {
            Phase::CleaningUp(Ending::MissingDependency)
        },
        Phase::CheckingConfig => if e == Event::Checked(true) {
            Phase::CreatingDir
        } else {
            Phase::CleaningUp(Ending::MissingDependency)
        },
        Phase::CreatingDir => if e matches Event::Created(Ok(_)) {
            Phase::WritingInput
        } else {
            Phase::CleaningUp(Ending::WorkspaceIo)
        },
        Phase::WritingInput => if e matches Event::Written(Ok(_)) {
            Phase::Running
        } else {
            Phase::CleaningUp(Ending::WorkspaceIo)
        },
        Phase::Running => match e {
            Event::Exited { code, .. } => if exit_success(code) {
                Phase::ReadingOutput
            } else {
                Phase::CleaningUp(Ending::EngineFailure)
            },
            _ => Phase::CleaningUp(Ending::LaunchFailure),
        },
        Phase::ReadingOutput => if e matches Event::OutputRead(Ok(_)) {
            Phase::CleaningUp(Ending::Success)
        } else {
            Phase::CleaningUp(Ending::OutputRetrieval)
        },
        Phase::CleaningUp(k) => Phase::Finished(k),
        Phase::Finished(k) => Phase::Finished(k),
    }
}

/// The most characters of captured engine output that an error keeps.
pub const MAX_DIAGNOSTIC_CHARS: usize = 65536;

/// The last `MAX_DIAGNOSTIC_CHARS` characters of `s`, or all of it when it
/// is no longer.
pub open spec fn capped(s: Seq<char>) -> Seq<char> {
    if s.len() > MAX_DIAGNOSTIC_CHARS {
        s.subrange(s.len() - MAX_DIAGNOSTIC_CHARS, s.len() as int)
    } else {
        s
    }
}

/// The text an engine failure reports: standard error, or standard output
/// when standard error is empty, cut to its last `MAX_DIAGNOSTIC_CHARS`
/// characters.
pub open spec fn diagnostic_text(stdout: Seq<char>, stderr: Seq<char>) -> Seq<char> {
    capped(
        if stderr.len() > 0 {
            stderr
        } else {
            stdout
        },
    )
}

/// Keeps the last `MAX_DIAGNOSTIC_CHARS` characters of `s`.
pub fn cap_diagnostic(s: String) -> (r: String)
    ensures
        r@ == capped(s@),
{
    let n = s.unicode_len();
    if n > MAX_DIAGNOSTIC_CHARS {
        String::from_str(s.as_str().substring_char(n - MAX_DIAGNOSTIC_CHARS, n))
    } else {
        s
    }
}

/// One engine run, driven by the events its host reports.
pub struct Bridge {
    pub layout: EngineLayout,
    pub workspace: Workspace,
    pub request: AnonymizationRequest,
    pub phase: Phase,
    /// The decided outcome, held while the transient files are removed.
    pub outcome: Option<Result<String, BridgeError>>,
}

impl Bridge {
    /// The outcome is held exactly while cleaning up, and it belongs to the
    /// ending that the phase names.
    pub open spec fn wf(&self) -> bool {
        &&& self.outcome is Some <==> self.phase is CleaningUp
        &&& self.phase matches Phase::CleaningUp(k) ==> ending_of(self.outcome->0) == k
    }

    /// Whether `o` is the outcome decided when `e` ends the run from the
    /// current phase.
    pub open spec fn decides(&self, e: Event, o: Result<String, BridgeError>) -> bool {
        match self.phase {
            Phase::CheckingEntryPoint => o == Err::<String, BridgeError>(
                BridgeError::MissingDependency { path: self.layout.entry_point },
            ),
            Phase::CheckingConfig => o == Err::<String, BridgeError>(
                BridgeError::MissingDependency { path: self.layout.config_file },
            ),
            Phase::Running => match e {
                Event::Exited { code, stdout, stderr } => o matches Err(
                    BridgeError::EngineFailure { code: c, diagnostic: d },
                ) && c == code && d@ == diagnostic_text(stdout@, stderr@),
                Event::LaunchFailed(detail) => o == Err::<String, BridgeError>(
                    BridgeError::LaunchFailure { detail },
                ),
                _ => false,
            },
            Phase::ReadingOutput => match e {
                Event::OutputRead(Ok(text)) => o == Ok::<String, BridgeError>(text),
                Event::OutputRead(Err(detail)) => o == Err::<String, BridgeError>(
                    BridgeError::OutputRetrieval { detail },
                ),
                _ => false,
            },
            _ => match e {
                Event::Created(Err(detail)) => o == Err::<String, BridgeError>(
                    BridgeError::WorkspaceIo { detail },
                ),
                Event::Written(Err(detail)) => o == Err::<String, BridgeError>(
                    BridgeError::WorkspaceIo { detail },
                ),
                _ => false,
            },
        }
    }

    /// Whether `next` is this bridge once `e` has been reported: the same
    /// request, engine and workspace, the next phase, and the outcome decided
    /// by `e` when the run is now cleaning up.
    pub open spec fn steps_to(&self, e: Event, next: Bridge) -> bool {
        &&& next.layout == self.layout
        &&& next.workspace == self.workspace
        &&& next.request == self.request
        &&& next.phase == next_phase(self.phase, e)
        &&& if next.phase is CleaningUp {
            next.outcome matches Some(o) && self.decides(e, o)
        } else {
            next.outcome is None
        }
    }

    /// Whether `a` is the action that the current phase asks of the host.
    pub open spec fn issues(&self, a: Action) -> bool {
        match self.phase {
            Phase::CheckingEntryPoint => a == Action::CheckExists(self.layout.entry_point),
            Phase::CheckingConfig => a == Action::CheckExists(self.layout.config_file),
            Phase::CreatingDir => a == Action::CreateDir(self.workspace.dir),
            Phase::WritingInput => a == (Action::WriteInput {
                path: self.workspace.input,
                text: self.request.text,
            }),
            Phase::Running => a matches Action::Launch(inv) && inv.program@ == self.layout.program@
                && views(inv.args@) == engine_args(&self.layout, &self.workspace, &self.request),
            Phase::ReadingOutput => a == Action::ReadOutput(self.workspace.output),
            Phase::CleaningUp(_) => a matches Action::RemoveFiles { files, dir } && files@ == seq![
                self.workspace.input,
                self.workspace.output,
                self.workspace.error_output,
            ] && dir == self.workspace.dir,
            Phase::Finished(_) => a is Finish,
        }
    }

    /// Begins a run: the engine's entry point is checked first.
    pub fn start(layout: EngineLayout, workspace: Workspace, request: AnonymizationRequest) -> (r: (
        Bridge,
        Action,
    ))
        ensures
            r.0.layout == layout,
            r.0.workspace == workspace,
            r.0.request == request,
            r.0.phase == Phase::CheckingEntryPoint,
            r.0.wf(),
            r.0.issues(r.1),
    {
        let bridge = Bridge {
            layout,
            workspace,
            request,
            phase: Phase::CheckingEntryPoint,
            outcome: None,
        };
        let a = bridge.current_action();
        (bridge, a)
    }

    /// The action of the current phase, for any phase but the last.
    fn current_action(&self) -> (a: Action)
        requires
            !(self.phase is Finished),
        ensures
            self.issues(a),
    {
        match self.phase {
            Phase::CheckingEntryPoint => Action::CheckExists(self.layout.entry_point.clone()),
            Phase::CheckingConfig => Action::CheckExists(self.layout.config_file.clone()),
            Phase::CreatingDir => Action::CreateDir(self.workspace.dir.clone()),
            Phase::WritingInput => Action::WriteInput {
                path: self.workspace.input.clone(),
                text: self.request.text.clone(),
            },
            Phase::Running => Action::Launch(
                build_invocation(&self.layout, &self.workspace, &self.request),
            ),
            Phase::ReadingOutput => Action::ReadOutput(self.workspace.output.clone()),
            _ => Action::RemoveFiles {
                files: self.workspace.files(),
                dir: self.workspace.dir.clone(),
            },
        }
    }

    /// Whether `e` answers the action last issued.
    pub fn accepts(&self, e: &Event) -> (r: bool)
        ensures
            r == phase_accepts(self.phase, *e),
    {
        match self.phase {
            Phase::CheckingEntryPoint => matches!(e, Event::Checked(_)),
            Phase::CheckingConfig => matches!(e, Event::Checked(_)),
            Phase::CreatingDir => matches!(e, Event::Created(_)),
            Phase::WritingInput => matches!(e, Event::Written(_)),
            Phase::Running => matches!(e, Event::Exited { .. } | Event::LaunchFailed(_)),
            Phase::ReadingOutput => matches!(e, Event::OutputRead(_)),
            Phase::CleaningUp(_) => matches!(e, Event::Removed),
            Phase::Finished(_) => false,
        }
    }

    /// Takes in the host's report on the last action and returns the next
    /// action.
    pub fn step(&mut self, e: Event) -> (a: Action)
        requires
            old(self).wf(),
            phase_accepts(old(self).phase, e),
        ensures
            old(self).steps_to(e, *final(self)),
            final(self).wf(),
            final(self).phase is Finished ==> a == Action::Finish(old(self).outcome->0),
            !(final(self).phase is Finished) ==> final(self).issues(a),
    {
        let ghost before = *self;
        match self.phase {
            Phase::CheckingEntryPoint => {
                if matches!(e, Event::Checked(true)) {
                    self.phase = Phase::CheckingConfig;
                } else {
                    let path = self.layout.entry_point.clone();
                    self.phase = Phase::CleaningUp(Ending::MissingDependency);
                    self.outcome = Some(Err(BridgeError::MissingDependency { path }));
                }
            },
            Phase::CheckingConfig => {
                if matches!(e, Event::Checked(true)) {
                    self.phase = Phase::CreatingDir;
                } else {
                    let path = self.layout.config_file.clone();
                    self.phase = Phase::CleaningUp(Ending::MissingDependency);
                    self.outcome = Some(Err(BridgeError::MissingDependency { path }));
                }
            },
            Phase::CreatingDir => {
                match e {
                    Event::Created(Ok(_)) => {
                        self.phase = Phase::WritingInput;
                    },
                    Event::Created(Err(detail)) => {
                        self.phase = Phase::CleaningUp(Ending::WorkspaceIo);
                        self.outcome = Some(Err(BridgeError::WorkspaceIo { detail }));
                    },
                    _ => {},
                }
            },
            Phase::WritingInput => {
                match e {
                    Event::Written(Ok(_)) => {
                        self.phase = Phase::Running;
                    },
                    Event::Written(Err(detail)) => {
                        self.phase = Phase::CleaningUp(Ending::WorkspaceIo);
                        self.outcome = Some(Err(BridgeError::WorkspaceIo { detail }));
                    },
                    _ => {},
                }
            },
            Phase::Running => {
                match e {
                    Event::Exited { code, stdout, stderr } => {
                        if matches!(code, Some(0)) {
                            self.phase = Phase::ReadingOutput;
                        } else {
                            let diagnostic = cap_diagnostic(
                                if stderr.unicode_len() > 0 {
                                    stderr
                                } else {
                                    stdout
                                },
                            );
                            self.phase = Phase::CleaningUp(Ending::EngineFailure);
                            self.outcome = Some(
                                Err(BridgeError::EngineFailure { code, diagnostic }),
                            );
                        }
                    },
                    Event::LaunchFailed(detail) => {
                        self.phase = Phase::CleaningUp(Ending::LaunchFailure);
                        self.outcome = Some(Err(BridgeError::LaunchFailure { detail }));
                    },
                    _ => {},
                }
            },
            Phase::ReadingOutput => {
                match e {
                    Event::OutputRead(Ok(text)) => {
                        self.phase = Phase::CleaningUp(Ending::Success);
                        self.outcome = Some(Ok(text));
                    },
                    Event::OutputRead(Err(detail)) => {
                        self.phase = Phase::CleaningUp(Ending::OutputRetrieval);
                        self.outcome = Some(Err(BridgeError::OutputRetrieval { detail }));
                    },
                    _ => {},
                }
            },
            Phase::CleaningUp(k) => {
                self.phase = Phase::Finished(k);
                let outcome = self.outcome.take();
                return Action::Finish(outcome.unwrap());
            },
            Phase::Finished(_) => {},
        }
        assert(before.steps_to(e, *self));
        self.current_action()
    }
}

} // verus!
