//! The supervision state machine.
//!
//! The host application performs each action the machine asks for and hands
//! back what happened as the next input. The machine never blocks and never
//! fails: a startup failure becomes a report and a final phase.

use crate::command::{invocation_args, program_id, Invocation};
use crate::event::{classify, log_line_of, LogChannel, LogEntry, OutputEvent};
use crate::text::join_text;
use vstd::prelude::*;

verus! {

/// Whether the companion process is started by someone else (development)
/// or by this application (release).
#[derive(Debug, Clone, Copy, PartialEq, Eq, Structural)]
pub enum RunMode {
    Development,
    Release,
}

/// Why supervision could not start.
#[derive(Debug, Clone, Copy, PartialEq, Eq, Structural)]
pub enum FailureKind {
    /// The host could not name the application data directory.
    PathResolution,
    /// The data directory could not be created.
    Io,
    /// The data directory path is not valid text.
    Encoding,
    /// The bundled companion executable could not be located.
    ExecutableNotFound,
    /// The operating system refused to start the process.
    SpawnFailure,
}

/// How far supervision has come.
#[derive(Debug, Clone, Copy, PartialEq, Eq, Structural)]
pub enum Phase {
    /// Nothing has happened yet.
    NotStarted,
    /// Development mode: supervision does not run.
    Inactive,
    /// Waiting for the host to name the data directory.
    Resolving,
    /// Waiting for the data directory to be created.
    Creating,
    /// Waiting for the data directory path as text.
    Encoding,
    /// Waiting for the companion process to be spawned.
    Spawning,
    /// The process runs and its events are drained.
    Running,
    /// The process has exited.
    Terminated { code: Option<i32>, signal: Option<i32> },
    /// Startup failed; nothing is supervised.
    Failed(FailureKind),
}

/// What the host application reports to the machine.
#[derive(Debug, Clone, PartialEq, Eq)]
pub enum Input {
    /// The application starts up in the given mode.
    Startup(RunMode),
    /// The host named the data directory.
    PathResolved,
    /// The host could not name the data directory.
    PathUnavailable(String),
    /// The data directory exists.
    DirectoryReady,
    /// Creating the data directory failed.
    DirectoryFailed(String),
    /// The data directory path as text.
    PathEncoded(String),
    /// The data directory path is not valid text.
    PathNotText,
    /// The bundled executable could not be located.
    ExecutableMissing(String),
    /// The process could not be spawned.
    SpawnFailed(String),
    /// The process was spawned.
    Spawned,
    /// The running process produced an event.
    Process(OutputEvent),
}

/// A startup failure, with the text to log for it.
#[derive(Debug, Clone, PartialEq, Eq)]
pub struct FailureReport {
    pub kind: FailureKind,
    pub text: String,
}

/// What the machine asks the host application to do next.
#[derive(Debug, Clone, PartialEq, Eq)]
pub enum Action {
    /// Print the notice and do nothing else.
    Notice(String),
    /// Resolve the per-user application data directory.
    ResolveDataDirectory,
    /// Create the data directory and its parents where absent.
    CreateDirectory,
    /// Convert the data directory path to text.
    EncodePath,
    /// Locate the bundled executable and spawn it with these arguments.
    Launch(Invocation),
    /// Await the next event of the process.
    Drain,
    /// Log the entry, then await the next event of the process.
    Forward(LogEntry),
    /// Log the entry and stop: the process has exited.
    Finish(LogEntry),
    /// Log the failure on the error channel and stop.
    Report(FailureReport),
    /// Nothing to do.
    Idle,
}

/// An action over mathematical values.
pub enum ActionView {
    Notice(Seq<char>),
    ResolveDataDirectory,
    CreateDirectory,
    EncodePath,
    Launch { program: Seq<char>, args: Seq<Seq<char>> },
    Drain,
    Forward((LogChannel, Seq<char>)),
    Finish((LogChannel, Seq<char>)),
    Report { kind: FailureKind, text: Seq<char> },
    Idle,
}

impl View for Action {
    type V = ActionView;

    open spec fn view(&self) -> ActionView {
        match *self {
            Action::Notice(text) => ActionView::Notice(text@),
            Action::ResolveDataDirectory => ActionView::ResolveDataDirectory,
            Action::CreateDirectory => ActionView::CreateDirectory,
            Action::EncodePath => ActionView::EncodePath,
            Action::Launch(invocation) => ActionView::Launch {
                program: invocation@.0,
                args: invocation@.1,
            },
            Action::Drain => ActionView::Drain,
            Action::Forward(entry) => ActionView::Forward(entry@),
            Action::Finish(entry) => ActionView::Finish(entry@),
            Action::Report(report) => ActionView::Report { kind: report.kind, text: report.text@ },
            Action::Idle => ActionView::Idle,
        }
    }
}

/// The notice printed in development mode.
pub open spec fn development_notice() -> Seq<char> {
    "Running in development mode - backend should be started separately with `pnpm dev`"@
}

/// What a failure of the given kind is called, given the detail that the
/// host supplied for it.
pub open spec fn failure_description(kind: FailureKind, detail: Seq<char>) -> Seq<char> {
    match kind {
        FailureKind::PathResolution => "Failed to get app data directory: "@ + detail,
        FailureKind::Io => detail,
        FailureKind::Encoding => "Invalid app data directory path"@,
        FailureKind::ExecutableNotFound => "Failed to create sidecar command: "@ + detail,
        FailureKind::SpawnFailure => detail,
    }
}

/// The text logged for a startup failure.
pub open spec fn failure_text(kind: FailureKind, detail: Seq<char>) -> Seq<char> {
    "Failed to start backend sidecar: "@ + failure_description(kind, detail)
}

/// The report action for a startup failure.
pub open spec fn report_of(kind: FailureKind, detail: Seq<char>) -> ActionView {
    ActionView::Report { kind, text: failure_text(kind, detail) }
}

/// What the relay does with one event of the running process: the next
/// phase and the action.
pub open spec fn relay_step(event: OutputEvent) -> (Phase, ActionView) {
    match event {
        OutputEvent::Terminated { code, signal } => (
            Phase::Terminated { code, signal },
            ActionView::Finish(log_line_of(event).unwrap()),
        ),
        _ => match log_line_of(event) {
            Some(line) => (Phase::Running, ActionView::Forward(line)),
            None => (Phase::Running, ActionView::Drain),
        },
    }
}

/// The transition function: the next phase and the action for an input
/// that arrives in a phase. An input that the phase does not await changes
/// nothing and asks for nothing.
pub open spec fn spec_step(phase: Phase, input: Input) -> (Phase, ActionView) {
    match (phase, input) {
        (Phase::NotStarted, Input::Startup(RunMode::Development)) => (
            Phase::Inactive,
            ActionView::Notice(development_notice()),
        ),
        (Phase::NotStarted, Input::Startup(RunMode::Release)) => (
            Phase::Resolving,
            ActionView::ResolveDataDirectory,
        ),
        (Phase::Resolving, Input::PathResolved) => (Phase::Creating, ActionView::CreateDirectory),
        (Phase::Resolving, Input::PathUnavailable(detail)) => (
            Phase::Failed(FailureKind::PathResolution),
            report_of(FailureKind::PathResolution, detail@),
        ),
        (Phase::Creating, Input::DirectoryReady) => (Phase::Encoding, ActionView::EncodePath),
        (Phase::Creating, Input::DirectoryFailed(detail)) => (
            Phase::Failed(FailureKind::Io),
            report_of(FailureKind::Io, detail@),
        ),
        (Phase::Encoding, Input::PathEncoded(path)) => (
            Phase::Spawning,
            ActionView::Launch { program: program_id(), args: invocation_args(path@) },
        ),
        (Phase::Encoding, Input::PathNotText) => (
            Phase::Failed(FailureKind::Encoding),
            report_of(FailureKind::Encoding, Seq::empty()),
        ),
        (Phase::Spawning, Input::Spawned) => (Phase::Running, ActionView::Drain),
        (Phase::Spawning, Input::ExecutableMissing(detail)) => (
            Phase::Failed(FailureKind::ExecutableNotFound),
            report_of(FailureKind::ExecutableNotFound, detail@),
        ),
        (Phase::Spawning, Input::SpawnFailed(detail)) => (
            Phase::Failed(FailureKind::SpawnFailure),
            report_of(FailureKind::SpawnFailure, detail@),
        ),
        (Phase::Running, Input::Process(event)) => relay_step(event),
        _ => (phase, ActionView::Idle),
    }
}

/// Whether supervision runs at all in the given mode.
pub fn should_supervise(mode: RunMode) -> (active: bool)
    ensures
        active == (mode == RunMode::Release),
        active == (spec_step(Phase::NotStarted, Input::Startup(mode)).0 == Phase::Resolving),
{
    match mode {
        RunMode::Development => false,
        RunMode::Release => true,
    }
}

/// The report for a startup failure of the given kind. `detail` is what the
/// host said of it; a kind that needs no detail ignores it.
pub fn report_failure(kind: FailureKind, detail: &str) -> (report: FailureReport)
    ensures
        report.kind == kind,
        report.text@ == failure_text(kind, detail@),
{
    let description = match kind {
        FailureKind::PathResolution => join_text("Failed to get app data directory: ", detail),
        FailureKind::Io => detail.to_owned(),
        FailureKind::Encoding => "Invalid app data directory path".to_owned(),
        FailureKind::ExecutableNotFound => join_text("Failed to create sidecar command: ", detail),
        FailureKind::SpawnFailure => detail.to_owned(),
    };
    let text = join_text("Failed to start backend sidecar: ", description.as_str());
    FailureReport { kind, text }
}

fn fail(kind: FailureKind, detail: &str) -> (next: (Phase, Action))
    ensures
        next.0 == Phase::Failed(kind),
        next.1@ == report_of(kind, detail@),
{
    (Phase::Failed(kind), Action::Report(report_failure(kind, detail)))
}

/// Handles one event of the running process: the entry to log, if any, and
/// whether the process goes on.
pub fn relay_event(event: &OutputEvent) -> (next: (Phase, Action))
    ensures
        next.0 == relay_step(*event).0,
        next.1@ == relay_step(*event).1,
{
    match event {
        OutputEvent::Terminated { code, signal } => (
            Phase::Terminated { code: *code, signal: *signal },
            Action::Finish(LogEntry::termination(*code, *signal)),
        ),
        _ => match classify(event) {
            Some(entry) => (Phase::Running, Action::Forward(entry)),
            None => (Phase::Running, Action::Drain),
        },
    }
}

/// Advances the machine by one input: the next phase, and what the host
/// application is to do.
pub fn step(phase: Phase, input: Input) -> (next: (Phase, Action))
    ensures
        next.0 == spec_step(phase, input).0,
        next.1@ == spec_step(phase, input).1,
{
    match phase {
        Phase::NotStarted => match input {
            Input::Startup(RunMode::Development) => (
                Phase::Inactive,
                Action::Notice(
                    "Running in development mode - backend should be started separately with `pnpm dev`".to_owned(),
                ),
            ),
            Input::Startup(RunMode::Release) => (Phase::Resolving, Action::ResolveDataDirectory),
            _ => (phase, Action::Idle),
        },
        Phase::Resolving => match input {
            Input::PathResolved => (Phase::Creating, Action::CreateDirectory),
            Input::PathUnavailable(detail) => fail(FailureKind::PathResolution, detail.as_str()),
            _ => (phase, Action::Idle),
        },
        Phase::Creating => match input {
            Input::DirectoryReady => (Phase::Encoding, Action::EncodePath),
            Input::DirectoryFailed(detail) => fail(FailureKind::Io, detail.as_str()),
            _ => (phase, Action::Idle),
        },
        Phase::Encoding => match input {
            Input::PathEncoded(path) => (
                Phase::Spawning,
                Action::Launch(Invocation::for_data_dir(path.as_str())),
            ),
            Input::PathNotText => {
                let next = fail(FailureKind::Encoding, "");
                proof {
                    assert(failure_text(FailureKind::Encoding, ""@) == failure_text(
                        FailureKind::Encoding,
                        Seq::empty(),
                    ));
                }
                next
            },
            _ => (phase, Action::Idle),
        },
        Phase::Spawning => match input {
            Input::Spawned => (Phase::Running, Action::Drain),
            Input::ExecutableMissing(detail) => fail(
                FailureKind::ExecutableNotFound,
                detail.as_str(),
            ),
            Input::SpawnFailed(detail) => fail(FailureKind::SpawnFailure, detail.as_str()),
            _ => (phase, Action::Idle),
        },
        Phase::Running => match input {
            Input::Process(event) => relay_event(&event),
            _ => (phase, Action::Idle),
        },
        _ => (phase, Action::Idle),
    }
}

/// The supervision machine as the host application holds it: the phase it
/// is in, advanced by one input at a time.
#[derive(Debug, Clone, Copy, PartialEq, Eq)]
pub struct Supervisor {
    phase: Phase,
}

impl Supervisor {
    /// The phase the machine is in.
    pub closed spec fn spec_phase(&self) -> Phase {
        self.phase
    }

    /// A machine on which nothing has happened yet.
    pub fn new() -> (supervisor: Supervisor)
        ensures
            supervisor.spec_phase() == Phase::NotStarted,
    {
        Supervisor { phase: Phase::NotStarted }
    }

    /// The phase the machine is in.
    pub fn phase(&self) -> (phase: Phase)
        ensures
            phase == self.spec_phase(),
    {
        self.phase
    }

    /// Whether the machine has come to rest: supervision is inactive, has
    /// failed, or the process has exited.
    pub fn is_finished(&self) -> (finished: bool)
        ensures
            finished == (self.spec_phase() is Inactive || self.spec_phase() is Failed
                || self.spec_phase() is Terminated),
    {
        match self.phase {
            Phase::Inactive => true,
            Phase::Failed(_) => true,
            Phase::Terminated { .. } => true,
            _ => false,
        }
    }

    /// Takes one input: moves to the next phase and returns what the host
    /// application is to do.
    pub fn handle(&mut self, input: Input) -> (action: Action)
        ensures
            final(self).spec_phase() == spec_step(old(self).spec_phase(), input).0,
            action@ == spec_step(old(self).spec_phase(), input).1,
    {
        let (next, action) = step(self.phase, input);
        self.phase = next;
        action
    }
}

} // verus!
