use vstd::prelude::*;

verus! {

/// The external compiler that turns a translation unit into a native binary.
pub const BACKEND_COMPILER: &'static str = "gcc";

/// The arguments handed to the backend compiler: write the executable to
/// `output`, read C source from standard input, and forward the extra flag
/// as one argument only when there is one.
pub open spec fn backend_arguments(output: Seq<char>, flag: Option<Seq<char>>) -> Seq<Seq<char>> {
    let extra = match flag {
        Some(f) => seq![f],
        None => Seq::empty(),
    };
    seq![seq!['-', 'o'], output, seq!['-', 'x'], seq!['c']] + extra + seq![seq!['-']]
}

/// How a run of the backend compiler ended.
#[derive(Clone, Copy, Debug, PartialEq, Eq, Structural)]
pub struct CompilationOutcome {
    pub succeeded: bool,
}

impl CompilationOutcome {
    /// Reads the backend's exit code (none when it was stopped by a signal):
    /// only a zero exit is a success, whatever the translation unit held.
    pub fn from_exit_code(code: Option<i32>) -> (r: CompilationOutcome)
        ensures
            r.succeeded == (code == Some(0i32)),
    {
        let succeeded = match code {
            Some(c) => c == 0,
            None => false,
        };
        CompilationOutcome { succeeded }
    }
}

/// Where a run of the backend compiler stands. Every transition goes one way.
#[derive(Clone, Copy, Debug, PartialEq, Eq, Structural)]
pub enum InvokerState {
    NotStarted,
    Spawned,
    InputWritten,
    InputClosed,
    Finished(CompilationOutcome),
    SpawnFailed,
}

/// What the caller reports after doing the work that was asked of it.
#[derive(Clone, Copy, Debug, PartialEq, Eq, Structural)]
pub enum InvokerEvent {
    Spawned,
    SpawnRefused,
    InputWritten,
    InputClosed,
    Exited(Option<i32>),
}

/// The work the caller must do next.
#[derive(Clone, Copy, Debug, PartialEq, Eq, Structural)]
pub enum InvokerAction {
    /// Start the backend with its standard input piped.
    Spawn,
    /// Write the whole translation unit to the backend's input.
    WriteInput,
    /// Close the backend's input, signalling its end.
    CloseInput,
    /// Wait for the backend to exit.
    Wait,
    /// Nothing is left to do.
    Stop,
}

pub open spec fn action_spec(s: InvokerState) -> InvokerAction {
    match s {
        InvokerState::NotStarted => InvokerAction::Spawn,
        InvokerState::Spawned => InvokerAction::WriteInput,
        InvokerState::InputWritten => InvokerAction::CloseInput,
        InvokerState::InputClosed => InvokerAction::Wait,
        _ => InvokerAction::Stop,
    }
}

/// The state after an event; an event that does not answer the pending
/// action leaves the state as it is.
pub open spec fn advance_spec(s: InvokerState, e: InvokerEvent) -> InvokerState {
    match (s, e) {
        (InvokerState::NotStarted, InvokerEvent::Spawned) => InvokerState::Spawned,
        (InvokerState::NotStarted, InvokerEvent::SpawnRefused) => InvokerState::SpawnFailed,
        (InvokerState::Spawned, InvokerEvent::InputWritten) => InvokerState::InputWritten,
        (InvokerState::InputWritten, InvokerEvent::InputClosed) => InvokerState::InputClosed,
        (InvokerState::InputClosed, InvokerEvent::Exited(code)) => InvokerState::Finished(
            CompilationOutcome { succeeded: code == Some(0i32) },
        ),
        _ => s,
    }
}

impl InvokerState {
    /// The work that the state asks for next.
    pub fn next_action(&self) -> (r: InvokerAction)
        ensures
            r == action_spec(*self),
    {
        match self {
            InvokerState::NotStarted => InvokerAction::Spawn,
            InvokerState::Spawned => InvokerAction::WriteInput,
            InvokerState::InputWritten => InvokerAction::CloseInput,
            InvokerState::InputClosed => InvokerAction::Wait,
            _ => InvokerAction::Stop,
        }
    }

    /// Moves the run on by the event that the caller reports.
    pub fn advance(&self, e: InvokerEvent) -> (r: InvokerState)
        ensures
            r == advance_spec(*self, e),
    {
        match (*self, e) {
            (InvokerState::NotStarted, InvokerEvent::Spawned) => InvokerState::Spawned,
            (InvokerState::NotStarted, InvokerEvent::SpawnRefused) => InvokerState::SpawnFailed,
            (InvokerState::Spawned, InvokerEvent::InputWritten) => InvokerState::InputWritten,
            (InvokerState::InputWritten, InvokerEvent::InputClosed) => InvokerState::InputClosed,
            (InvokerState::InputClosed, InvokerEvent::Exited(code)) => InvokerState::Finished(
                CompilationOutcome::from_exit_code(code),
            ),
            _ => *self,
        }
    }
}

/// The backend's input is closed only once the whole unit was written, and it
/// is waited for only once its input was closed: a run reaches each of these
/// states from the one before it alone, and its outcome is the exit code's.
pub proof fn lemma_write_close_wait_order(s: InvokerState, e: InvokerEvent)
    ensures
        advance_spec(s, e) == InvokerState::InputWritten ==> s == InvokerState::Spawned
            || s == InvokerState::InputWritten,
        advance_spec(s, e) == InvokerState::InputClosed ==> s == InvokerState::InputWritten
            || s == InvokerState::InputClosed,
        advance_spec(s, e) is Finished && !(s is Finished) ==> s == InvokerState::InputClosed
            && e is Exited,
        s == InvokerState::InputClosed ==> (e matches InvokerEvent::Exited(code)
            ==> advance_spec(s, e) == InvokerState::Finished(
            CompilationOutcome { succeeded: code == Some(0i32) },
        )),
        s is Finished || s is SpawnFailed ==> advance_spec(s, e) == s,
{
}

} // verus!
