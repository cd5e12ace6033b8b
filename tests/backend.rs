use bftoc::backend::BACKEND_COMPILER;
use bftoc::{CompilationOutcome, InvokerAction, InvokerEvent, InvokerState, Program};

#[test]
fn zero_exit_succeeds() {
    assert!(CompilationOutcome::from_exit_code(Some(0)).succeeded);
}

#[test]
fn nonzero_exit_fails() {
    assert!(!CompilationOutcome::from_exit_code(Some(1)).succeeded);
    assert!(!CompilationOutcome::from_exit_code(Some(-1)).succeeded);
    assert!(!CompilationOutcome::from_exit_code(None).succeeded);
}

#[test]
fn arguments_without_extra_flag() {
    let mut p = Program::new();
    p.output = String::from("a.out");
    assert_eq!(p.compiler_arguments(), vec!["-o", "a.out", "-x", "c", "-"]);
    assert_eq!(BACKEND_COMPILER, "gcc");
}

#[test]
fn arguments_with_extra_flag() {
    let mut p = Program::new();
    p.output = String::from("bin");
    p.compiler_flag = Some(String::from("-O3"));
    assert_eq!(p.compiler_arguments(), vec!["-o", "bin", "-x", "c", "-O3", "-"]);
}

fn run(events: &[InvokerEvent]) -> (InvokerState, Vec<InvokerAction>) {
    let mut state = InvokerState::NotStarted;
    let mut actions = Vec::new();
    for e in events {
        actions.push(state.next_action());
        state = state.advance(*e);
    }
    actions.push(state.next_action());
    (state, actions)
}

#[test]
fn lifecycle_writes_then_closes_then_waits() {
    let (state, actions) = run(&[
        InvokerEvent::Spawned,
        InvokerEvent::InputWritten,
        InvokerEvent::InputClosed,
        InvokerEvent::Exited(Some(0)),
    ]);
    assert_eq!(
        actions,
        vec![
            InvokerAction::Spawn,
            InvokerAction::WriteInput,
            InvokerAction::CloseInput,
            InvokerAction::Wait,
            InvokerAction::Stop
        ]
    );
    assert_eq!(state, InvokerState::Finished(CompilationOutcome { succeeded: true }));
}

#[test]
fn lifecycle_reports_failed_compile() {
    let (state, _) = run(&[
        InvokerEvent::Spawned,
        InvokerEvent::InputWritten,
        InvokerEvent::InputClosed,
        InvokerEvent::Exited(Some(1)),
    ]);
    assert_eq!(state, InvokerState::Finished(CompilationOutcome { succeeded: false }));
}

#[test]
fn lifecycle_spawn_failure_is_terminal() {
    let (state, actions) = run(&[InvokerEvent::SpawnRefused, InvokerEvent::Spawned]);
    assert_eq!(state, InvokerState::SpawnFailed);
    assert_eq!(actions.last(), Some(&InvokerAction::Stop));
}

#[test]
fn lifecycle_ignores_out_of_order_events() {
    let s = InvokerState::Spawned;
    assert_eq!(s.advance(InvokerEvent::InputClosed), InvokerState::Spawned);
    assert_eq!(s.advance(InvokerEvent::Exited(Some(0))), InvokerState::Spawned);
    let w = InvokerState::InputWritten;
    assert_eq!(w.advance(InvokerEvent::Exited(Some(0))), InvokerState::InputWritten);
}
