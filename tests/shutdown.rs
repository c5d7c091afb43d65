use jstern::shutdown::{shutdown_step, ShutdownAction, ShutdownEvent, ShutdownState};

#[test]
fn interrupt_kills_then_joins_then_exits() {
    let (s, a) = shutdown_step(ShutdownState::Running, ShutdownEvent::Interrupt);
    assert_eq!((s, a), (ShutdownState::CancelRequested, ShutdownAction::KillProcess));
    let (s, a) = shutdown_step(s, ShutdownEvent::ProcessKilled);
    assert_eq!((s, a), (ShutdownState::Terminating, ShutdownAction::JoinReader));
    let (s, a) = shutdown_step(s, ShutdownEvent::ReaderJoined);
    assert_eq!((s, a), (ShutdownState::Joined, ShutdownAction::Exit));
}

#[test]
fn second_interrupt_changes_nothing() {
    assert_eq!(
        shutdown_step(ShutdownState::CancelRequested, ShutdownEvent::Interrupt),
        (ShutdownState::CancelRequested, ShutdownAction::Wait)
    );
    assert_eq!(
        shutdown_step(ShutdownState::Joined, ShutdownEvent::Interrupt),
        (ShutdownState::Joined, ShutdownAction::Wait)
    );
}

#[test]
fn join_never_comes_before_kill() {
    assert_eq!(
        shutdown_step(ShutdownState::Running, ShutdownEvent::ReaderJoined),
        (ShutdownState::Running, ShutdownAction::Wait)
    );
    assert_eq!(
        shutdown_step(ShutdownState::Running, ShutdownEvent::ProcessKilled),
        (ShutdownState::Running, ShutdownAction::Wait)
    );
}
