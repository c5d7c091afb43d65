use vstd::prelude::*;

verus! {

/// Where the shutdown of the pipeline stands.
#[derive(PartialEq, Eq, Structural, Debug, Clone, Copy)]
pub enum ShutdownState {
    /// The pipeline runs; no interrupt yet.
    Running,
    /// An interrupt came; the process is to be killed.
    CancelRequested,
    /// The process was killed; the reader is to be joined.
    Terminating,
    /// The reader has finished.
    Joined,
}

/// What the coordinator observed.
#[derive(PartialEq, Eq, Structural, Debug, Clone, Copy)]
pub enum ShutdownEvent {
    /// The interrupt handler fired the cancellation event.
    Interrupt,
    /// The kill of the process was carried out.
    ProcessKilled,
    /// The reader finished and was joined.
    ReaderJoined,
}

/// What the coordinator is to do next.
#[derive(PartialEq, Eq, Structural, Debug, Clone, Copy)]
pub enum ShutdownAction {
    /// Nothing: wait for the next event.
    Wait,
    /// Kill the process, so that its output stream closes.
    KillProcess,
    /// Wait for the reader to finish.
    JoinReader,
    /// Leave.
    Exit,
}

/// The next state and action for an event; an event that does not fit the
/// state (a second interrupt, say) changes nothing.
pub open spec fn next_step(s: ShutdownState, e: ShutdownEvent) -> (ShutdownState, ShutdownAction) {
    match (s, e) {
        (ShutdownState::Running, ShutdownEvent::Interrupt) => (
            ShutdownState::CancelRequested,
            ShutdownAction::KillProcess,
        ),
        (ShutdownState::CancelRequested, ShutdownEvent::ProcessKilled) => (
            ShutdownState::Terminating,
            ShutdownAction::JoinReader,
        ),
        (ShutdownState::Terminating, ShutdownEvent::ReaderJoined) => (
            ShutdownState::Joined,
            ShutdownAction::Exit,
        ),
        _ => (s, ShutdownAction::Wait),
    }
}

/// The next state and action of the shutdown coordinator.
pub fn shutdown_step(s: ShutdownState, e: ShutdownEvent) -> (r: (ShutdownState, ShutdownAction))
    ensures
        r == next_step(s, e),
{
    match (s, e) {
        (ShutdownState::Running, ShutdownEvent::Interrupt) => (
            ShutdownState::CancelRequested,
            ShutdownAction::KillProcess,
        ),
        (ShutdownState::CancelRequested, ShutdownEvent::ProcessKilled) => (
            ShutdownState::Terminating,
            ShutdownAction::JoinReader,
        ),
        (ShutdownState::Terminating, ShutdownEvent::ReaderJoined) => (
            ShutdownState::Joined,
            ShutdownAction::Exit,
        ),
        _ => (s, ShutdownAction::Wait),
    }
}

/// The process is killed only on the first interrupt, the reader is joined
/// only once the kill was carried out, and the coordinator leaves only after
/// the join; nothing leaves the final state.
pub proof fn lemma_shutdown_order(s: ShutdownState, e: ShutdownEvent)
    ensures
        next_step(s, e).1 == ShutdownAction::KillProcess ==> s == ShutdownState::Running && e
            == ShutdownEvent::Interrupt,
        next_step(s, e).1 == ShutdownAction::JoinReader ==> s == ShutdownState::CancelRequested
            && e == ShutdownEvent::ProcessKilled,
        next_step(s, e).1 == ShutdownAction::Exit ==> s == ShutdownState::Terminating && e
            == ShutdownEvent::ReaderJoined,
        s == ShutdownState::Joined ==> next_step(s, e) == (s, ShutdownAction::Wait),
{
}

/// An interrupt while running, then the kill, then the join, brings the
/// coordinator to its end, with a kill, a join and an exit in that order.
pub proof fn lemma_shutdown_completes()
    ensures
        ({
            let (s1, a1) = next_step(ShutdownState::Running, ShutdownEvent::Interrupt);
            let (s2, a2) = next_step(s1, ShutdownEvent::ProcessKilled);
            let (s3, a3) = next_step(s2, ShutdownEvent::ReaderJoined);
            a1 == ShutdownAction::KillProcess && a2 == ShutdownAction::JoinReader && a3
                == ShutdownAction::Exit && s3 == ShutdownState::Joined
        }),
{
}

} // verus!
