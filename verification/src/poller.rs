//! The poller's state machine: one long-lived session carried across
//! fixed-period ticks, re-authenticated on demand, with failures
//! classified as recoverable session loss or fatal.
//!
//! The loop that sleeps and performs requests lives with the caller:
//! each tick it asks [`tick_action`] what to do, performs the action,
//! and hands the outcome back to [`poller_step`], which decides the
//! next state and the effect.  Both are pure, so every transition of
//! the table is verified.

use vstd::prelude::*;

use crate::client::AuthenticatedSessionError;
use crate::model::MachineStatus;
use crate::session::AuthenticatedSession;

verus! {

/// The poller's state between ticks: it owns at most one live
/// session, and discards it wholesale on invalidation.
#[derive(Debug, Clone, PartialEq, Eq)]
pub enum PollerState {
    NoSession,
    HaveSession(AuthenticatedSession),
}

/// What a tick must do in a given state.
#[derive(Debug, Clone, Copy, PartialEq, Eq, Structural)]
pub enum TickAction {
    /// No live session: authenticate first.
    Authenticate,
    /// A session is live: fetch the machine statuses with it.
    FetchStatuses,
}

/// What the tick's action came back with.
#[derive(Debug, Clone, PartialEq, Eq)]
pub enum TickEvent {
    /// Authentication succeeded with this session.
    Authenticated(AuthenticatedSession),
    /// Authentication failed hard (transport or extraction failure).
    AuthenticationFailed,
    /// The status fetch succeeded with these statuses.
    StatusesFetched(Vec<(String, MachineStatus)>),
    /// The status fetch found the session no longer authenticated:
    /// the one recoverable failure.
    SessionInvalidated,
    /// The status fetch failed for any other reason.
    FetchFailed,
}

/// What the caller must do after a step.
#[derive(Debug, Clone, PartialEq, Eq)]
pub enum TickEffect {
    /// Nothing to emit; wait for the next tick.
    Continue,
    /// Hand these statuses to the metrics collaborators.
    EmitStatuses(Vec<(String, MachineStatus)>),
    /// Unrecoverable: the loop terminates.
    Fatal,
}

/// Which events can answer which state's action.
pub open spec fn event_answers_state(state: PollerState, event: TickEvent) -> bool {
    match state {
        PollerState::NoSession => event is Authenticated || event is AuthenticationFailed,
        PollerState::HaveSession(_) => event is StatusesFetched || event is SessionInvalidated
            || event is FetchFailed,
    }
}

/// The action a tick takes: authenticate without a session, fetch
/// with one.
pub fn tick_action(state: &PollerState) -> (r: TickAction)
    ensures
        r == (match state {
            PollerState::NoSession => TickAction::Authenticate,
            PollerState::HaveSession(_) => TickAction::FetchStatuses,
        }),
{
    match state {
        PollerState::NoSession => TickAction::Authenticate,
        PollerState::HaveSession(_) => TickAction::FetchStatuses,
    }
}

/// One transition of the poller's table: a fresh authentication is
/// kept; a hard authentication failure is fatal; fetched statuses are
/// emitted and the same session kept; an invalidated session is
/// dropped, recovering on the next tick; any other fetch failure is
/// fatal.
pub fn poller_step(state: PollerState, event: TickEvent) -> (r: (PollerState, TickEffect))
    requires
        event_answers_state(state, event),
    ensures
        (match (state, event) {
            (PollerState::NoSession, TickEvent::Authenticated(session)) => r == (
                PollerState::HaveSession(session),
                TickEffect::Continue,
            ),
            (PollerState::NoSession, TickEvent::AuthenticationFailed) => r == (
                PollerState::NoSession,
                TickEffect::Fatal,
            ),
            (PollerState::HaveSession(session), TickEvent::StatusesFetched(statuses)) => r == (
                PollerState::HaveSession(session),
                TickEffect::EmitStatuses(statuses),
            ),
            (PollerState::HaveSession(_), TickEvent::SessionInvalidated) => r == (
                PollerState::NoSession,
                TickEffect::Continue,
            ),
            (PollerState::HaveSession(session), TickEvent::FetchFailed) => r == (
                PollerState::HaveSession(session),
                TickEffect::Fatal,
            ),
            _ => false,
        }),
{
    match (state, event) {
        (PollerState::NoSession, TickEvent::Authenticated(session)) => (
            PollerState::HaveSession(session),
            TickEffect::Continue,
        ),
        (PollerState::NoSession, _) => (PollerState::NoSession, TickEffect::Fatal),
        (PollerState::HaveSession(session), TickEvent::StatusesFetched(statuses)) => (
            PollerState::HaveSession(session),
            TickEffect::EmitStatuses(statuses),
        ),
        (PollerState::HaveSession(_), TickEvent::SessionInvalidated) => (
            PollerState::NoSession,
            TickEffect::Continue,
        ),
        (PollerState::HaveSession(session), _) => (
            PollerState::HaveSession(session),
            TickEffect::Fatal,
        ),
    }
}

/// Classifies a status poll's result into the event the poller's
/// table consumes: only a bad session — the explicitly recoverable
/// condition — leads back to `NoSession`; every other error is fatal.
pub fn classify_fetch_result(
    result: Result<Vec<(String, MachineStatus)>, AuthenticatedSessionError>,
) -> (r: TickEvent)
    ensures
        (match result {
            Ok(statuses) => r == TickEvent::StatusesFetched(statuses),
            Err(AuthenticatedSessionError::BadSession) => r == TickEvent::SessionInvalidated,
            Err(AuthenticatedSessionError::Other(_)) => r == TickEvent::FetchFailed,
        }),
{
    match result {
        Ok(statuses) => TickEvent::StatusesFetched(statuses),
        Err(AuthenticatedSessionError::BadSession) => TickEvent::SessionInvalidated,
        Err(AuthenticatedSessionError::Other(_)) => TickEvent::FetchFailed,
    }
}

} // verus!
