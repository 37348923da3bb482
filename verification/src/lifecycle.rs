//! Idempotent start/stop of the listening server.
//!
//! The listener's running flag and its handle are modelled as one
//! exclusively owned state value, so "running" is never observable
//! without a valid handle. A bound listener is identified by a plain
//! handle number; the embedding application maps that number to the real
//! listener it keeps beside this state.

use vstd::prelude::*;

verus! {

/// Phase of the listening server: stopped, in the middle of a start
/// attempt (start accepted, listener not yet bound), or running with the
/// handle of the one bound listener.
#[derive(Clone, Copy, PartialEq, Eq, Structural, Debug)]
pub enum ServerPhase {
    Stopped,
    Starting,
    Running(u64),
}

/// Why a start attempt was refused.
#[derive(Clone, Copy, PartialEq, Eq, Structural, Debug)]
pub enum StartError {
    /// A start was already accepted and not undone by a stop.
    AlreadyRunning,
    /// Binding the listening socket failed; the start attempt aborts and
    /// the state returns to stopped.
    BindFailure,
}

/// Why a stop attempt was refused.
#[derive(Clone, Copy, PartialEq, Eq, Structural, Debug)]
pub enum StopError {
    /// No bound listener exists to stop.
    NotRunning,
}

/// Lifecycle state of the inference server. At most one listener exists
/// per state value, and only in the `Running` phase.
pub struct InferenceServerState {
    pub phase: ServerPhase,
}

impl InferenceServerState {
    /// A listener handle is present.
    pub open spec fn is_running(self) -> bool {
        self.phase matches ServerPhase::Running(_)
    }

    pub open spec fn is_stopped(self) -> bool {
        self.phase is Stopped
    }
}

impl Default for InferenceServerState {
    /// A fresh server state is stopped, with no listener handle.
    fn default() -> (s: Self)
        ensures
            s.phase == ServerPhase::Stopped,
    {
        InferenceServerState { phase: ServerPhase::Stopped }
    }
}

/// Accept or refuse a start request. A second start without an
/// intervening stop fails with `AlreadyRunning` and leaves the state —
/// and so the original listener — untouched. On acceptance the state
/// moves to `Starting`; the caller then binds the socket and reports the
/// outcome to `record_bind`.
pub fn start_server(state: &mut InferenceServerState) -> (r: Result<(), StartError>)
    ensures
        old(state).phase is Stopped ==> r is Ok && final(state).phase is Starting,
        !(old(state).phase is Stopped) ==> r == Err::<(), StartError>(StartError::AlreadyRunning)
            && *final(state) == *old(state),
{
    match state.phase {
        ServerPhase::Stopped => {
            state.phase = ServerPhase::Starting;
            Ok(())
        },
        _ => Err(StartError::AlreadyRunning),
    }
}

/// Record the outcome of the bind that a `start_server` acceptance set
/// in motion. A successful bind hands over the listener's handle and the
/// server is running; a bind failure aborts the start attempt, and the
/// state returns to stopped rather than staying flagged without a
/// listener.
pub fn record_bind(state: &mut InferenceServerState, bound: Option<u64>) -> (r: Result<
    (),
    StartError,
>)
    requires
        old(state).phase is Starting,
    ensures
        bound matches Some(h) ==> r is Ok && final(state).phase == ServerPhase::Running(h),
        bound is None ==> r == Err::<(), StartError>(StartError::BindFailure)
            && final(state).phase is Stopped,
{
    match bound {
        Some(h) => {
            state.phase = ServerPhase::Running(h);
            Ok(())
        },
        None => {
            state.phase = ServerPhase::Stopped;
            Err(StartError::BindFailure)
        },
    }
}

/// Stop the server. Without a bound listener this fails with
/// `NotRunning` and changes nothing. Otherwise the one listener handle
/// is taken out of the state — so a second stop cannot take it again —
/// and returned, for the caller to drain gracefully.
pub fn stop_server(state: &mut InferenceServerState) -> (r: Result<u64, StopError>)
    ensures
        old(state).phase matches ServerPhase::Running(h) ==> r == Ok::<u64, StopError>(h)
            && final(state).phase is Stopped,
        !old(state).is_running() ==> r == Err::<u64, StopError>(StopError::NotRunning)
            && *final(state) == *old(state),
{
    match state.phase {
        ServerPhase::Running(h) => {
            state.phase = ServerPhase::Stopped;
            Ok(h)
        },
        _ => Err(StopError::NotRunning),
    }
}

} // verus!
