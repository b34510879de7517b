//! The device-verification watcher logic: which action to take on each
//! observed state of the verification request and of the SAS flow.  The
//! caller runs the subscription loops and performs the protocol calls; every
//! decision is taken here.

use vstd::prelude::*;
use crate::types::SasOverlayState;

verus! {

/// Externally observed phase of a verification request.
#[derive(Debug, Clone, Copy, PartialEq, Eq, Structural)]
pub enum RequestPhase {
    /// Freshly created, not yet acknowledged.
    Created,
    /// Sent, waiting for the other device.
    Requested,
    /// The other device accepted; key exchange can start.
    Ready,
    /// The other side already started a verification flow itself.
    Transitioned,
    Done,
    Cancelled,
}

/// What the watcher does next with a verification request.
#[derive(Debug, Clone, Copy, PartialEq, Eq, Structural)]
pub enum WatchStep {
    /// Start the SAS flow now.
    StartSas,
    /// Adopt the flow the other side already started.
    AcceptTransitioned,
    /// Report the flow as cancelled and stop.
    ReportCancelled,
    /// Keep listening for the next state change.
    Listen,
    /// Stop listening; nothing further will come.
    Stop,
}

/// The decision taken on the request's current state *before* subscribing to
/// its change stream.  The peer may have reached `Ready` already; checking
/// first means that transition is never missed.
pub fn initial_watch_step(phase: RequestPhase) -> (r: WatchStep)
    ensures
        r == spec_initial_watch_step(phase),
        phase is Ready ==> r is StartSas,
        (phase is Done || phase is Cancelled) ==> r is ReportCancelled,
        (phase is Created || phase is Requested || phase is Transitioned) ==> r is Listen,
{
    match phase {
        RequestPhase::Ready => WatchStep::StartSas,
        RequestPhase::Done | RequestPhase::Cancelled => WatchStep::ReportCancelled,
        _ => WatchStep::Listen,
    }
}

/// The decision taken on each state change seen on the stream.
pub fn stream_watch_step(phase: RequestPhase) -> (r: WatchStep)
    ensures
        r == spec_stream_watch_step(phase),
        phase is Ready ==> r is StartSas,
        phase is Transitioned ==> r is AcceptTransitioned,
        phase is Cancelled ==> r is ReportCancelled,
        phase is Done ==> r is Stop,
        (phase is Created || phase is Requested) ==> r is Listen,
{
    match phase {
        RequestPhase::Ready => WatchStep::StartSas,
        RequestPhase::Transitioned => WatchStep::AcceptTransitioned,
        RequestPhase::Cancelled => WatchStep::ReportCancelled,
        RequestPhase::Done => WatchStep::Stop,
        _ => WatchStep::Listen,
    }
}

/// While accepting an incoming request, the accept loop waits for `Ready`
/// before starting SAS; a request that finishes first is a failure.
pub fn accept_wait_step(phase: RequestPhase) -> (r: WatchStep)
    ensures
        phase is Ready ==> r is StartSas,
        (phase is Done || phase is Cancelled) ==> r is ReportCancelled,
        (phase is Created || phase is Requested || phase is Transitioned) ==> r is Listen,
{
    match phase {
        RequestPhase::Ready => WatchStep::StartSas,
        RequestPhase::Done | RequestPhase::Cancelled => WatchStep::ReportCancelled,
        _ => WatchStep::Listen,
    }
}

/// Externally observed phase of a running SAS flow.
#[derive(Debug, Clone, Copy, PartialEq, Eq, Structural)]
pub enum SasPhase {
    Started,
    Accepted,
    /// Keys exchanged; the emoji set may be available.
    KeysExchanged,
    Confirmed,
    Done,
    Cancelled,
}

/// What the SAS watcher does on each observed phase.
#[derive(Debug, Clone, Copy, PartialEq, Eq, Structural)]
pub enum SasWatchStep {
    /// Push the emoji set to the coordinator.
    EmitEmojis,
    /// Report success and stop.
    EmitDone,
    /// Report cancellation and stop.
    EmitCancelled,
    /// Keep listening.
    Listen,
}

/// The decision taken on the SAS flow's state *before* subscribing to its
/// change stream: an emoji set that became presentable between starting the
/// flow and subscribing is emitted at once, not missed.
pub fn initial_sas_watch_step(presentable: bool) -> (r: SasWatchStep)
    ensures
        presentable ==> r is EmitEmojis,
        !presentable ==> r is Listen,
{
    if presentable {
        SasWatchStep::EmitEmojis
    } else {
        SasWatchStep::Listen
    }
}

pub fn sas_watch_step(phase: SasPhase) -> (r: SasWatchStep)
    ensures
        phase is KeysExchanged ==> r is EmitEmojis,
        phase is Done ==> r is EmitDone,
        phase is Cancelled ==> r is EmitCancelled,
        (phase is Started || phase is Accepted || phase is Confirmed) ==> r is Listen,
{
    match phase {
        SasPhase::KeysExchanged => SasWatchStep::EmitEmojis,
        SasPhase::Done => SasWatchStep::EmitDone,
        SasPhase::Cancelled => SasWatchStep::EmitCancelled,
        _ => SasWatchStep::Listen,
    }
}

/// The watcher observes `Ready` whether the peer reached it before or after
/// the subscription: the pre-subscribe check and the stream handler take the
/// same step on `Ready`, so a transition that happened between request and
/// subscribe still starts SAS.
pub proof fn lemma_ready_never_missed()
    ensures
        spec_initial_watch_step(RequestPhase::Ready) is StartSas,
        spec_stream_watch_step(RequestPhase::Ready) is StartSas,
{
}

/// The initial check as a function of the phase.
pub open spec fn spec_initial_watch_step(phase: RequestPhase) -> WatchStep {
    match phase {
        RequestPhase::Ready => WatchStep::StartSas,
        RequestPhase::Done | RequestPhase::Cancelled => WatchStep::ReportCancelled,
        _ => WatchStep::Listen,
    }
}

/// The stream handler as a function of the phase.
pub open spec fn spec_stream_watch_step(phase: RequestPhase) -> WatchStep {
    match phase {
        RequestPhase::Ready => WatchStep::StartSas,
        RequestPhase::Transitioned => WatchStep::AcceptTransitioned,
        RequestPhase::Cancelled => WatchStep::ReportCancelled,
        RequestPhase::Done => WatchStep::Stop,
        _ => WatchStep::Listen,
    }
}

/// No input except dismissal is accepted once the overlay reached `Done` or
/// `Failed`.
pub open spec fn sas_terminal(s: SasOverlayState) -> bool {
    s is Done || s is Failed
}

} // verus!
