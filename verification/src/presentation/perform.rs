//! Performing driver actions on a backend, a content source and a session control.
//!
//! Each function performs the actions that concern its object and replies to them; it
//! leaves all others to the caller.
use vstd::prelude::*;

use super::driver::{DriverAction, DriverReply};
use super::source::{FifoContentSource, FrameContentSource, SourceCall, SourceOwned};
use super::transition::{TransitionAction, TransitionReply};
use crate::backend::{BackendKind, BackendVariant, FifoBackend, FrameSwapBackend};
use crate::error::Error;
use crate::session::{ControlOp, ControlState, SessionControl, SessionExit};

verus! {

/// Clearing the device queue of `before` may lead to `after` with result `r`.
pub open spec fn resets_buffer<F: FifoBackend, S: FrameSwapBackend>(
    before: BackendVariant<F, S>,
    after: BackendVariant<F, S>,
    r: Result<(), Error>,
) -> bool {
    match (before, after) {
        (BackendVariant::Fifo(b), BackendVariant::Fifo(a)) => b.resets_buffer(a.state(), r),
        (BackendVariant::FrameSwap(b), BackendVariant::FrameSwap(a)) => a == b && r is Ok,
        _ => false,
    }
}

/// What performing a transition action on a backend does and replies.
pub open spec fn transition_effect<F: FifoBackend, S: FrameSwapBackend>(
    action: TransitionAction,
    before: BackendVariant<F, S>,
    after: BackendVariant<F, S>,
    reply: Option<TransitionReply>,
) -> bool {
    match action {
        TransitionAction::SetShutter(open) => exists|r: Result<(), Error>| #[trigger]
            before.sets_shutter(open, after, r) && reply == Some(TransitionReply::Command(r is Ok)),
        TransitionAction::ResetDeviceBuffer => exists|r: Result<(), Error>| #[trigger]
            resets_buffer(before, after, r) && reply == Some(TransitionReply::Command(r is Ok)),
        TransitionAction::DisconnectBackend => exists|r: Result<(), Error>| #[trigger]
            before.disconnects(after, r) && reply == Some(TransitionReply::Done),
        _ => after == before && reply is None,
    }
}

/// Perform a transition action that concerns the backend.
pub fn perform_transition<F: FifoBackend, S: FrameSwapBackend>(
    action: TransitionAction,
    backend: &mut BackendKind<F, S>,
) -> (reply: Option<TransitionReply>)
    ensures
        transition_effect(action, old(backend)@, final(backend)@, reply),
{
    match action {
        TransitionAction::SetShutter(open) => {
            let r = backend.set_shutter(open);
            assert(old(backend)@.sets_shutter(open, backend@, r));
            Some(TransitionReply::Command(r.is_ok()))
        },
        TransitionAction::ResetDeviceBuffer => {
            let r = backend.reset_device_buffer();
            assert(resets_buffer(old(backend)@, backend@, r));
            Some(TransitionReply::Command(r.is_ok()))
        },
        TransitionAction::DisconnectBackend => {
            let r = backend.disconnect();
            assert(old(backend)@.disconnects(backend@, r));
            Some(TransitionReply::Done)
        },
        _ => None,
    }
}

/// The call that a transition action makes to the content source.
pub open spec fn source_call(action: TransitionAction) -> Option<SourceCall> {
    match action {
        TransitionAction::DiscardCached => Some(SourceCall::DiscardCached),
        TransitionAction::SourceDisarm => Some(SourceCall::OnDisarm),
        TransitionAction::ResetOutputFilter(reason) => Some(SourceCall::ResetOutputFilter(reason)),
        TransitionAction::ArmStartupBlank(pps) => Some(SourceCall::ArmStartupBlank(pps)),
        _ => None,
    }
}

/// Perform a transition action that concerns the content source. Returns whether it did.
pub fn transition_source<P: FifoContentSource, R: FrameContentSource<Frame = P::Frame, Info = P::Info>>(
    action: TransitionAction,
    source: &mut SourceOwned<P, R>,
) -> (performed: bool)
    ensures
        performed <==> source_call(action) is Some,
        match source_call(action) {
            Some(call) => old(source).does(call, *final(source)),
            None => *final(source) == *old(source),
        },
{
    match action {
        TransitionAction::DiscardCached => source.discard_cached(),
        TransitionAction::SourceDisarm => source.on_disarm(),
        TransitionAction::ResetOutputFilter(reason) => source.reset_output_filter(reason),
        TransitionAction::ArmStartupBlank(pps) => source.arm_startup_blank(pps),
        _ => {
            return false;
        },
    }
    true
}

/// Perform a driver action that concerns the content source, other than those that hand it
/// a frame, a device description or a capacity.
pub fn perform_on_source<P: FifoContentSource, R: FrameContentSource<Frame = P::Frame, Info = P::Info>>(
    action: DriverAction,
    source: &mut SourceOwned<P, R>,
) -> (reply: Option<DriverReply>)
    ensures
        match action {
            DriverAction::Transition(inner) => match source_call(inner) {
                Some(call) => old(source).does(call, *final(source)) && reply == Some(
                    DriverReply::Transition(TransitionReply::Done),
                ),
                None => *final(source) == *old(source) && reply is None,
            },
            DriverAction::ReadEnded => *final(source) == *old(source) && reply is Some
                && reply->Some_0 is Flag && match *old(source) {
                SourceOwned::Fifo(s) => s.reports_ended(reply->Some_0->Flag_0),
                SourceOwned::Frame(_) => !reply->Some_0->Flag_0,
            },
            DriverAction::TakeStopError => reply is Some && reply->Some_0 is Failure && match (
                *old(source),
                *final(source),
            ) {
                (SourceOwned::Fifo(b), SourceOwned::Fifo(a)) => b.does(
                    SourceCall::TakeStopError(reply->Some_0->Failure_0),
                    a.state(),
                ),
                (SourceOwned::Frame(b), SourceOwned::Frame(a)) => a == b
                    && reply->Some_0->Failure_0 is None,
                _ => false,
            },
            _ => *final(source) == *old(source) && reply is None,
        },
{
    match action {
        DriverAction::Transition(inner) => if transition_source(inner, source) {
            Some(DriverReply::Transition(TransitionReply::Done))
        } else {
            None
        },
        DriverAction::ReadEnded => Some(DriverReply::Flag(source.is_ended())),
        DriverAction::TakeStopError => Some(DriverReply::Failure(source.take_stop_error())),
        _ => None,
    }
}

/// Perform a driver action that concerns the backend.
pub fn perform_on_backend<F: FifoBackend, S: FrameSwapBackend>(
    action: DriverAction,
    backend: &mut BackendKind<F, S>,
) -> (reply: Option<DriverReply>)
    ensures
        match action {
            DriverAction::Transition(inner) => exists|r: Option<TransitionReply>| #[trigger]
                transition_effect(inner, old(backend)@, final(backend)@, r) && reply == match r {
                    Some(r) => Some(DriverReply::Transition(r)),
                    None => None,
                },
            DriverAction::SetShutter(open) => exists|r: Result<(), Error>| #[trigger]
                old(backend)@.sets_shutter(open, final(backend)@, r) && reply == Some(
                    DriverReply::Command(r is Ok),
                ),
            DriverAction::ReadConnected => final(backend)@ == old(backend)@ && exists|r: bool|
                #[trigger]
                old(backend)@.reports_connected(r) && reply == Some(DriverReply::Flag(r)),
            _ => final(backend)@ == old(backend)@ && reply is None,
        },
{
    match action {
        DriverAction::Transition(inner) => {
            let r = perform_transition(inner, backend);
            assert(transition_effect(inner, old(backend)@, backend@, r));
            match r {
                Some(r) => Some(DriverReply::Transition(r)),
                None => None,
            }
        },
        DriverAction::SetShutter(open) => {
            let r = backend.set_shutter(open);
            assert(old(backend)@.sets_shutter(open, backend@, r));
            Some(DriverReply::Command(r.is_ok()))
        },
        DriverAction::ReadConnected => {
            let r: bool = backend.is_connected();
            assert(old(backend)@.reports_connected(r));
            Some(DriverReply::Flag(r))
        },
        _ => None,
    }
}

/// What a look at the session control replies when it sees the state `seen`.
pub open spec fn look_reply(action: DriverAction, seen: ControlState) -> Option<DriverReply> {
    match action {
        DriverAction::ReadStopRequested => Some(DriverReply::Flag(seen.stop_requested)),
        DriverAction::ReadPps => Some(DriverReply::Rate(seen.rate.pps)),
        DriverAction::ReadArmed => Some(DriverReply::Flag(seen.desired.armed())),
        DriverAction::Transition(TransitionAction::ReadDesired(_)) => Some(
            DriverReply::Transition(TransitionReply::Desired(seen.desired)),
        ),
        _ => None,
    }
}

/// Whether an action is a look at the session control.
pub open spec fn is_look(action: DriverAction) -> bool {
    action is ReadStopRequested || action is ReadPps || action is ReadArmed || (
    action is Transition && action->Transition_0 is ReadDesired)
}

/// Perform a driver action that concerns the session control. A look reads the control; a
/// range update leaves the new range behind if the rate found lies in it, and otherwise
/// nothing is changed and the reply says so.
pub fn perform_on_control(action: DriverAction, control: &SessionControl) -> (reply: Option<
    DriverReply,
>)
    ensures
        is_look(action) ==> exists|seen: ControlState| #[trigger]
            control.reads(seen) && control.started().leads_to(seen) && reply == look_reply(
                action,
                seen,
            ),
        match action {
            DriverAction::UpdatePpsBounds { min, max } => exists|seen: ControlState| #[trigger]
                control.exchanges(seen, seen.after(ControlOp::SetBounds(min, max)))
                    && control.started().leads_to(seen) && reply == Some(
                    DriverReply::Flag(min <= seen.rate.pps <= max),
                ),
            _ => is_look(action) || reply is None,
        },
{
    match action {
        DriverAction::ReadStopRequested => Some(DriverReply::Flag(control.is_stop_requested())),
        DriverAction::ReadPps => Some(DriverReply::Rate(control.pps())),
        DriverAction::ReadArmed => Some(DriverReply::Flag(control.is_armed())),
        DriverAction::Transition(TransitionAction::ReadDesired(_)) => {
            let desired = control.desired_state();
            Some(DriverReply::Transition(TransitionReply::Desired(desired)))
        },
        DriverAction::UpdatePpsBounds { min, max } => {
            let r = control.update_pps_bounds(min, max);
            Some(DriverReply::Flag(r.is_ok()))
        },
        _ => None,
    }
}

/// Refuse a new backend of another runtime kind than the session was started with.
pub fn validate_candidate<F: FifoBackend, S: FrameSwapBackend>(
    expected_frame_swap: bool,
    candidate: &BackendKind<F, S>,
) -> (r: Result<(), SessionExit>)
    ensures
        r is Ok <==> (candidate@ is FrameSwap) == expected_frame_swap,
        r is Err ==> r->Err_0 == SessionExit::Disconnected,
{
    if candidate.is_frame_swap() != expected_frame_swap {
        Err(SessionExit::Disconnected)
    } else {
        Ok(())
    }
}

} // verus!
