//! What the machines of the scheduler loop take and tell.
use vstd::prelude::*;

use super::driver::{
    Driver, DriverAction, DriverConfig, DriverEnd, DriverReply, DriverView,
};
use super::transition::{
    shutter_after, CheckPoint, ShutterState, ShutterTransition, TransitionAction,
    TransitionOutcome, TransitionReply, TransitionView,
};
use crate::error::Error;
use crate::session::{DesiredState, SessionExit};

verus! {

/// Law: an accepted command leaves the shutter as it was commanded; after one that was not
/// accepted nothing is known of it.
pub proof fn what_a_command_says_of_the_shutter(open: bool, accepted: bool, r: ShutterState)
    requires
        call_ensures(shutter_after, (open, accepted), r),
    ensures
        accepted && open ==> r == ShutterState::Open,
        accepted && !open ==> r == ShutterState::Closed,
        !accepted ==> r == ShutterState::Unknown,
{
}

/// Law: a look of a pass is answered by a desired state, a shutter command and the clearing of
/// the device queue by whether they were accepted, all else by an acknowledgment.
pub proof fn what_answers_an_action_of_a_pass(action: TransitionAction, reply: TransitionReply)
    ensures
        action.answered_by(reply) <==> match action {
            TransitionAction::ReadDesired(_) => reply is Desired,
            TransitionAction::SetShutter(_) => reply is Command,
            TransitionAction::ResetDeviceBuffer => reply is Command,
            TransitionAction::DiscardCached => reply is Done,
            TransitionAction::AdapterStateChange(_) => reply is Done,
            TransitionAction::SourceDisarm => reply is Done,
            TransitionAction::ResetOutputFilter(_) => reply is Done,
            TransitionAction::ArmStartupBlank(_) => reply is Done,
            TransitionAction::DisconnectBackend => reply is Done,
        },
{
}

/// Law: each action of the loop is answered by a reply of its own kind only.
pub proof fn what_answers_an_action_of_the_loop(action: DriverAction, reply: DriverReply)
    ensures
        action.answered_by(reply) <==> match action {
            DriverAction::SelectAdapter { .. } | DriverAction::TakeStopError => reply is Failure,
            DriverAction::ReadStopRequested
            | DriverAction::ReadConnected
            | DriverAction::DrainControl
            | DriverAction::ReadArmed
            | DriverAction::ReadEnded
            | DriverAction::UpdatePpsBounds { .. } => reply is Flag,
            DriverAction::ReadPps => reply is Rate,
            DriverAction::Transition(inner) => reply is Transition && match inner {
                TransitionAction::ReadDesired(_) => reply->Transition_0 is Desired,
                TransitionAction::SetShutter(_)
                | TransitionAction::ResetDeviceBuffer => reply->Transition_0 is Command,
                _ => reply->Transition_0 is Done,
            },
            DriverAction::Step { .. } => reply is Stepped,
            DriverAction::SetShutter(_) => reply is Command,
            DriverAction::FindBackend { .. } => reply is Found || reply is NotFound,
            DriverAction::ReadClock => reply is Now,
            DriverAction::MarkLoopActivity
            | DriverAction::ForwardColorDelay
            | DriverAction::SubmitPendingFrame
            | DriverAction::DrainAndBlank { .. }
            | DriverAction::SetConnectedMetric(_)
            | DriverAction::DiscardCandidate
            | DriverAction::InstallCandidate
            | DriverAction::SourceReconnected
            | DriverAction::SetFrameCapacity
            | DriverAction::AdapterReconnected
            | DriverAction::NotifyReconnected => reply is Done,
        },
{
}

/// Law: a pass begins with its first look and with what it was told of the handled state, the
/// shutter and the rate; it tells its next action and what it knows; and it goes on by a reply
/// just if that answers the action.
pub proof fn a_pass_is_as_its_view(
    handled: DesiredState,
    shutter: ShutterState,
    pps: u32,
    fresh: ShutterTransition,
    pass: &mut ShutterTransition,
    action: Option<TransitionAction>,
    told_handled: DesiredState,
    told_shutter: ShutterState,
    told_outcome: TransitionOutcome,
    reply: TransitionReply,
    accepted: bool,
)
    requires
        call_ensures(ShutterTransition::new, (handled, shutter, pps), fresh),
        call_ensures(ShutterTransition::next_action, (&*pass,), action),
        call_ensures(ShutterTransition::handled, (&*pass,), told_handled),
        call_ensures(ShutterTransition::shutter, (&*pass,), told_shutter),
        call_ensures(ShutterTransition::outcome, (&*pass,), told_outcome),
        call_ensures(ShutterTransition::complete, (pass, reply), accepted),
    ensures
        fresh@ == TransitionView::start(handled, shutter, pps),
        fresh@.pending.len() == 1,
        fresh@.pending[0] == TransitionAction::ReadDesired(CheckPoint::Entry),
        fresh@.handled == handled,
        fresh@.shutter == shutter,
        fresh@.pps == pps,
        fresh@.outcome == TransitionOutcome::Continue,
        action is Some <==> old(pass)@.pending.len() > 0,
        action matches Some(next) ==> next == old(pass)@.pending[0],
        told_handled == old(pass)@.handled,
        told_shutter == old(pass)@.shutter,
        told_outcome == old(pass)@.outcome,
        accepted <==> action is Some && action->Some_0.answered_by(reply),
        final(pass)@ == old(pass)@.next(reply),
        !accepted ==> final(pass)@ == old(pass)@,
{
}

/// Law: a run begins with the selection of the adapter for its kind of source; a driver tells
/// its next action and what it knows of the shutter; it goes on by a reply just if that answers
/// the action.
pub proof fn a_driver_is_as_its_view(
    config: DriverConfig,
    fresh: Driver,
    driver: &mut Driver,
    action: Option<DriverAction>,
    told_shutter: ShutterState,
    reply: DriverReply,
    accepted: bool,
)
    requires
        call_ensures(Driver::new, (config,), fresh),
        call_ensures(Driver::next_action, (&*driver,), action),
        call_ensures(Driver::shutter, (&*driver,), told_shutter),
        call_ensures(Driver::complete, (driver, reply), accepted),
    ensures
        fresh@ == DriverView::start(config),
        fresh@.config == config,
        fresh@.pass is None,
        fresh@.pending.len() == 1,
        fresh@.pending[0] == (DriverAction::SelectAdapter { frame_swap: config.frame_source }),
        fresh@.shutter == ShutterState::Closed,
        fresh@.handled.0 == 0,
        fresh@.end is None,
        match old(driver)@.pass {
            Some(pass) => if pass.pending.len() > 0 {
                action == Some(DriverAction::Transition(pass.pending[0]))
            } else {
                action is None
            },
            None => if old(driver)@.pending.len() > 0 {
                action == Some(old(driver)@.pending[0])
            } else {
                action is None
            },
        },
        told_shutter == old(driver)@.shutter,
        accepted ==> action is Some && action->Some_0.answered_by(reply),
        old(driver)@.pass is Some ==> (accepted <==> action is Some
            && action->Some_0.answered_by(reply)),
        old(driver)@.pass is None && !(action is Some && action->Some_0 is Transition) ==> (accepted
            <==> action is Some && action->Some_0.answered_by(reply)),
        final(driver)@ == old(driver)@.next(reply),
        !accepted ==> final(driver)@ == old(driver)@,
{
}

/// Law: a run that is not over has no result; one that is has the exit or the error that it was
/// ended with.
pub proof fn the_result_is_the_end(driver: Driver, r: Option<Result<SessionExit, Error>>)
    requires
        call_ensures(Driver::into_result, (driver,), r),
    ensures
        driver@.pass is Some || driver@.pending.len() > 0 ==> r is None,
        driver@.pass is None && driver@.pending.len() == 0 ==> match driver@.end {
            None => r is None,
            Some(DriverEnd::Session(exit)) => r == Some(Ok::<SessionExit, Error>(exit)),
            Some(DriverEnd::Failed(error)) => r == Some(Err::<SessionExit, Error>(error)),
        },
{
}

} // verus!
