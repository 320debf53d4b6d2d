//! What the actions of the scheduler loop do to the objects of a session, told call by call.
use std::time::Duration;

use vstd::prelude::*;

use super::driver::{DriverAction, DriverReply};
use super::handler::{
    command_close, handle_shutter_transition, stop_and_close_shutter, PassObjects, PassTarget,
};
use super::perform::{
    perform_on_backend, perform_on_control, perform_on_source, perform_transition,
    transition_source, validate_candidate,
};
use super::source::{
    FifoContentSource, FrameContentSource, OutputAdapter, SourceCall, SourceOwned,
};
use super::transition::{
    OutputResetReason, ShutterState, TransitionAction, TransitionOutcome, TransitionReply,
};
use super::transition_laws::Performed;
use crate::backend::{BackendKind, BackendVariant, FifoBackend, FrameSwapBackend};
use crate::error::Error;
use crate::session::{ControlOp, ControlState, DesiredState, SessionControl, SessionExit};

verus! {

/// A call on a content source of either kind.
pub open spec fn calls<P: FifoContentSource, R: FrameContentSource<Frame = P::Frame, Info = P::Info>>(
    before: SourceOwned<P, R>,
    call: SourceCall,
    after: SourceOwned<P, R>,
) -> bool {
    match (before, after) {
        (SourceOwned::Fifo(b), SourceOwned::Fifo(a)) => b.does(call, a.state()),
        (SourceOwned::Frame(b), SourceOwned::Frame(a)) => b.does(call, a.state()),
        _ => false,
    }
}

/// Law: what is asked of or told to an owned source reaches the source of either kind as it
/// was given. Only a frame source is told a frame capacity; only a chunk source can end or stop
/// with an error.
pub proof fn a_source_is_told_what_was_said<
    P: FifoContentSource,
    R: FrameContentSource<Frame = P::Frame, Info = P::Info>,
>(
    s: SourceOwned<P, R>,
    is_frame: bool,
    ended: bool,
    a: &mut SourceOwned<P, R>,
    info: &P::Info,
    b: &mut SourceOwned<P, R>,
    capacity: Option<usize>,
    c: &mut SourceOwned<P, R>,
    frame: P::Frame,
    d: &mut SourceOwned<P, R>,
    error: Option<Error>,
)
    requires
        call_ensures(SourceOwned::<P, R>::is_frame, (&s,), is_frame),
        call_ensures(SourceOwned::<P, R>::is_ended, (&s,), ended),
        call_ensures(SourceOwned::<P, R>::on_reconnect, (a, info), ()),
        call_ensures(SourceOwned::<P, R>::set_frame_capacity_if_supported, (b, capacity), ()),
        call_ensures(SourceOwned::<P, R>::submit_frame, (c, frame), ()),
        call_ensures(SourceOwned::<P, R>::take_stop_error, (d,), error),
    ensures
        is_frame <==> s is Frame,
        match s {
            SourceOwned::Fifo(x) => x.reports_ended(ended),
            SourceOwned::Frame(_) => !ended,
        },
        match (*old(a), *final(a)) {
            (SourceOwned::Fifo(x), SourceOwned::Fifo(y)) => x.reconnects(*info, y.state()),
            (SourceOwned::Frame(x), SourceOwned::Frame(y)) => x.reconnects(*info, y.state()),
            _ => false,
        },
        match (*old(b), *final(b)) {
            (SourceOwned::Fifo(x), SourceOwned::Fifo(y)) => x == y,
            (SourceOwned::Frame(x), SourceOwned::Frame(y)) => x.does(
                SourceCall::SetFrameCapacity(capacity),
                y.state(),
            ),
            _ => false,
        },
        match (*old(c), *final(c)) {
            (SourceOwned::Fifo(x), SourceOwned::Fifo(y)) => x.takes_frame(frame, y.state()),
            (SourceOwned::Frame(x), SourceOwned::Frame(y)) => x.takes_frame(frame, y.state()),
            _ => false,
        },
        match (*old(d), *final(d)) {
            (SourceOwned::Fifo(x), SourceOwned::Fifo(y)) => x.does(
                SourceCall::TakeStopError(error),
                y.state(),
            ),
            (SourceOwned::Frame(x), SourceOwned::Frame(y)) => x == y && error is None,
            _ => false,
        },
{
}

/// Law: startup blanking for a rate, the drop of retained output, the end of output, a filter
/// reset for a reason and a color delay reach the source as they were given.
pub proof fn a_source_is_commanded_as_it_was_said<
    P: FifoContentSource,
    R: FrameContentSource<Frame = P::Frame, Info = P::Info>,
>(
    a: &mut SourceOwned<P, R>,
    pps: u32,
    b: &mut SourceOwned<P, R>,
    c: &mut SourceOwned<P, R>,
    d: &mut SourceOwned<P, R>,
    reason: OutputResetReason,
    e: &mut SourceOwned<P, R>,
    delay: Duration,
)
    requires
        call_ensures(SourceOwned::<P, R>::arm_startup_blank, (a, pps), ()),
        call_ensures(SourceOwned::<P, R>::discard_cached, (b,), ()),
        call_ensures(SourceOwned::<P, R>::on_disarm, (c,), ()),
        call_ensures(SourceOwned::<P, R>::reset_output_filter, (d, reason), ()),
        call_ensures(SourceOwned::<P, R>::set_color_delay, (e, delay), ()),
    ensures
        calls(*old(a), SourceCall::ArmStartupBlank(pps), *final(a)),
        calls(*old(b), SourceCall::DiscardCached, *final(b)),
        calls(*old(c), SourceCall::OnDisarm, *final(c)),
        calls(*old(d), SourceCall::ResetOutputFilter(reason), *final(d)),
        calls(*old(e), SourceCall::SetColorDelay(delay), *final(e)),
{
}

/// What a pass's action does to a content source.
pub open spec fn on_source<
    P: FifoContentSource,
    R: FrameContentSource<Frame = P::Frame, Info = P::Info>,
>(action: TransitionAction, before: SourceOwned<P, R>, after: SourceOwned<P, R>) -> bool {
    match action {
        TransitionAction::DiscardCached => calls(before, SourceCall::DiscardCached, after),
        TransitionAction::SourceDisarm => calls(before, SourceCall::OnDisarm, after),
        TransitionAction::ResetOutputFilter(reason) => calls(
            before,
            SourceCall::ResetOutputFilter(reason),
            after,
        ),
        TransitionAction::ArmStartupBlank(pps) => calls(
            before,
            SourceCall::ArmStartupBlank(pps),
            after,
        ),
        _ => after == before,
    }
}

/// The actions of a pass that concern the content source.
pub open spec fn concerns_source(action: TransitionAction) -> bool {
    ||| action is DiscardCached
    ||| action is SourceDisarm
    ||| action is ResetOutputFilter
    ||| action is ArmStartupBlank
}

/// Law: an action of a pass that concerns the source is the one call on it that the action
/// names, with the same rate or reason; any other leaves it alone.
pub proof fn pass_actions_reach_the_source<
    P: FifoContentSource,
    R: FrameContentSource<Frame = P::Frame, Info = P::Info>,
>(action: TransitionAction, source: &mut SourceOwned<P, R>, performed: bool)
    requires
        call_ensures(transition_source::<P, R>, (action, source), performed),
    ensures
        performed <==> concerns_source(action),
        on_source(action, *old(source), *final(source)),
{
}

/// Law: the loop's actions that concern the source are its calls: those of a pass as above, the
/// question whether it has ended, and the taking of its error, each answered by what came back;
/// a frame source has not ended and has no error. Any other action leaves it alone.
pub proof fn loop_actions_reach_the_source<
    P: FifoContentSource,
    R: FrameContentSource<Frame = P::Frame, Info = P::Info>,
>(action: DriverAction, source: &mut SourceOwned<P, R>, reply: Option<DriverReply>)
    requires
        call_ensures(perform_on_source::<P, R>, (action, source), reply),
    ensures
        match action {
            DriverAction::Transition(inner) => {
                &&& on_source(inner, *old(source), *final(source))
                &&& concerns_source(inner) ==> reply == Some(
                    DriverReply::Transition(TransitionReply::Done),
                )
                &&& !concerns_source(inner) ==> reply is None
            },
            DriverAction::ReadEnded => *final(source) == *old(source) && match *old(source) {
                SourceOwned::Fifo(s) => exists|ended: bool| #[trigger]
                    s.reports_ended(ended) && reply == Some(DriverReply::Flag(ended)),
                SourceOwned::Frame(_) => reply == Some(DriverReply::Flag(false)),
            },
            DriverAction::TakeStopError => match (*old(source), *final(source)) {
                (SourceOwned::Fifo(b), SourceOwned::Fifo(a)) => exists|error: Option<Error>|
                    #[trigger]
                    b.does(SourceCall::TakeStopError(error), a.state()) && reply == Some(
                        DriverReply::Failure(error),
                    ),
                (SourceOwned::Frame(b), SourceOwned::Frame(a)) => a == b && reply == Some(
                    DriverReply::Failure(None),
                ),
                _ => false,
            },
            _ => *final(source) == *old(source) && reply is None,
        },
{
}

/// What a pass's action does to a backend, and what is replied.
pub open spec fn on_backend<F: FifoBackend, S: FrameSwapBackend>(
    action: TransitionAction,
    before: BackendVariant<F, S>,
    after: BackendVariant<F, S>,
    reply: Option<TransitionReply>,
) -> bool {
    match action {
        TransitionAction::SetShutter(open) => exists|r: Result<(), Error>| #[trigger]
            crate::backend_laws::commands(before, open, after, r) && reply == Some(
                TransitionReply::Command(r is Ok),
            ),
        TransitionAction::ResetDeviceBuffer => match (before, after) {
            (BackendVariant::Fifo(b), BackendVariant::Fifo(a)) => exists|r: Result<(), Error>|
                #[trigger]
                b.resets_buffer(a.state(), r) && reply == Some(TransitionReply::Command(r is Ok)),
            (BackendVariant::FrameSwap(b), BackendVariant::FrameSwap(a)) => a == b && reply == Some(
                TransitionReply::Command(true),
            ),
            _ => false,
        },
        TransitionAction::DisconnectBackend => exists|r: Result<(), Error>| #[trigger]
            crate::backend_laws::leaves(before, after, r) && reply == Some(TransitionReply::Done),
        _ => after == before && reply is None,
    }
}

/// An action of a pass on a backend, told by its calls.
pub proof fn lemma_on_backend<F: FifoBackend, S: FrameSwapBackend>(
    action: TransitionAction,
    before: BackendVariant<F, S>,
    after: BackendVariant<F, S>,
    reply: Option<TransitionReply>,
)
    requires
        super::perform::transition_effect(action, before, after, reply),
    ensures
        on_backend(action, before, after, reply),
{
    match action {
        TransitionAction::SetShutter(open) => {
            let r = choose|r: Result<(), Error>| #[trigger]
                before.sets_shutter(open, after, r) && reply == Some(
                    TransitionReply::Command(r is Ok),
                );
            assert(crate::backend_laws::commands(before, open, after, r));
        },
        TransitionAction::DisconnectBackend => {
            let r = choose|r: Result<(), Error>| #[trigger]
                before.disconnects(after, r) && reply == Some(TransitionReply::Done);
            assert(crate::backend_laws::leaves(before, after, r));
        },
        _ => {},
    }
}

/// Law: an action of a pass that concerns the backend is the one call on the device that the
/// action names, with the shutter commanded just as the action says, and the reply tells
/// whether the device accepted it; any other leaves the device alone and gets no reply.
pub proof fn pass_actions_reach_the_backend<F: FifoBackend, S: FrameSwapBackend>(
    action: TransitionAction,
    backend: &mut BackendKind<F, S>,
    reply: Option<TransitionReply>,
)
    requires
        call_ensures(perform_transition::<F, S>, (action, backend), reply),
    ensures
        on_backend(action, old(backend)@, final(backend)@, reply),
{
    lemma_on_backend(action, old(backend)@, final(backend)@, reply);
}

/// Law: the loop's actions that concern the backend are its calls: those of a pass as above,
/// the loop's own shutter commands just as they are given, and the question whether the device
/// is connected. Any other leaves it alone and gets no reply.
pub proof fn loop_actions_reach_the_backend<F: FifoBackend, S: FrameSwapBackend>(
    action: DriverAction,
    backend: &mut BackendKind<F, S>,
    reply: Option<DriverReply>,
)
    requires
        call_ensures(perform_on_backend::<F, S>, (action, backend), reply),
    ensures
        match action {
            DriverAction::Transition(inner) => exists|r: Option<TransitionReply>| #[trigger]
                on_backend(inner, old(backend)@, final(backend)@, r) && match r {
                    Some(answer) => reply == Some(DriverReply::Transition(answer)),
                    None => reply is None,
                },
            DriverAction::SetShutter(open) => exists|r: Result<(), Error>| #[trigger]
                crate::backend_laws::commands(old(backend)@, open, final(backend)@, r) && reply
                    == Some(DriverReply::Command(r is Ok)),
            DriverAction::ReadConnected => final(backend)@ == old(backend)@ && exists|up: bool|
                #[trigger]
                crate::backend_laws::says_connected(old(backend)@, up) && reply == Some(
                    DriverReply::Flag(up),
                ),
            _ => final(backend)@ == old(backend)@ && reply is None,
        },
{
    let before = old(backend)@;
    let after = final(backend)@;
    match action {
        DriverAction::Transition(inner) => {
            let r = choose|r: Option<TransitionReply>| #[trigger]
                super::perform::transition_effect(inner, before, after, r) && reply == match r {
                    Some(r) => Some(DriverReply::Transition(r)),
                    None => None,
                };
            lemma_on_backend(inner, before, after, r);
        },
        DriverAction::SetShutter(open) => {
            let r = choose|r: Result<(), Error>| #[trigger]
                before.sets_shutter(open, after, r) && reply == Some(
                    DriverReply::Command(r is Ok),
                );
            assert(crate::backend_laws::commands(before, open, after, r));
        },
        DriverAction::ReadConnected => {
            let up = choose|up: bool| #[trigger]
                before.reports_connected(up) && reply == Some(DriverReply::Flag(up));
            assert(crate::backend_laws::says_connected(before, up));
        },
        _ => {},
    }
}

/// Law: a look of the loop at the control is answered by that part of a state read from it
/// which the look is about; a range is offered to it as it was given and answered by whether
/// the rate found lies in it. Any other action gets no reply.
pub proof fn loop_actions_reach_the_control(
    action: DriverAction,
    control: SessionControl,
    reply: Option<DriverReply>,
)
    requires
        call_ensures(perform_on_control, (action, &control), reply),
    ensures
        match action {
            DriverAction::ReadStopRequested => exists|seen: ControlState| #[trigger]
                control.reads(seen) && control.started().leads_to(seen) && reply == Some(
                    DriverReply::Flag(seen.stop_requested),
                ),
            DriverAction::ReadPps => exists|seen: ControlState| #[trigger]
                control.reads(seen) && control.started().leads_to(seen) && reply == Some(
                    DriverReply::Rate(seen.rate.pps),
                ),
            DriverAction::ReadArmed => exists|seen: ControlState| #[trigger]
                control.reads(seen) && control.started().leads_to(seen) && reply == Some(
                    DriverReply::Flag(seen.desired.0 % 2 == 1),
                ),
            DriverAction::Transition(TransitionAction::ReadDesired(_)) => exists|
                seen: ControlState,
            | #[trigger]
                control.reads(seen) && control.started().leads_to(seen) && reply == Some(
                    DriverReply::Transition(TransitionReply::Desired(seen.desired)),
                ),
            DriverAction::UpdatePpsBounds { min, max } => exists|
                seen: ControlState,
                next: ControlState,
            | #[trigger]
                control.exchanges(seen, next) && control.started().leads_to(seen)
                    && crate::session_laws::makes(ControlOp::SetBounds(min, max), seen, next)
                    && reply == Some(
                    DriverReply::Flag(min <= seen.rate.pps && seen.rate.pps <= max),
                ),
            _ => reply is None,
        },
{
    match action {
        DriverAction::UpdatePpsBounds { min, max } => {
            let op = ControlOp::SetBounds(min, max);
            let seen = choose|seen: ControlState| #[trigger]
                control.exchanges(seen, seen.after(ControlOp::SetBounds(min, max)))
                    && control.started().leads_to(seen) && reply == Some(
                    DriverReply::Flag(min <= seen.rate.pps <= max),
                );
            crate::session_laws::an_operation_changes_one_thing(seen, op);
            assert(control.exchanges(seen, seen.after(op)));
        },
        _ => {
            if super::perform::is_look(action) {
                let seen = choose|seen: ControlState| #[trigger]
                    control.reads(seen) && control.started().leads_to(seen) && reply
                        == super::perform::look_reply(action, seen);
                assert(control.reads(seen));
            }
        },
    }
}

/// Law: a new backend is accepted just if it is of the kind that the session was started with,
/// and refused as disconnected otherwise.
pub proof fn only_the_same_kind_is_a_candidate<F: FifoBackend, S: FrameSwapBackend>(
    expected_frame_swap: bool,
    candidate: BackendKind<F, S>,
    r: Result<(), SessionExit>,
)
    requires
        call_ensures(validate_candidate::<F, S>, (expected_frame_swap, &candidate), r),
    ensures
        match candidate@ {
            BackendVariant::Fifo(_) => r is Ok <==> !expected_frame_swap,
            BackendVariant::FrameSwap(_) => r is Ok <==> expected_frame_swap,
        },
        r is Err ==> r == Err::<(), SessionExit>(SessionExit::Disconnected),
{
}

/// The shutter is commanded to close, and is then known closed if the device accepted that and
/// unknown if not.
pub open spec fn is_closed_by<F: FifoBackend, S: FrameSwapBackend>(
    before: BackendVariant<F, S>,
    after: BackendVariant<F, S>,
    shutter: ShutterState,
) -> bool {
    exists|r: Result<(), Error>| #[trigger]
        crate::backend_laws::commands(before, false, after, r) && (if r is Ok {
            shutter == ShutterState::Closed
        } else {
            shutter == ShutterState::Unknown
        })
}

/// Law: a close is commanded unless the shutter is known closed and it is not forced; a stop
/// always commands it, and reports the session as stopped.
pub proof fn when_a_close_is_commanded<F: FifoBackend, S: FrameSwapBackend>(
    a: &mut BackendKind<F, S>,
    shutter: &mut ShutterState,
    force: bool,
    b: &mut BackendKind<F, S>,
    known: &mut ShutterState,
    exit: SessionExit,
)
    requires
        call_ensures(command_close::<F, S>, (a, shutter, force), ()),
        call_ensures(stop_and_close_shutter::<F, S>, (b, known), exit),
    ensures
        force || *old(shutter) == ShutterState::Open || *old(shutter) == ShutterState::Unknown
            ==> is_closed_by(old(a)@, final(a)@, *final(shutter)),
        !force && *old(shutter) == ShutterState::Closed ==> final(a)@ == old(a)@ && *final(shutter)
            == ShutterState::Closed,
        is_closed_by(old(b)@, final(b)@, *final(known)),
        exit == SessionExit::Stopped,
{
    if force || *old(shutter) != ShutterState::Closed {
        lemma_closed_by(old(a)@, final(a)@, *final(shutter));
    }
    lemma_closed_by(old(b)@, final(b)@, *final(known));
}

proof fn lemma_closed_by<F: FifoBackend, S: FrameSwapBackend>(
    before: BackendVariant<F, S>,
    after: BackendVariant<F, S>,
    shutter: ShutterState,
)
    requires
        super::handler::closes(before, after, shutter),
    ensures
        is_closed_by(before, after, shutter),
{
    let r = choose|r: Result<(), Error>| #[trigger]
        before.sets_shutter(false, after, r) && shutter
            == super::transition::shutter_after_spec(false, r is Ok);
    assert(crate::backend_laws::commands(before, false, after, r));
}

/// Law: on the objects of a session each action of a pass is one call on the one object that it
/// concerns, named as in the action, and leaves the others as they are; a look reads the control
/// and leaves all as they are.
pub proof fn each_action_concerns_one_object<
    F: FifoBackend,
    S: FrameSwapBackend,
    P: FifoContentSource,
    R: FrameContentSource<Frame = P::Frame, Info = P::Info>,
    A: OutputAdapter,
>(
    before: PassObjects<F, S, P, R, A>,
    action: TransitionAction,
    after: PassObjects<F, S, P, R, A>,
    reply: TransitionReply,
)
    requires
        before.performs(action, after, reply),
    ensures
        after.control == before.control,
        match action {
            TransitionAction::ReadDesired(_) => after == before && exists|seen: ControlState|
                #[trigger]
                before.control.reads(seen) && before.control.started().leads_to(seen) && reply
                    == TransitionReply::Desired(seen.desired),
            TransitionAction::SetShutter(_)
            | TransitionAction::ResetDeviceBuffer
            | TransitionAction::DisconnectBackend => {
                &&& on_backend(action, before.backend@, after.backend@, Some(reply))
                &&& after.source == before.source
                &&& after.adapter == before.adapter
            },
            TransitionAction::AdapterStateChange(armed) => {
                &&& before.adapter.changes(armed, after.adapter.state())
                &&& after.backend == before.backend
                &&& after.source == before.source
                &&& reply == TransitionReply::Done
            },
            TransitionAction::DiscardCached
            | TransitionAction::SourceDisarm
            | TransitionAction::ResetOutputFilter(_)
            | TransitionAction::ArmStartupBlank(_) => {
                &&& on_source(action, before.source, after.source)
                &&& after.backend == before.backend
                &&& after.adapter == before.adapter
                &&& reply == TransitionReply::Done
            },
        },
{
    match action {
        TransitionAction::SetShutter(_)
        | TransitionAction::ResetDeviceBuffer
        | TransitionAction::DisconnectBackend => lemma_on_backend(
            action,
            before.backend@,
            after.backend@,
            Some(reply),
        ),
        _ => {},
    }
}

/// Law: performing an action on the objects of a session does what the action names, and the
/// reply answers it.
pub proof fn an_action_is_performed_as_named<
    F: FifoBackend,
    S: FrameSwapBackend,
    P: FifoContentSource,
    R: FrameContentSource<Frame = P::Frame, Info = P::Info>,
    A: OutputAdapter,
>(objects: &mut PassObjects<F, S, P, R, A>, action: TransitionAction, reply: TransitionReply)
    requires
        call_ensures(PassObjects::<F, S, P, R, A>::perform, (objects, action), reply),
    ensures
        (*old(objects)).performs(action, *final(objects), reply),
        match action {
            TransitionAction::ReadDesired(_) => reply is Desired,
            TransitionAction::SetShutter(_) | TransitionAction::ResetDeviceBuffer => reply
                is Command,
            _ => reply is Done,
        },
{
}

/// A series of actions is performed on a target, one after the other, over these states.
pub open spec fn over_states<T: PassTarget>(done: Performed, states: Seq<T>) -> bool {
    &&& states.len() == done.len() + 1
    &&& forall|i: int|
        0 <= i < done.len() ==> (#[trigger] states[i]).performs(done[i].0, states[i + 1], done[i].1)
}

proof fn lemma_states<T: PassTarget>(done: Performed, before: T, after: T) -> (states: Seq<T>)
    requires
        super::handler::performs_in_turn(done, before, after),
    ensures
        over_states(done, states),
        states[0] == before,
        states.last() == after,
    decreases done.len(),
{
    if done.len() == 0 {
        seq![before]
    } else {
        let mid = choose|mid: T| #[trigger]
            mid.performs(done.last().0, after, done.last().1)
                && super::handler::performs_in_turn(done.drop_last(), before, mid);
        let earlier = lemma_states(done.drop_last(), before, mid);
        let states = earlier.push(after);
        assert forall|i: int| 0 <= i < done.len() implies (#[trigger] states[i]).performs(
            done[i].0,
            states[i + 1],
            done[i].1,
        ) by {
            if i < done.len() - 1 {
                assert(states[i] == earlier[i]);
                assert(states[i + 1] == earlier[i + 1]);
                assert(done.drop_last()[i] == done[i]);
            } else {
                assert(states[i] == mid);
            }
        }
        states
    }
}

/// Law: a whole pass performs its actions on the target one after the other, from the state the
/// target was in to the one it is left in: each is what was due for what lies before it, at the
/// rate of the pass, and at the end nothing is due. What is handled, what is known of the
/// shutter and how the pass ended are given by what was done.
pub proof fn a_pass_is_performed_action_by_action<T: PassTarget>(
    handled: &mut DesiredState,
    shutter: &mut ShutterState,
    target: &mut T,
    pps: u32,
    outcome: TransitionOutcome,
)
    requires
        call_ensures(handle_shutter_transition::<T>, (handled, shutter, target, pps), outcome),
    ensures
        exists|done: Performed, states: Seq<T>| #[trigger]
            over_states(done, states) && {
                &&& states[0] == *old(target)
                &&& states.last() == *final(target)
                &&& done.len() > 0
                &&& forall|i: int|
                    #![trigger done[i]]
                    0 <= i < done.len() ==> super::transition_order::still_due(
                        *old(handled),
                        *old(shutter),
                        pps,
                        done.take(i),
                    ).len() > 0 && done[i].0 == super::transition_order::still_due(
                        *old(handled),
                        *old(shutter),
                        pps,
                        done.take(i),
                    )[0]
                &&& super::transition_order::still_due(
                    *old(handled),
                    *old(shutter),
                    pps,
                    done,
                ).len() == 0
                &&& *final(handled) == super::transition_order::handled_by(*old(handled), done)
                &&& *final(shutter) == super::transition_order::known_shutter(*old(shutter), done)
                &&& outcome == TransitionOutcome::Disconnected
                    <==> super::transition_order::failed_reset(done)
            },
{
    let start = super::transition::TransitionView::start(*old(handled), *old(shutter), pps);
    let replies = choose|replies: Seq<TransitionReply>|
        #![trigger start.run(replies)]
        super::handler::ends_so(
            start.run(replies),
            *final(handled),
            *final(shutter),
            outcome,
        ) && super::handler::performs_in_turn(
            start.performed(replies),
            *old(target),
            *final(target),
        );
    let done = start.performed(replies);
    let states = lemma_states(done, *old(target), *final(target));
    super::transition_order::what_is_done_decides_what_is_due(
        *old(handled),
        *old(shutter),
        pps,
        replies,
    );
    assert forall|i: int|
        #![trigger done[i]]
        0 <= i < done.len() implies super::transition_order::still_due(
        *old(handled),
        *old(shutter),
        pps,
        done.take(i),
    ).len() > 0 && done[i].0 == super::transition_order::still_due(
        *old(handled),
        *old(shutter),
        pps,
        done.take(i),
    )[0] by {
        super::transition_order::each_action_was_due(
            *old(handled),
            *old(shutter),
            pps,
            replies,
            i,
        );
    }
    assert(over_states(done, states));
}

} // verus!
