//! Shutter commands, and a whole shutter transition pass on a backend, a content source and
//! an output adapter.
use vstd::prelude::*;

use super::perform::{perform_transition, transition_source};
use super::source::{FifoContentSource, FrameContentSource, OutputAdapter, SourceOwned};
use super::transition::{
    shutter_after, CheckPoint, ShutterState, ShutterTransition, TransitionAction, TransitionOutcome, TransitionReply,
    TransitionView,
};
use crate::backend::{BackendKind, BackendVariant, FifoBackend, FrameSwapBackend};
use crate::error::Error;
use crate::session::{ControlState, DesiredState, SessionControl, SessionExit};

verus! {

/// A close command to `before` may lead to `after`, with the shutter in state `shutter`.
pub open spec fn closes<F: FifoBackend, S: FrameSwapBackend>(
    before: BackendVariant<F, S>,
    after: BackendVariant<F, S>,
    shutter: ShutterState,
) -> bool {
    exists|r: Result<(), Error>| #[trigger]
        before.sets_shutter(false, after, r) && shutter
            == super::transition::shutter_after_spec(false, r is Ok)
}

/// Close the shutter, unless it is known to be closed; always, if forced.
pub fn command_close<F: FifoBackend, S: FrameSwapBackend>(
    backend: &mut BackendKind<F, S>,
    shutter: &mut ShutterState,
    force: bool,
)
    ensures
        if force || *old(shutter) != ShutterState::Closed {
            closes(old(backend)@, final(backend)@, *final(shutter))
        } else {
            final(backend)@ == old(backend)@ && *final(shutter) == *old(shutter)
        },
        *final(shutter) != ShutterState::Open,
{
    if force || *shutter != ShutterState::Closed {
        let r = backend.set_shutter(false);
        assert(old(backend)@.sets_shutter(false, backend@, r));
        *shutter = shutter_after(false, r.is_ok());
    }
}

/// Close the shutter, whatever is known of it, and report the session as stopped.
///
/// A stop must never leave the shutter open, or the beam would freeze on the last bright
/// point. What is known of the shutter is no proof that nothing enabled output meanwhile.
pub fn stop_and_close_shutter<F: FifoBackend, S: FrameSwapBackend>(
    backend: &mut BackendKind<F, S>,
    shutter: &mut ShutterState,
) -> (exit: SessionExit)
    ensures
        closes(old(backend)@, final(backend)@, *final(shutter)),
        exit == SessionExit::Stopped,
{
    command_close(backend, shutter, true);
    SessionExit::Stopped
}

/// What a pass acts on.
///
/// `performs` names what the one method may do; an implementation chooses it as it likes.
pub trait PassTarget: Sized {
    /// An action may lead from here to `after`, with that reply.
    open spec fn performs(
        self,
        action: TransitionAction,
        after: Self,
        reply: TransitionReply,
    ) -> bool {
        true
    }

    /// Perform an action and reply to it.
    fn perform(&mut self, action: TransitionAction) -> (reply: TransitionReply)
        ensures
            action.answered_by(reply),
            old(self).performs(action, *final(self), reply),
    ;
}

/// A series of actions with their replies, performed one after the other, may lead from
/// `before` to `after`.
pub open spec fn performs_in_turn<T: PassTarget>(
    done: Seq<(TransitionAction, TransitionReply)>,
    before: T,
    after: T,
) -> bool
    decreases done.len(),
{
    if done.len() == 0 {
        after == before
    } else {
        exists|mid: T| #[trigger]
            mid.performs(done.last().0, after, done.last().1) && performs_in_turn(
                done.drop_last(),
                before,
                mid,
            )
    }
}

/// The pass is over, and leaves this handled state, shutter and outcome.
pub open spec fn ends_so(
    end: TransitionView,
    handled: DesiredState,
    shutter: ShutterState,
    outcome: TransitionOutcome,
) -> bool {
    &&& end.pending.len() == 0
    &&& end.handled == handled
    &&& end.shutter == shutter
    &&& end.outcome == outcome
}

/// Handle arm and disarm transitions of the shutter: one whole pass. Each action is
/// performed on the target in its turn, with a look at the desired state of its own wherever
/// the pass asks for one. The shutter is known open afterwards only if output was desired
/// and the device could be prepared.
pub fn handle_shutter_transition<T: PassTarget>(
    handled: &mut DesiredState,
    shutter: &mut ShutterState,
    target: &mut T,
    pps: u32,
) -> (outcome: TransitionOutcome)
    ensures
        exists|replies: Seq<TransitionReply>|
            #![trigger TransitionView::start(*old(handled), *old(shutter), pps).run(replies)]
            ends_so(
                TransitionView::start(*old(handled), *old(shutter), pps).run(replies),
                *final(handled),
                *final(shutter),
                outcome,
            ) && performs_in_turn(
                TransitionView::start(*old(handled), *old(shutter), pps).performed(replies),
                *old(target),
                *final(target),
            ),
        *final(shutter) == ShutterState::Open ==> final(handled).armed() && outcome
            == TransitionOutcome::Continue,
{
    let mut pass = ShutterTransition::new(*handled, *shutter, pps);
    let ghost start = pass@;
    let ghost mut replies: Seq<TransitionReply> = Seq::empty();
    loop
        invariant
            start == TransitionView::start(*old(handled), *old(shutter), pps),
            pass@ == start.run(replies),
            performs_in_turn(start.performed(replies), *old(target), *target),
        ensures
            pass@ == start.run(replies),
            pass@.pending.len() == 0,
        decreases 16 - start.performed(replies).len(),
    {
        proof {
            super::transition_laws::pass_is_finite(*old(handled), *old(shutter), pps, replies);
        }
        let action = match pass.next_action() {
            Some(action) => action,
            None => {
                break;
            },
        };
        let ghost mid = *target;
        let reply = target.perform(action);
        let _ = pass.complete(reply);
        proof {
            let more = replies.push(reply);
            assert(more.drop_last() =~= replies);
            let done = start.performed(more);
            assert(done == start.performed(replies).push((action, reply)));
            assert(done.drop_last() =~= start.performed(replies));
            assert(done.last() == (action, reply));
            assert(mid.performs(done.last().0, *target, done.last().1));
            assert(performs_in_turn(done, *old(target), *target));
            replies = more;
        }
    }
    proof {
        super::transition_laws::pass_ends_safely(*old(handled), *old(shutter), pps, replies);
    }
    *handled = pass.handled();
    *shutter = pass.shutter();
    pass.outcome()
}

/// The objects that a session's passes act on: its control handle, backend, content source
/// and output adapter.
pub struct PassObjects<F, S, P, R, A> {
    pub control: SessionControl,
    pub backend: BackendKind<F, S>,
    pub source: SourceOwned<P, R>,
    pub adapter: A,
}

impl<
    F: FifoBackend,
    S: FrameSwapBackend,
    P: FifoContentSource,
    R: FrameContentSource<Frame = P::Frame, Info = P::Info>,
    A: OutputAdapter,
> PassTarget for PassObjects<F, S, P, R, A> {
    /// Each action is one call on the object that it concerns; the others stay as they are.
    open spec fn performs(
        self,
        action: TransitionAction,
        after: Self,
        reply: TransitionReply,
    ) -> bool {
        &&& after.control == self.control
        &&& match action {
            TransitionAction::ReadDesired(_) => {
                &&& after == self
                &&& exists|seen: ControlState| #[trigger]
                    self.control.reads(seen) && self.control.started().leads_to(seen) && reply
                        == TransitionReply::Desired(seen.desired)
            },
            TransitionAction::SetShutter(_)
            | TransitionAction::ResetDeviceBuffer
            | TransitionAction::DisconnectBackend => {
                &&& super::perform::transition_effect(
                    action,
                    self.backend@,
                    after.backend@,
                    Some(reply),
                )
                &&& after.source == self.source
                &&& after.adapter == self.adapter
            },
            TransitionAction::AdapterStateChange(armed) => {
                &&& self.adapter.changes(armed, after.adapter.state())
                &&& after.backend == self.backend
                &&& after.source == self.source
                &&& reply == TransitionReply::Done
            },
            _ => {
                &&& super::perform::source_call(action) is Some
                &&& self.source.does(super::perform::source_call(action)->Some_0, after.source)
                &&& after.backend == self.backend
                &&& after.adapter == self.adapter
                &&& reply == TransitionReply::Done
            },
        }
    }

    fn perform(&mut self, action: TransitionAction) -> (reply: TransitionReply) {
        match action {
            TransitionAction::ReadDesired(_) => TransitionReply::Desired(
                self.control.desired_state(),
            ),
            TransitionAction::SetShutter(_)
            | TransitionAction::ResetDeviceBuffer
            | TransitionAction::DisconnectBackend => match perform_transition(
                action,
                &mut self.backend,
            ) {
                Some(reply) => reply,
                None => TransitionReply::Done,
            },
            TransitionAction::AdapterStateChange(armed) => {
                self.adapter.on_state_change(armed);
                TransitionReply::Done
            },
            _ => {
                let _ = transition_source(action, &mut self.source);
                TransitionReply::Done
            },
        }
    }
}

proof fn lemma_first_performs<T: PassTarget>(
    done: Seq<(TransitionAction, TransitionReply)>,
    before: T,
    after: T,
)
    requires
        performs_in_turn(done, before, after),
        0 < done.len(),
    ensures
        exists|to: T| before.performs(done[0].0, to, done[0].1),
    decreases done.len(),
{
    let mid = choose|mid: T| #[trigger]
        mid.performs(done.last().0, after, done.last().1) && performs_in_turn(
            done.drop_last(),
            before,
            mid,
        );
    if done.len() > 1 {
        lemma_first_performs(done.drop_last(), before, mid);
        assert(done.drop_last()[0] == done[0]);
    } else {
        assert(mid == before);
        assert(before.performs(done[0].0, after, done[0].1));
    }
}

/// Law: a pass commands the shutter to open only if its first look at the control showed
/// that output is desired, and works towards just the state that this look showed.
pub proof fn only_what_the_control_desires_is_opened<
    F: FifoBackend,
    S: FrameSwapBackend,
    P: FifoContentSource,
    R: FrameContentSource<Frame = P::Frame, Info = P::Info>,
    A: OutputAdapter,
>(
    start: TransitionView,
    replies: Seq<TransitionReply>,
    before: PassObjects<F, S, P, R, A>,
    after: PassObjects<F, S, P, R, A>,
)
    requires
        start == TransitionView::start(start.handled, start.shutter, start.pps),
        performs_in_turn(start.performed(replies), before, after),
        super::transition_laws::opened(start.performed(replies)),
    ensures
        exists|seen: ControlState| #[trigger]
            before.control.reads(seen) && seen.desired.armed() && start.performed(replies)[0] == (
                TransitionAction::ReadDesired(CheckPoint::Entry),
                TransitionReply::Desired(seen.desired),
            ) && start.run(replies).desired == seen.desired,
{
    super::transition_laws::the_first_look_decides(
        start.handled,
        start.shutter,
        start.pps,
        replies,
    );
    lemma_first_performs(start.performed(replies), before, after);
}

} // verus!
