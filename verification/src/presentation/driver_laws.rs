//! What holds of every run of the scheduler loop, whatever is replied to its actions.
use vstd::prelude::*;

use super::driver::{DriverAction, DriverConfig, DriverEnd, DriverReply, DriverView, StepOutcome};
use super::transition::{ShutterState, TransitionAction, TransitionReply, TransitionView};
use crate::session::{DesiredState, SessionExit};

verus! {

/// Actions that were performed, with their replies.
pub type PerformedByDriver = Seq<(DriverAction, DriverReply)>;

/// An action on which nothing is decided.
spec fn plain(action: DriverAction) -> bool {
    match action {
        DriverAction::MarkLoopActivity => true,
        DriverAction::ForwardColorDelay => true,
        DriverAction::SubmitPendingFrame => true,
        DriverAction::SetConnectedMetric(_) => true,
        DriverAction::InstallCandidate => true,
        DriverAction::SourceReconnected => true,
        DriverAction::SetFrameCapacity => true,
        DriverAction::AdapterReconnected => true,
        DriverAction::NotifyReconnected => true,
        _ => false,
    }
}

/// The device was lost: found unconnected, disconnected by a pass or lost by a step.
pub open spec fn lost(step: (DriverAction, DriverReply)) -> bool {
    ||| step == (DriverAction::ReadConnected, DriverReply::Flag(false))
    ||| step.0 == DriverAction::Transition(TransitionAction::DisconnectBackend)
    ||| step.0 is Step && step.1 is Stepped && step.1->Stepped_0 == StepOutcome::Disconnected
}

/// A reply that tells the loop to stop: a stop request that was read, a stop message, or an
/// adapter step that was stopped.
pub open spec fn asks_to_stop(step: (DriverAction, DriverReply)) -> bool {
    ||| step == (DriverAction::ReadStopRequested, DriverReply::Flag(true))
    ||| step == (DriverAction::DrainControl, DriverReply::Flag(true))
    ||| step.0 is Step && step.1 is Stepped && step.1->Stepped_0 == StepOutcome::Stopped
}

/// How a run may end.
pub open spec fn ended(v: DriverView, done: PerformedByDriver) -> bool {
    &&& done.len() > 0
    &&& match v.end {
        Some(DriverEnd::Session(exit)) => {
            ||| exit == SessionExit::Stopped && done.last().0 == DriverAction::SetShutter(false)
                && v.shutter != ShutterState::Open && done.len() > 1 && asks_to_stop(
                done[done.len() - 2],
            )
            ||| exit == SessionExit::ProducerEnded && done.last().0 is DrainAndBlank
                && !v.config.frame_source && done.len() > 2 && done[done.len() - 2] == (
                DriverAction::TakeStopError,
                DriverReply::Failure(None),
            ) && done[done.len() - 3] == (DriverAction::ReadEnded, DriverReply::Flag(true))
            ||| exit == SessionExit::Disconnected && done.last().0 == DriverAction::DiscardCandidate
                && done.len() > 1 && done[done.len() - 2].0 is UpdatePpsBounds
                && done[done.len() - 2].1 == DriverReply::Flag(false)
            ||| exit == SessionExit::Disconnected && !v.config.reconnects && lost(done.last())
            ||| done.last().0 is FindBackend && done.last().1 == DriverReply::NotFound(exit)
        },
        Some(DriverEnd::Failed(error)) => {
            ||| done.last().0 == DriverAction::SetShutter(false) && v.shutter != ShutterState::Open
                && done.len() > 1 && done[done.len() - 2] == (
                DriverAction::TakeStopError,
                DriverReply::Failure(Some(error)),
            )
            ||| done.len() == 1 && done[0].0 is SelectAdapter && done[0].1
                == DriverReply::Failure(Some(error))
        },
        None => false,
    }
}

spec fn reached(config: DriverConfig, v: DriverView, done: PerformedByDriver) -> bool {
    &&& v.config == config
    &&& v.pass is Some ==> v.pending.len() == 0 && v.pass->0.pending.len() > 0 && v.end is None
        && done.len() > 0
    &&& v.pass is Some ==> exists|inner: Seq<TransitionReply>|
        v.pass->0 == #[trigger] TransitionView::start(v.handled, v.shutter, v.pps).run(inner)
    &&& forall|i: int|
        0 <= i < done.len() && (#[trigger] done[i].0 is SetShutter) ==> done[i].0
            == DriverAction::SetShutter(false)
    &&& v.is_over() ==> ended(v, done)
    &&& v.pending.len() > 0 ==> {
        let last = v.pending.last();
        &&& forall|i: int| 0 <= i < v.pending.len() - 1 ==> plain(#[trigger] v.pending[i])
        &&& !plain(last)
        &&& !(last is Transition)
        &&& last is SelectAdapter ==> v.pending.len() == 1 && done.len() == 0
        &&& !(last is SelectAdapter) ==> done.len() > 0
        &&& match last {
            DriverAction::SetShutter(open) => {
                &&& !open
                &&& v.pending.len() == 1
                &&& match v.end {
                    Some(DriverEnd::Session(exit)) => exit == SessionExit::Stopped && asks_to_stop(
                        done.last(),
                    ),
                    Some(DriverEnd::Failed(error)) => done.last() == (
                        DriverAction::TakeStopError,
                        DriverReply::Failure(Some(error)),
                    ),
                    None => false,
                }
            },
            DriverAction::DrainAndBlank { .. } => {
                &&& v.pending.len() == 1
                &&& v.end == Some(DriverEnd::Session(SessionExit::ProducerEnded))
                &&& !config.frame_source
                &&& done.len() > 1
                &&& done.last() == (DriverAction::TakeStopError, DriverReply::Failure(None))
                &&& done[done.len() - 2] == (DriverAction::ReadEnded, DriverReply::Flag(true))
            },
            DriverAction::DiscardCandidate => {
                &&& v.pending.len() == 1
                &&& v.end == Some(DriverEnd::Session(SessionExit::Disconnected))
                &&& done.last().0 is UpdatePpsBounds
                &&& done.last().1 == DriverReply::Flag(false)
            },
            DriverAction::ReadEnded => v.end is None && !config.frame_source,
            DriverAction::TakeStopError => v.end is None && !config.frame_source && v.pending.len()
                == 1 && done.last() == (DriverAction::ReadEnded, DriverReply::Flag(true)),
            DriverAction::ReadArmed => v.end is None && v.pending.len() == 1 && done.last().0
                is Transition,
            DriverAction::Step { pps, armed } => {
                &&& v.end is None
                &&& v.pending.len() == 1
                &&& done.len() > 1
                &&& done.last() == (DriverAction::ReadArmed, DriverReply::Flag(armed))
                &&& done[done.len() - 2].0 is Transition
            },
            _ => v.end is None,
        }
    }
}

proof fn lemma_closes(done: PerformedByDriver, step: (DriverAction, DriverReply))
    requires
        forall|i: int|
            0 <= i < done.len() && (#[trigger] done[i].0 is SetShutter) ==> done[i].0
                == DriverAction::SetShutter(false),
        step.0 is SetShutter ==> step.0 == DriverAction::SetShutter(false),
    ensures
        forall|i: int|
            0 <= i < done.push(step).len() && (#[trigger] done.push(step)[i].0 is SetShutter)
                ==> done.push(step)[i].0 == DriverAction::SetShutter(false),
{
    assert forall|i: int|
        0 <= i < done.push(step).len() && (#[trigger] done.push(step)[i].0
            is SetShutter) implies done.push(step)[i].0 == DriverAction::SetShutter(false) by {
        if i < done.len() {
            assert(done[i] == done.push(step)[i]);
        }
    }
}

proof fn lemma_step_in_pass(
    config: DriverConfig,
    v: DriverView,
    done: PerformedByDriver,
    reply: DriverReply,
)
    requires
        reached(config, v, done),
        v.expects(reply),
        v.pass is Some,
    ensures
        reached(config, v.next(reply), done.push((v.next_action()->0, reply))),
{
    let step = (v.next_action()->0, reply);
    let w = v.next(reply);
    assert(done.push(step).last() == step);
    lemma_closes(done, step);
    let start = TransitionView::start(v.handled, v.shutter, v.pps);
    let inner = choose|inner: Seq<TransitionReply>| v.pass->0 == #[trigger] start.run(inner);
    let longer = inner.push(reply->Transition_0);
    assert(longer.drop_last() =~= inner);
    assert(start.run(longer) == v.pass->0.next(reply->Transition_0));
    if w.pass is None {
        super::transition_laws::pass_ends_safely(v.handled, v.shutter, v.pps, longer);
        assert(start.performed(longer).last().0 == v.pass->0.pending[0]);
    }
}

proof fn lemma_step_plain(
    config: DriverConfig,
    v: DriverView,
    done: PerformedByDriver,
    reply: DriverReply,
)
    requires
        reached(config, v, done),
        v.expects(reply),
        v.pass is None,
        v.pending.len() > 0,
        plain(v.pending[0]),
    ensures
        reached(config, v.next(reply), done.push((v.next_action()->0, reply))),
{
    let step = (v.next_action()->0, reply);
    let w = v.next(reply);
    assert(done.push(step).last() == step);
    lemma_closes(done, step);
    assert(w.pending == v.pending.drop_first());
    assert(w.pending.len() > 0);
    assert(w.pending.last() == v.pending.last());
    assert forall|i: int| 0 <= i < w.pending.len() - 1 implies plain(#[trigger] w.pending[i]) by {
        assert(w.pending[i] == v.pending[i + 1]);
    }
}

proof fn lemma_step(config: DriverConfig, v: DriverView, done: PerformedByDriver, reply: DriverReply)
    requires
        reached(config, v, done),
        v.expects(reply),
    ensures
        reached(config, v.next(reply), done.push((v.next_action()->0, reply))),
{
    if v.pass is Some {
        lemma_step_in_pass(config, v, done, reply);
    } else if plain(v.pending[0]) {
        lemma_step_plain(config, v, done, reply);
    } else {
        let step = (v.next_action()->0, reply);
        assert(done.push(step).last() == step);
        lemma_closes(done, step);
        assert(v.pending.len() == 1);
        let start = TransitionView::start(v.handled, v.shutter, v.pps);
        assert(start.run(Seq::<TransitionReply>::empty()) == start);
    }
}

proof fn lemma_reached(config: DriverConfig, replies: Seq<DriverReply>)
    ensures
        reached(
            config,
            DriverView::start(config).run(replies),
            DriverView::start(config).performed(replies),
        ),
    decreases replies.len(),
{
    let start = DriverView::start(config);
    if replies.len() > 0 {
        lemma_reached(config, replies.drop_last());
        let before = start.run(replies.drop_last());
        let done = start.performed(replies.drop_last());
        if before.expects(replies.last()) {
            lemma_step(config, before, done, replies.last());
        }
    }
}

/// Law: a run ends in one of these ways only.
///
/// It ends as stopped right after a stop was asked for and the shutter was commanded to
/// close. It ends as producer-ended right after a source that is not a frame source had
/// ended, without an error, and the device was drained and blanked. It ends as disconnected
/// when the device is lost and reconnection is off, or right after a new backend that does
/// not support the rate was discarded. With a lost device it also ends as the search for it
/// did, which commands no shutter. It fails right after the shutter
/// was commanded to close because the source stopped with that error, or at the very
/// start because there is no output adapter.
pub proof fn how_a_run_ends(config: DriverConfig, replies: Seq<DriverReply>)
    requires
        DriverView::start(config).run(replies).is_over(),
    ensures
        ended(
            DriverView::start(config).run(replies),
            DriverView::start(config).performed(replies),
        ),
{
    lemma_reached(config, replies);
}

/// Law: the loop itself never commands the shutter to open; only a transition pass does.
pub proof fn only_a_pass_opens(config: DriverConfig, replies: Seq<DriverReply>)
    ensures
        DriverView::start(config).run(replies).next_action() != Some(DriverAction::SetShutter(true)),
        forall|i: int|
            0 <= i < DriverView::start(config).performed(replies).len() ==> #[trigger]
            DriverView::start(config).performed(replies)[i].0 != DriverAction::SetShutter(true),
{
    lemma_reached(config, replies);
}

/// The pass under way works towards output that is desired and handled, and either that
/// was handled before the pass, or the pass has just finished the preparation for it.
pub open spec fn opens_prepared(v: DriverView) -> bool {
    &&& v.pass is Some
    &&& v.pass->0.desired.armed()
    &&& v.pass->0.handled == v.pass->0.desired
    &&& exists|inner: Seq<TransitionReply>|
        {
            &&& v.pass->0 == #[trigger] TransitionView::start(v.handled, v.shutter, v.pps).run(inner)
            &&& v.handled == v.pass->0.desired || super::transition_laws::prepared(
                TransitionView::start(v.handled, v.shutter, v.pps).performed(inner).drop_last(),
                v.pps,
            )
        }
}

/// Law: when a run commands the shutter to open, output is desired in the very generation
/// that the pass has handled, and either that generation was handled before the pass, or
/// the pass has just finished the whole preparation for it with a cleared device queue.
pub proof fn an_opening_is_prepared(config: DriverConfig, replies: Seq<DriverReply>)
    requires
        DriverView::start(config).run(replies).next_action() == Some(
            DriverAction::Transition(TransitionAction::SetShutter(true)),
        ),
    ensures
        opens_prepared(DriverView::start(config).run(replies)),
{
    lemma_reached(config, replies);
    let v = DriverView::start(config).run(replies);
    if v.pass is None {
        if v.pending.len() > 1 {
            assert(plain(v.pending[0]));
        }
        assert(false);
    }
    let start = TransitionView::start(v.handled, v.shutter, v.pps);
    let inner = choose|inner: Seq<TransitionReply>| v.pass->0 == #[trigger] start.run(inner);
    super::transition_laws::opening_follows_preparation(v.handled, v.shutter, v.pps, inner);
}

/// Law: the output adapter takes a step only right after a finished transition pass and a
/// look at the desired state, and it is told what that look showed.
pub proof fn a_step_follows_a_pass(
    config: DriverConfig,
    replies: Seq<DriverReply>,
    pps: u32,
    armed: bool,
)
    requires
        DriverView::start(config).run(replies).next_action() == Some(
            DriverAction::Step { pps, armed },
        ),
    ensures
        ({
            let done = DriverView::start(config).performed(replies);
            &&& done.len() > 1
            &&& done[done.len() - 2].0 is Transition
            &&& done[done.len() - 1] == (DriverAction::ReadArmed, DriverReply::Flag(armed))
        }),
{
    lemma_reached(config, replies);
    let v = DriverView::start(config).run(replies);
    if v.pending.len() > 1 {
        assert(plain(v.pending[0]));
    }
}

/// Law: a run that is not over always has a next action, so it never gets stuck.
pub proof fn a_run_goes_on(config: DriverConfig, replies: Seq<DriverReply>)
    ensures
        DriverView::start(config).run(replies).is_over() <==> DriverView::start(config).run(
            replies,
        ).next_action() is None,
{
    lemma_reached(config, replies);
}

/// Law: a new backend starts closed and disarmed, so the first pass that sees output
/// desired runs the whole preparation for it, even if it was desired all along.
pub proof fn reconnect_starts_disarmed(v: DriverView, min: u32, max: u32, desired: DesiredState)
    requires
        v.pass is None,
        v.pending == seq![DriverAction::UpdatePpsBounds { min, max }],
        desired.armed(),
    ensures
        ({
            let w = v.next(DriverReply::Flag(true));
            &&& w.shutter == ShutterState::Closed
            &&& !w.handled.armed()
            &&& super::transition::entering(w.handled, desired, w.shutter, v.pps)
                == super::transition::rising(v.pps)
        }),
{
}

/// Law: a stop is answered by a close command, whatever is known of the shutter, and once
/// the device has replied to it the run is over as stopped.
pub proof fn a_stop_closes_and_ends(v: DriverView, reply: DriverReply, accepted: bool)
    requires
        v.pass is None,
        v.pending.len() > 0,
        asks_to_stop((v.pending[0], reply)),
    ensures
        ({
            let stopping = v.next(reply);
            let stopped = stopping.next(DriverReply::Command(accepted));
            &&& stopping.next_action() == Some(DriverAction::SetShutter(false))
            &&& stopped.is_over()
            &&& stopped.end == Some(DriverEnd::Session(SessionExit::Stopped))
            &&& stopped.shutter == super::transition::shutter_after_spec(false, accepted)
        }),
{
}

} // verus!
