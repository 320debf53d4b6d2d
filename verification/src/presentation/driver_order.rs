//! The order of the scheduler loop, told by what was performed so far.
//!
//! Nothing here speaks of the scripts that a driver keeps: what comes next is given by the
//! actions and replies that lie behind, with each action named as it stands.
use vstd::prelude::*;

use super::driver::{DriverAction, DriverConfig, DriverReply, DriverView, StepOutcome};
use super::driver_laws::PerformedByDriver;
use super::transition::{
    CheckPoint, OutputResetReason, ShutterState, TransitionAction, TransitionReply, TransitionView,
};
use super::transition_laws::Performed;
use crate::session::DesiredState;

verus! {

/// The rate that was read last.
pub open spec fn last_rate(done: PerformedByDriver) -> u32
    decreases done.len(),
{
    if done.len() == 0 {
        0
    } else {
        match done.last() {
            (DriverAction::ReadPps, DriverReply::Rate(pps)) => pps,
            _ => last_rate(done.drop_last()),
        }
    }
}

/// Whether output was desired when the loop last looked before a step.
pub open spec fn last_armed(done: PerformedByDriver) -> bool
    decreases done.len(),
{
    if done.len() == 0 {
        false
    } else {
        match done.last() {
            (DriverAction::ReadArmed, DriverReply::Flag(armed)) => armed,
            _ => last_armed(done.drop_last()),
        }
    }
}

/// When the last reconnect completed: what the clock read then.
pub open spec fn last_clock(done: PerformedByDriver) -> Option<u64>
    decreases done.len(),
{
    if done.len() == 0 {
        None
    } else {
        match done.last() {
            (DriverAction::ReadClock, DriverReply::Now(now)) => Some(now),
            _ => last_clock(done.drop_last()),
        }
    }
}

/// What the loop takes the shutter for: what its own last command, the last command of a
/// pass or the last step of the adapter left, and closed for a new backend.
pub open spec fn shutter_by(done: PerformedByDriver) -> ShutterState
    decreases done.len(),
{
    if done.len() == 0 {
        ShutterState::Closed
    } else {
        match done.last() {
            (DriverAction::Step { .. }, DriverReply::Stepped(_, shutter)) => shutter,
            (DriverAction::SetShutter(open), DriverReply::Command(accepted)) => if !accepted {
                ShutterState::Unknown
            } else if open {
                ShutterState::Open
            } else {
                ShutterState::Closed
            },
            (
                DriverAction::Transition(TransitionAction::SetShutter(open)),
                DriverReply::Transition(TransitionReply::Command(accepted)),
            ) => if !accepted {
                ShutterState::Unknown
            } else if open {
                ShutterState::Open
            } else {
                ShutterState::Closed
            },
            (
                DriverAction::UpdatePpsBounds { .. },
                DriverReply::Flag(true),
            ) => ShutterState::Closed,
            _ => shutter_by(done.drop_last()),
        }
    }
}

/// The state that the first look of the last pass showed.
pub open spec fn last_entry(done: PerformedByDriver) -> DesiredState
    decreases done.len(),
{
    if done.len() == 0 {
        DesiredState(0)
    } else {
        match done.last() {
            (
                DriverAction::Transition(TransitionAction::ReadDesired(CheckPoint::Entry)),
                DriverReply::Transition(TransitionReply::Desired(seen)),
            ) => seen,
            _ => last_entry(done.drop_last()),
        }
    }
}

/// The desired state that is handled: that of the last pass whose clean-up or preparation
/// came through, and none for a new backend.
pub open spec fn handled_by(done: PerformedByDriver) -> DesiredState
    decreases done.len(),
{
    if done.len() == 0 {
        DesiredState(0)
    } else {
        match done.last() {
            (
                DriverAction::Transition(TransitionAction::ReadDesired(CheckPoint::AfterFalling)),
                _,
            ) => last_entry(done),
            (
                DriverAction::Transition(TransitionAction::ResetDeviceBuffer),
                DriverReply::Transition(TransitionReply::Command(true)),
            ) => last_entry(done),
            (DriverAction::UpdatePpsBounds { .. }, DriverReply::Flag(true)) => DesiredState(0),
            _ => handled_by(done.drop_last()),
        }
    }
}

/// The start of an iteration.
pub open spec fn iteration() -> Seq<DriverAction> {
    seq![DriverAction::MarkLoopActivity, DriverAction::ReadStopRequested]
}

/// What a lost device leads to.
pub open spec fn search(config: DriverConfig, done: PerformedByDriver) -> Seq<DriverAction> {
    if config.reconnects {
        seq![
            DriverAction::SetConnectedMetric(false),
            DriverAction::FindBackend { last_reconnect_ns: last_clock(done) },
        ]
    } else {
        seq![]
    }
}

/// What follows once the source heard of the new backend.
pub open spec fn rejoin(config: DriverConfig) -> Seq<DriverAction> {
    if config.frame_source {
        seq![
            DriverAction::SetFrameCapacity,
            DriverAction::AdapterReconnected,
            DriverAction::NotifyReconnected,
            DriverAction::MarkLoopActivity,
            DriverAction::ReadStopRequested,
        ]
    } else {
        seq![
            DriverAction::AdapterReconnected,
            DriverAction::NotifyReconnected,
            DriverAction::MarkLoopActivity,
            DriverAction::ReadStopRequested,
        ]
    }
}

/// What the loop still has to do outside a pass, given what it did; nothing once it is over.
pub open spec fn still_due(config: DriverConfig, done: PerformedByDriver) -> Seq<DriverAction> {
    if done.len() == 0 {
        seq![DriverAction::SelectAdapter { frame_swap: config.frame_source }]
    } else {
        match done.last() {
            (DriverAction::SelectAdapter { .. }, reply) => if reply == DriverReply::Failure(None) {
                iteration()
            } else {
                seq![]
            },
            (DriverAction::MarkLoopActivity, _) => seq![DriverAction::ReadStopRequested],
            (DriverAction::ReadStopRequested, reply) => if reply == DriverReply::Flag(true) {
                seq![DriverAction::SetShutter(false)]
            } else {
                seq![DriverAction::ReadPps]
            },
            (DriverAction::ReadPps, _) => if config.has_frame_slot {
                seq![
                    DriverAction::ForwardColorDelay,
                    DriverAction::SubmitPendingFrame,
                    DriverAction::ReadConnected,
                ]
            } else {
                seq![DriverAction::ForwardColorDelay, DriverAction::ReadConnected]
            },
            (DriverAction::ForwardColorDelay, _) => if config.has_frame_slot {
                seq![DriverAction::SubmitPendingFrame, DriverAction::ReadConnected]
            } else {
                seq![DriverAction::ReadConnected]
            },
            (DriverAction::SubmitPendingFrame, _) => seq![DriverAction::ReadConnected],
            (DriverAction::ReadConnected, reply) => if reply == DriverReply::Flag(true) {
                seq![DriverAction::DrainControl]
            } else {
                search(config, done)
            },
            (DriverAction::DrainControl, reply) => if reply == DriverReply::Flag(true) {
                seq![DriverAction::SetShutter(false)]
            } else {
                seq![]
            },
            (DriverAction::Transition(action), _) => if action
                == TransitionAction::DisconnectBackend {
                search(config, done)
            } else {
                seq![DriverAction::ReadArmed]
            },
            (DriverAction::ReadArmed, _) => seq![
                DriverAction::Step { pps: last_rate(done), armed: last_armed(done) },
            ],
            (DriverAction::Step { .. }, DriverReply::Stepped(outcome, _)) => match outcome {
                StepOutcome::Stopped => seq![DriverAction::SetShutter(false)],
                StepOutcome::Disconnected => search(config, done),
                StepOutcome::Continue | StepOutcome::StateChanged => if config.frame_source {
                    iteration()
                } else {
                    seq![DriverAction::ReadEnded]
                },
            },
            (DriverAction::ReadEnded, reply) => if reply == DriverReply::Flag(true) {
                seq![DriverAction::TakeStopError]
            } else {
                iteration()
            },
            (DriverAction::TakeStopError, reply) => if reply == DriverReply::Failure(None) {
                seq![
                    DriverAction::DrainAndBlank { pps: last_rate(done), armed: last_armed(done) },
                ]
            } else {
                seq![DriverAction::SetShutter(false)]
            },
            (DriverAction::SetConnectedMetric(connected), _) => if connected {
                seq![DriverAction::SourceReconnected] + rejoin(config)
            } else {
                seq![DriverAction::FindBackend { last_reconnect_ns: last_clock(done) }]
            },
            (DriverAction::FindBackend { .. }, DriverReply::Found { min, max }) => seq![
                DriverAction::UpdatePpsBounds { min, max },
            ],
            (DriverAction::UpdatePpsBounds { .. }, reply) => if reply == DriverReply::Flag(true) {
                seq![DriverAction::InstallCandidate, DriverAction::ReadClock]
            } else {
                seq![DriverAction::DiscardCandidate]
            },
            (DriverAction::InstallCandidate, _) => seq![DriverAction::ReadClock],
            (DriverAction::ReadClock, _) => seq![
                DriverAction::SetConnectedMetric(true),
                DriverAction::SourceReconnected,
            ] + rejoin(config),
            (DriverAction::SourceReconnected, _) => rejoin(config),
            (DriverAction::SetFrameCapacity, _) => rejoin(config).skip(1),
            (DriverAction::AdapterReconnected, _) => seq![
                DriverAction::NotifyReconnected,
                DriverAction::MarkLoopActivity,
                DriverAction::ReadStopRequested,
            ],
            (DriverAction::NotifyReconnected, _) => iteration(),
            _ => seq![],
        }
    }
}

/// The last thing that was done started a pass or belongs to one.
pub open spec fn in_pass(done: PerformedByDriver) -> bool {
    done.len() > 0 && (done.last().0 is Transition || done.last() == (
        DriverAction::DrainControl,
        DriverReply::Flag(false),
    ))
}

/// The last things that were done are those of a pass that began with `handled` handled.
spec fn ends_in_pass(done: PerformedByDriver, part: Performed, handled: DesiredState) -> bool {
    let from = done.len() - part.len();
    &&& from > 0
    &&& done.take(from).last() == (DriverAction::DrainControl, DriverReply::Flag(false))
    &&& handled_by(done.take(from)) == handled
    &&& forall|j: int|
        #![trigger part[j]]
        0 <= j < part.len() ==> done[from + j] == (
            DriverAction::Transition(part[j].0),
            DriverReply::Transition(part[j].1),
        )
}

spec fn in_order(config: DriverConfig, v: DriverView, done: PerformedByDriver) -> bool {
    &&& v.config == config
    &&& v.pps == last_rate(done)
    &&& v.armed == last_armed(done)
    &&& v.last_reconnect_ns == last_clock(done)
    &&& match v.pass {
        Some(pass) => {
            &&& v.pending.len() == 0
            &&& pass.pending.len() > 0
            &&& in_pass(done)
            &&& done.last() == (DriverAction::DrainControl, DriverReply::Flag(false))
                ==> pass.pending[0] == TransitionAction::ReadDesired(CheckPoint::Entry)
            &&& pass.pps == last_rate(done)
            &&& pass.shutter == shutter_by(done)
            &&& pass.handled == handled_by(done)
            &&& pass.pending[0] == TransitionAction::ReadDesired(CheckPoint::Entry) || pass.desired
                == last_entry(done)
            &&& exists|inner: Seq<TransitionReply>|
                {
                    &&& pass == #[trigger] TransitionView::start(v.handled, v.shutter, v.pps).run(
                        inner,
                    )
                    &&& ends_in_pass(
                        done,
                        TransitionView::start(v.handled, v.shutter, v.pps).performed(inner),
                        v.handled,
                    )
                }
        },
        None => {
            &&& v.pending == still_due(config, done)
            &&& v.shutter == shutter_by(done)
            &&& v.handled == handled_by(done)
            &&& done.len() > 0 && done.last().0 is SetFrameCapacity ==> config.frame_source
            &&& done.len() > 0 ==> !(done.last() == (
                DriverAction::DrainControl,
                DriverReply::Flag(false),
            ))
            &&& done.len() > 0 ==> done.last().0.answered_by(done.last().1)
        },
    }
}

proof fn lemma_pass_grows(
    done: PerformedByDriver,
    part: Performed,
    handled: DesiredState,
    step: (TransitionAction, TransitionReply),
)
    requires
        ends_in_pass(done, part, handled),
    ensures
        ends_in_pass(
            done.push((DriverAction::Transition(step.0), DriverReply::Transition(step.1))),
            part.push(step),
            handled,
        ),
{
    let more = done.push((DriverAction::Transition(step.0), DriverReply::Transition(step.1)));
    let longer = part.push(step);
    let from = done.len() - part.len();
    assert(more.take(from) =~= done.take(from));
    assert forall|j: int|
        #![trigger longer[j]]
        0 <= j < longer.len() implies more[from + j] == (
        DriverAction::Transition(longer[j].0),
        DriverReply::Transition(longer[j].1),
    ) by {
        if j < part.len() {
            assert(longer[j] == part[j]);
        }
    }
}

proof fn lemma_in_pass(
    config: DriverConfig,
    v: DriverView,
    done: PerformedByDriver,
    reply: DriverReply,
)
    requires
        in_order(config, v, done),
        v.expects(reply),
        v.pass is Some,
    ensures
        in_order(config, v.next(reply), done.push((v.next_action()->0, reply))),
{
    let step = (v.next_action()->0, reply);
    let more = done.push(step);
    let w = v.next(reply);
    assert(more.drop_last() =~= done);
    assert(more.last() == step);
    let pass = v.pass->0;
    let answer = reply->Transition_0;
    let start = TransitionView::start(v.handled, v.shutter, v.pps);
    let inner = choose|inner: Seq<TransitionReply>|
        pass == #[trigger] start.run(inner) && ends_in_pass(
            done,
            start.performed(inner),
            v.handled,
        );
    let longer = inner.push(answer);
    assert(longer.drop_last() =~= inner);
    assert(start.run(longer) == pass.next(answer));
    assert(start.performed(longer) == start.performed(inner).push((pass.pending[0], answer)));
    lemma_pass_grows(done, start.performed(inner), v.handled, (pass.pending[0], answer));
    super::transition_order::lemma_entry_comes_first(v.handled, v.shutter, v.pps, longer);
    if w.pass is None {
        super::transition_laws::pass_ends_safely(v.handled, v.shutter, v.pps, longer);
        super::transition_order::only_a_failed_reset_disconnects(
            v.handled,
            v.shutter,
            v.pps,
            longer,
        );
        assert(start.performed(longer).last().0 == pass.pending[0]);
        assert(w.pending =~= still_due(config, more));
    }
}

proof fn lemma_look(config: DriverConfig, v: DriverView, done: PerformedByDriver, reply: DriverReply)
    requires
        in_order(config, v, done),
        v.expects(reply),
        v.pass is None,
        v.pending[0] is SelectAdapter || v.pending[0] is ReadStopRequested || v.pending[0]
            is ReadPps || v.pending[0] is ReadConnected || v.pending[0] is DrainControl,
    ensures
        in_order(config, v.next(reply), done.push((v.next_action()->0, reply))),
{
    let step = (v.next_action()->0, reply);
    let more = done.push(step);
    let w = v.next(reply);
    assert(more.drop_last() =~= done);
    assert(more.last() == step);
    if w.pass is Some {
        let start = TransitionView::start(v.handled, v.shutter, v.pps);
        let none = Seq::<TransitionReply>::empty();
        assert(start.run(none) == start);
        assert(more.take(more.len() as int) =~= more);
        assert(ends_in_pass(more, start.performed(none), v.handled));
    } else {
        assert(w.pending =~= still_due(config, more));
    }
}

proof fn lemma_output(
    config: DriverConfig,
    v: DriverView,
    done: PerformedByDriver,
    reply: DriverReply,
)
    requires
        in_order(config, v, done),
        v.expects(reply),
        v.pass is None,
        v.pending[0] is ReadArmed || v.pending[0] is Step || v.pending[0] is ReadEnded
            || v.pending[0] is TakeStopError || v.pending[0] is SetShutter,
    ensures
        in_order(config, v.next(reply), done.push((v.next_action()->0, reply))),
{
    let step = (v.next_action()->0, reply);
    let more = done.push(step);
    let w = v.next(reply);
    assert(more.drop_last() =~= done);
    assert(more.last() == step);
    if v.pending[0] is SetShutter {
        assert(v.pending.len() == 1);
    }
    assert(w.pending =~= still_due(config, more));
}

proof fn lemma_reconnect(
    config: DriverConfig,
    v: DriverView,
    done: PerformedByDriver,
    reply: DriverReply,
)
    requires
        in_order(config, v, done),
        v.expects(reply),
        v.pass is None,
        v.pending[0] is FindBackend || v.pending[0] is UpdatePpsBounds || v.pending[0] is ReadClock,
    ensures
        in_order(config, v.next(reply), done.push((v.next_action()->0, reply))),
{
    let step = (v.next_action()->0, reply);
    let more = done.push(step);
    let w = v.next(reply);
    assert(more.drop_last() =~= done);
    assert(more.last() == step);
    assert(w.pending =~= still_due(config, more));
}

proof fn lemma_plain(
    config: DriverConfig,
    v: DriverView,
    done: PerformedByDriver,
    reply: DriverReply,
)
    requires
        in_order(config, v, done),
        v.expects(reply),
        v.pass is None,
        reply is Done,
    ensures
        in_order(config, v.next(reply), done.push((v.next_action()->0, reply))),
{
    let step = (v.next_action()->0, reply);
    let more = done.push(step);
    let w = v.next(reply);
    assert(more.drop_last() =~= done);
    assert(more.last() == step);
    assert(w.pending == v.pending.drop_first());
    assert(w.pending =~= still_due(config, more));
}

proof fn lemma_order(config: DriverConfig, replies: Seq<DriverReply>)
    ensures
        in_order(
            config,
            DriverView::start(config).run(replies),
            DriverView::start(config).performed(replies),
        ),
    decreases replies.len(),
{
    let start = DriverView::start(config);
    if replies.len() > 0 {
        lemma_order(config, replies.drop_last());
        let v = start.run(replies.drop_last());
        let done = start.performed(replies.drop_last());
        if v.expects(replies.last()) {
            if v.pass is Some {
                lemma_in_pass(config, v, done, replies.last());
            } else {
                match v.pending[0] {
                    DriverAction::SelectAdapter { .. }
                    | DriverAction::ReadStopRequested
                    | DriverAction::ReadPps
                    | DriverAction::ReadConnected
                    | DriverAction::DrainControl => lemma_look(config, v, done, replies.last()),
                    DriverAction::ReadArmed
                    | DriverAction::Step { .. }
                    | DriverAction::ReadEnded
                    | DriverAction::TakeStopError
                    | DriverAction::SetShutter(_) => lemma_output(config, v, done, replies.last()),
                    DriverAction::FindBackend { .. }
                    | DriverAction::UpdatePpsBounds { .. }
                    | DriverAction::ReadClock => lemma_reconnect(config, v, done, replies.last()),
                    _ => lemma_plain(config, v, done, replies.last()),
                }
            }
        }
    } else {
        assert(start.pending =~= still_due(config, start.performed(replies)));
    }
}

/// Law: outside a pass, what the loop still has to do, what it takes the shutter for and which
/// desired state it has handled are given by what it did, as [`still_due`], [`shutter_by`] and
/// [`handled_by`] tell it action by action. A pass is under way once the control messages were
/// drained without a stop, and else only where the last action was one of a pass; it works with
/// the rate that was read last.
pub proof fn what_is_done_decides_what_is_due(config: DriverConfig, replies: Seq<DriverReply>)
    ensures
        ({
            let v = DriverView::start(config).run(replies);
            let done = DriverView::start(config).performed(replies);
            match v.pass {
                Some(pass) => {
                    &&& in_pass(done)
                    &&& pass.pps == last_rate(done)
                    &&& pass.shutter == shutter_by(done)
                    &&& pass.handled == handled_by(done)
                },
                None => {
                    &&& done.len() > 0 ==> done.last() != (
                        DriverAction::DrainControl,
                        DriverReply::Flag(false),
                    )
                    &&& v.pending == still_due(config, done)
                    &&& v.shutter == shutter_by(done)
                    &&& v.handled == handled_by(done)
                },
            }
        }),
{
    lemma_order(config, replies);
}

/// Law: what is done at any point of a run is what [`still_due`] names first for all that
/// lies before it; after the control messages were drained without a stop it is the first
/// look of a pass; within a pass it is an action of the pass, unless the pass is over.
pub proof fn each_action_was_due(config: DriverConfig, replies: Seq<DriverReply>, i: int)
    requires
        0 <= i < DriverView::start(config).performed(replies).len(),
    ensures
        ({
            let done = DriverView::start(config).performed(replies);
            let before = done.take(i);
            &&& done[i].0.answered_by(done[i].1)
            &&& !in_pass(before) ==> {
                &&& still_due(config, before).len() > 0
                &&& done[i].0 == still_due(config, before)[0]
            }
            &&& in_pass(before) ==> if before.last().0 is Transition {
                done[i].0 is Transition || (still_due(config, before).len() > 0 && done[i].0
                    == still_due(config, before)[0])
            } else {
                done[i].0 == DriverAction::Transition(
                    TransitionAction::ReadDesired(CheckPoint::Entry),
                )
            }
        }),
    decreases replies.len(),
{
    let start = DriverView::start(config);
    let done = start.performed(replies);
    let shorter = replies.drop_last();
    let earlier = start.performed(shorter);
    let v = start.run(shorter);
    lemma_order(config, shorter);
    if i < earlier.len() {
        each_action_was_due(config, shorter, i);
        assert(done.take(i) =~= earlier.take(i));
    } else {
        assert(done.take(i) =~= earlier);
        assert(done[i] == (v.next_action()->0, replies.last()));
    }
}

/// Law: in every iteration the source is fed between the look at the rate and the look at
/// the connection. The color delay is forwarded right after the rate was read; with a slot
/// for pending frames the frame in it is submitted next; then, and with nothing in between,
/// comes the look at the connection. Neither is done anywhere else.
pub proof fn every_iteration_feeds_the_source(
    config: DriverConfig,
    replies: Seq<DriverReply>,
    i: int,
)
    requires
        0 <= i < DriverView::start(config).performed(replies).len(),
    ensures
        ({
            let done = DriverView::start(config).performed(replies);
            &&& done[i].0 is ReadPps && config.has_frame_slot ==> {
                &&& i + 1 < done.len() ==> done[i + 1].0 == DriverAction::ForwardColorDelay
                &&& i + 2 < done.len() ==> done[i + 2].0 == DriverAction::SubmitPendingFrame
                &&& i + 3 < done.len() ==> done[i + 3].0 == DriverAction::ReadConnected
            }
            &&& done[i].0 is ReadPps && !config.has_frame_slot ==> {
                &&& i + 1 < done.len() ==> done[i + 1].0 == DriverAction::ForwardColorDelay
                &&& i + 2 < done.len() ==> done[i + 2].0 == DriverAction::ReadConnected
            }
            &&& done[i].0 is ForwardColorDelay ==> i >= 1 && done[i - 1].0 == DriverAction::ReadPps
            &&& done[i].0 is SubmitPendingFrame ==> {
                &&& config.has_frame_slot
                &&& i >= 2
                &&& done[i - 1].0 == DriverAction::ForwardColorDelay
                &&& done[i - 2].0 == DriverAction::ReadPps
            }
            &&& done[i].0 is ReadConnected && config.has_frame_slot ==> {
                &&& i >= 3
                &&& done[i - 1].0 == DriverAction::SubmitPendingFrame
                &&& done[i - 2].0 == DriverAction::ForwardColorDelay
                &&& done[i - 3].0 == DriverAction::ReadPps
            }
            &&& done[i].0 is ReadConnected && !config.has_frame_slot ==> {
                &&& i >= 2
                &&& done[i - 1].0 == DriverAction::ForwardColorDelay
                &&& done[i - 2].0 == DriverAction::ReadPps
            }
        }),
{
    lemma_forward(config, replies, i);
    if i + 1 < DriverView::start(config).performed(replies).len() {
        lemma_forward(config, replies, i + 1);
    }
    if i + 2 < DriverView::start(config).performed(replies).len() {
        lemma_forward(config, replies, i + 2);
    }
    lemma_back(config, replies, i);
    if i >= 1 {
        lemma_back(config, replies, i - 1);
    }
    if i >= 2 {
        lemma_back(config, replies, i - 2);
    }
}

/// What comes directly after, for the actions that are always followed by the same.
proof fn lemma_forward(config: DriverConfig, replies: Seq<DriverReply>, i: int)
    requires
        0 <= i < DriverView::start(config).performed(replies).len(),
    ensures
        ({
            let done = DriverView::start(config).performed(replies);
            i + 1 < done.len() ==> match done[i].0 {
                DriverAction::ReadPps => done[i + 1].0 == DriverAction::ForwardColorDelay,
                DriverAction::ForwardColorDelay => done[i + 1].0 == if config.has_frame_slot {
                    DriverAction::SubmitPendingFrame
                } else {
                    DriverAction::ReadConnected
                },
                DriverAction::SubmitPendingFrame => done[i + 1].0 == DriverAction::ReadConnected,
                DriverAction::UpdatePpsBounds { .. } => done[i + 1].0 == if done[i].1
                    == DriverReply::Flag(true) {
                    DriverAction::InstallCandidate
                } else {
                    DriverAction::DiscardCandidate
                },
                DriverAction::InstallCandidate => done[i + 1].0 == DriverAction::ReadClock,
                DriverAction::ReadClock => done[i + 1].0 == DriverAction::SetConnectedMetric(true),
                DriverAction::SetConnectedMetric(true) => done[i + 1].0
                    == DriverAction::SourceReconnected,
                DriverAction::SourceReconnected => done[i + 1].0 == if config.frame_source {
                    DriverAction::SetFrameCapacity
                } else {
                    DriverAction::AdapterReconnected
                },
                DriverAction::SetFrameCapacity => config.frame_source ==> done[i + 1].0
                    == DriverAction::AdapterReconnected,
                DriverAction::AdapterReconnected => done[i + 1].0
                    == DriverAction::NotifyReconnected,
                DriverAction::NotifyReconnected => done[i + 1].0 == DriverAction::MarkLoopActivity,
                DriverAction::MarkLoopActivity => done[i + 1].0 == DriverAction::ReadStopRequested,
                _ => true,
            }
        }),
{
    let done = DriverView::start(config).performed(replies);
    if i + 1 < done.len() {
        each_action_was_due(config, replies, i + 1);
        assert(done.take(i + 1).last() == done[i]);
    }
}

/// What stands directly before, for the actions that always follow the same.
proof fn lemma_back(config: DriverConfig, replies: Seq<DriverReply>, i: int)
    requires
        0 <= i < DriverView::start(config).performed(replies).len(),
    ensures
        ({
            let done = DriverView::start(config).performed(replies);
            match done[i].0 {
                DriverAction::ForwardColorDelay => i >= 1 && done[i - 1].0 == DriverAction::ReadPps,
                DriverAction::SubmitPendingFrame => config.has_frame_slot && i >= 1 && done[i
                    - 1].0 == DriverAction::ForwardColorDelay,
                DriverAction::ReadConnected => i >= 1 && done[i - 1].0 == if config.has_frame_slot {
                    DriverAction::SubmitPendingFrame
                } else {
                    DriverAction::ForwardColorDelay
                },
                DriverAction::DrainControl => i >= 1 && done[i - 1] == (
                    DriverAction::ReadConnected,
                    DriverReply::Flag(true),
                ),
                DriverAction::ReadArmed => i >= 1 && done[i - 1].0 is Transition,
                DriverAction::Step { pps, armed } => i >= 1 && done[i - 1] == (
                    DriverAction::ReadArmed,
                    DriverReply::Flag(armed),
                ) && pps == last_rate(done.take(i)),
                DriverAction::UpdatePpsBounds { min, max } => i >= 1 && done[i - 1].0 is FindBackend
                    && done[i - 1].1 == (DriverReply::Found { min, max }),
                DriverAction::InstallCandidate => i >= 1 && done[i - 1].0 is UpdatePpsBounds
                    && done[i - 1].1 == DriverReply::Flag(true),
                DriverAction::ReadClock => i >= 1 && done[i - 1].0
                    == DriverAction::InstallCandidate,
                DriverAction::SetConnectedMetric(true) => i >= 1 && done[i - 1].0
                    == DriverAction::ReadClock,
                DriverAction::SourceReconnected => i >= 1 && done[i - 1].0
                    == DriverAction::SetConnectedMetric(true),
                DriverAction::SetFrameCapacity => i >= 1 && done[i - 1].0
                    == DriverAction::SourceReconnected,
                DriverAction::AdapterReconnected => i >= 1 && done[i - 1].0
                    == if config.frame_source {
                    DriverAction::SetFrameCapacity
                } else {
                    DriverAction::SourceReconnected
                },
                DriverAction::NotifyReconnected => i >= 1 && done[i - 1].0
                    == DriverAction::AdapterReconnected,
                DriverAction::Transition(_) => i >= 1 && in_pass(done.take(i)),
                _ => true,
            }
        }),
{
    let done = DriverView::start(config).performed(replies);
    let before = done.take(i);
    each_action_was_due(config, replies, i);
    if i >= 1 {
        each_action_was_due(config, replies, i - 1);
        assert(before.last() == done[i - 1]);
        assert(before.drop_last() =~= done.take(i - 1));
        if i >= 2 {
            assert(done.take(i - 1).last() == done[i - 2]);
        }
    }
}

/// Law: an adapter step stands in one iteration with a pass, the drained control messages, a
/// connection that was found up and, with a slot for pending frames, the submission of the
/// frame in it: all of these lie before the step, in that order from the step backwards, and
/// between the submission and the step there is nothing but them. The step is told the rate
/// that was read last.
pub proof fn every_step_has_its_iteration_behind_it(
    config: DriverConfig,
    replies: Seq<DriverReply>,
    k: int,
) -> (j: int)
    requires
        0 <= k < DriverView::start(config).performed(replies).len(),
        DriverView::start(config).performed(replies)[k].0 is Step,
    ensures
        ({
            let done = DriverView::start(config).performed(replies);
            &&& 3 <= j <= k - 3
            &&& done[k - 1].0 == DriverAction::ReadArmed
            &&& forall|m: int| j < m < k - 1 ==> (#[trigger] done[m]).0 is Transition
            &&& done[j] == (DriverAction::DrainControl, DriverReply::Flag(false))
            &&& done[j - 1] == (DriverAction::ReadConnected, DriverReply::Flag(true))
            &&& config.has_frame_slot ==> {
                &&& j >= 4
                &&& done[j - 2].0 == DriverAction::SubmitPendingFrame
                &&& done[j - 3].0 == DriverAction::ForwardColorDelay
                &&& done[j - 4] == (DriverAction::ReadPps, DriverReply::Rate(done[k].0->Step_pps))
            }
            &&& !config.has_frame_slot ==> {
                &&& done[j - 2].0 == DriverAction::ForwardColorDelay
                &&& done[j - 3] == (DriverAction::ReadPps, DriverReply::Rate(done[k].0->Step_pps))
            }
        }),
{
    let done = DriverView::start(config).performed(replies);
    lemma_back(config, replies, k);
    lemma_back(config, replies, k - 1);
    let j = lemma_pass_start(config, replies, k - 2);
    lemma_back(config, replies, j);
    every_iteration_feeds_the_source(config, replies, j - 1);
    let r = if config.has_frame_slot {
        j - 4
    } else {
        j - 3
    };
    each_action_was_due(config, replies, r);
    lemma_rate_stays(done, r, k);
    j
}

/// Where the pass began that an action belongs to.
proof fn lemma_pass_start(config: DriverConfig, replies: Seq<DriverReply>, k: int) -> (j: int)
    requires
        0 <= k < DriverView::start(config).performed(replies).len(),
        DriverView::start(config).performed(replies)[k].0 is Transition,
    ensures
        ({
            let done = DriverView::start(config).performed(replies);
            &&& 0 <= j < k
            &&& done[j] == (DriverAction::DrainControl, DriverReply::Flag(false))
            &&& forall|m: int| j < m <= k ==> (#[trigger] done[m]).0 is Transition
        }),
    decreases k,
{
    let done = DriverView::start(config).performed(replies);
    lemma_back(config, replies, k);
    assert(done.take(k).last() == done[k - 1]);
    if done[k - 1].0 is Transition {
        lemma_pass_start(config, replies, k - 1)
    } else {
        k - 1
    }
}

proof fn lemma_rate_stays(done: PerformedByDriver, r: int, k: int)
    requires
        0 <= r < k <= done.len(),
        done[r].0 is ReadPps && done[r].1 is Rate,
        forall|m: int| r < m < k ==> !((#[trigger] done[m]).0 is ReadPps),
    ensures
        done[r].1 == DriverReply::Rate(last_rate(done.take(k))),
    decreases k,
{
    assert(done.take(k).last() == done[k - 1]);
    assert(done.take(k).drop_last() =~= done.take(k - 1));
    if r < k - 1 {
        lemma_rate_stays(done, r, k - 1);
    }
}

/// Law: once the session control accepted the rate range of a new backend, and whatever the
/// kind of the session, that backend is put in the place of the lost one directly; then the
/// clock is read, the metrics are told that the device is connected, and the source, the
/// adapter and the user are told of the new backend, with the frame capacity handed to a
/// frame source before the adapter hears of it. Only then does the next iteration begin.
pub proof fn an_accepted_backend_is_installed_and_announced(
    config: DriverConfig,
    replies: Seq<DriverReply>,
    i: int,
)
    requires
        0 <= i < DriverView::start(config).performed(replies).len(),
        DriverView::start(config).performed(replies)[i].0 is UpdatePpsBounds,
        DriverView::start(config).performed(replies)[i].1 == DriverReply::Flag(true),
    ensures
        ({
            let done = DriverView::start(config).performed(replies);
            let n = done.len();
            &&& i + 1 < n ==> done[i + 1].0 == DriverAction::InstallCandidate
            &&& i + 2 < n ==> done[i + 2].0 == DriverAction::ReadClock
            &&& i + 3 < n ==> done[i + 3].0 == DriverAction::SetConnectedMetric(true)
            &&& i + 4 < n ==> done[i + 4].0 == DriverAction::SourceReconnected
            &&& config.frame_source ==> {
                &&& i + 5 < n ==> done[i + 5].0 == DriverAction::SetFrameCapacity
                &&& i + 6 < n ==> done[i + 6].0 == DriverAction::AdapterReconnected
                &&& i + 7 < n ==> done[i + 7].0 == DriverAction::NotifyReconnected
                &&& i + 8 < n ==> done[i + 8].0 == DriverAction::MarkLoopActivity
                &&& i + 9 < n ==> done[i + 9].0 == DriverAction::ReadStopRequested
            }
            &&& !config.frame_source ==> {
                &&& i + 5 < n ==> done[i + 5].0 == DriverAction::AdapterReconnected
                &&& i + 6 < n ==> done[i + 6].0 == DriverAction::NotifyReconnected
                &&& i + 7 < n ==> done[i + 7].0 == DriverAction::MarkLoopActivity
                &&& i + 8 < n ==> done[i + 8].0 == DriverAction::ReadStopRequested
            }
        }),
{
    let n = DriverView::start(config).performed(replies).len();
    lemma_forward(config, replies, i);
    if i + 1 < n {
        lemma_forward(config, replies, i + 1);
    }
    if i + 2 < n {
        lemma_forward(config, replies, i + 2);
    }
    if i + 3 < n {
        lemma_forward(config, replies, i + 3);
    }
    if i + 4 < n {
        lemma_forward(config, replies, i + 4);
    }
    if i + 5 < n {
        lemma_forward(config, replies, i + 5);
    }
    if i + 6 < n {
        lemma_forward(config, replies, i + 6);
    }
    if i + 7 < n {
        lemma_forward(config, replies, i + 7);
    }
    if i + 8 < n {
        lemma_forward(config, replies, i + 8);
    }
}

/// Law: the source is told of a reconnect only when directly before it, and all since the
/// search that found the backend, its rate range was offered to the session control and
/// accepted, it was put in the place of the lost one, the clock was read and the metrics were
/// told. The adapter and the user are told only after the source.
pub proof fn a_reconnect_is_announced_only_for_an_installed_backend(
    config: DriverConfig,
    replies: Seq<DriverReply>,
    k: int,
)
    requires
        0 <= k < DriverView::start(config).performed(replies).len(),
    ensures
        ({
            let done = DriverView::start(config).performed(replies);
            &&& done[k].0 is SourceReconnected ==> {
                &&& k >= 5
                &&& done[k - 1].0 == DriverAction::SetConnectedMetric(true)
                &&& done[k - 2].0 == DriverAction::ReadClock
                &&& done[k - 3].0 == DriverAction::InstallCandidate
                &&& done[k - 4].0 is UpdatePpsBounds
                &&& done[k - 4].1 == DriverReply::Flag(true)
                &&& done[k - 5].0 is FindBackend
                &&& done[k - 5].1 == (DriverReply::Found {
                    min: done[k - 4].0->UpdatePpsBounds_min,
                    max: done[k - 4].0->UpdatePpsBounds_max,
                })
            }
            &&& done[k].0 is InstallCandidate ==> {
                &&& k >= 2
                &&& done[k - 1].0 is UpdatePpsBounds
                &&& done[k - 1].1 == DriverReply::Flag(true)
                &&& done[k - 2].0 is FindBackend
            }
            &&& done[k].0 is AdapterReconnected ==> {
                &&& k >= 2
                &&& config.frame_source ==> done[k - 1].0 == DriverAction::SetFrameCapacity && done[k
                    - 2].0 == DriverAction::SourceReconnected
                &&& !config.frame_source ==> done[k - 1].0 == DriverAction::SourceReconnected
            }
            &&& done[k].0 is NotifyReconnected ==> k >= 1 && done[k - 1].0
                == DriverAction::AdapterReconnected
        }),
{
    lemma_back(config, replies, k);
    if k >= 1 {
        lemma_back(config, replies, k - 1);
    }
    if k >= 2 {
        lemma_back(config, replies, k - 2);
    }
    if k >= 3 {
        lemma_back(config, replies, k - 3);
    }
    if k >= 4 {
        lemma_back(config, replies, k - 4);
    }
}

/// Law: in every run, whatever the configuration and the replies, a command that opens the
/// shutter follows directly on a look that shows the state which the first look of the pass
/// showed, with output desired. Before that look stands either that first look itself, and then
/// the state was handled before; or, one after the other and with nothing in between, the drop
/// of retained output, the notice to the adapter that output starts, the startup blanking for
/// exactly the rate that was read last, the reset of the output filter for an arm, and the
/// device queue cleared with success.
pub proof fn a_run_opens_only_what_is_prepared(
    config: DriverConfig,
    replies: Seq<DriverReply>,
    k: int,
)
    requires
        0 <= k < DriverView::start(config).performed(replies).len(),
        DriverView::start(config).performed(replies)[k].0 == DriverAction::Transition(
            TransitionAction::SetShutter(true),
        ),
    ensures
        ({
            let done = DriverView::start(config).performed(replies);
            let desired = last_entry(done.take(k));
            &&& desired.0 % 2 == 1
            &&& k >= 2
            &&& done[k - 1] == (
                DriverAction::Transition(TransitionAction::ReadDesired(CheckPoint::BeforeOpen)),
                DriverReply::Transition(TransitionReply::Desired(desired)),
            )
            &&& {
                ||| done[k - 2] == (
                    DriverAction::Transition(TransitionAction::ReadDesired(CheckPoint::Entry)),
                    DriverReply::Transition(TransitionReply::Desired(desired)),
                ) && handled_by(done.take(k - 2)) == desired
                ||| {
                    &&& k >= 6
                    &&& done[k - 6] == (
                        DriverAction::Transition(TransitionAction::DiscardCached),
                        DriverReply::Transition(TransitionReply::Done),
                    )
                    &&& done[k - 5] == (
                        DriverAction::Transition(TransitionAction::AdapterStateChange(true)),
                        DriverReply::Transition(TransitionReply::Done),
                    )
                    &&& done[k - 4] == (
                        DriverAction::Transition(
                            TransitionAction::ArmStartupBlank(last_rate(done.take(k))),
                        ),
                        DriverReply::Transition(TransitionReply::Done),
                    )
                    &&& done[k - 3] == (
                        DriverAction::Transition(
                            TransitionAction::ResetOutputFilter(OutputResetReason::Arm),
                        ),
                        DriverReply::Transition(TransitionReply::Done),
                    )
                    &&& done[k - 2] == (
                        DriverAction::Transition(TransitionAction::ResetDeviceBuffer),
                        DriverReply::Transition(TransitionReply::Command(true)),
                    )
                }
            }
        }),
    decreases replies.len(),
{
    let whole = DriverView::start(config);
    let shorter = replies.drop_last();
    let earlier = whole.performed(shorter);
    let done = whole.performed(replies);
    if k < earlier.len() {
        a_run_opens_only_what_is_prepared(config, shorter, k);
        assert(done.take(k) =~= earlier.take(k));
        assert(done.take(k - 2) =~= earlier.take(k - 2));
    } else {
        let v = whole.run(shorter);
        lemma_order(config, shorter);
        assert(done.take(k) =~= earlier);
        lemma_due_outside(config, earlier);
        let pass = v.pass->0;
        let start = TransitionView::start(v.handled, v.shutter, v.pps);
        let inner = choose|inner: Seq<TransitionReply>|
            pass == #[trigger] start.run(inner) && ends_in_pass(
                earlier,
                start.performed(inner),
                v.handled,
            );
        let part = start.performed(inner);
        let n = part.len() as int;
        let answer = TransitionReply::Command(true);
        let longer = inner.push(answer);
        assert(longer.drop_last() =~= inner);
        let all = start.performed(longer);
        assert(all == part.push((TransitionAction::SetShutter(true), answer)));
        super::transition_order::an_open_follows_each_part_of_the_preparation(
            v.handled,
            v.shutter,
            v.pps,
            longer,
            n,
        );
        super::transition_order::what_is_done_decides_what_is_due(
            v.handled,
            v.shutter,
            v.pps,
            inner,
        );
        let desired = super::transition_order::first_look(v.handled, all);
        assert(all[n - 1] == part[n - 1]);
        assert(earlier[k - 1] == (
            DriverAction::Transition(part[n - 1].0),
            DriverReply::Transition(part[n - 1].1),
        ));
        assert(part[0] == all[0]);
        assert(pass.desired == desired);
        if desired != v.handled {
            assert(part[n - 2] == all[n - 2] && part[n - 3] == all[n - 3] && part[n - 4] == all[n
                - 4] && part[n - 5] == all[n - 5] && part[n - 6] == all[n - 6]);
        } else {
            super::transition_order::a_handled_state_is_opened_at_once(
                v.handled,
                v.shutter,
                v.pps,
                longer,
                n,
            );
            assert(part[n - 2] == all[n - 2]);
            assert(earlier.take(k - 2) == done.take(k - 2));
        }
    }
}

/// Outside a pass nothing that is due belongs to one.
proof fn lemma_due_outside(config: DriverConfig, done: PerformedByDriver)
    ensures
        still_due(config, done).len() > 0 ==> !(still_due(config, done)[0] is Transition),
{
}

} // verus!
