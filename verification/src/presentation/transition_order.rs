//! The order of a transition pass, told by what was performed so far.
//!
//! Nothing here speaks of the scripts that a pass keeps: what comes next is given by the
//! actions and replies that lie behind, with each action named as it stands.
use vstd::prelude::*;

use super::transition::{
    CheckPoint, OutputResetReason, ShutterState, TransitionAction, TransitionOutcome,
    TransitionReply, TransitionView,
};
use super::transition_laws::Performed;
use crate::session::DesiredState;

verus! {

/// The state that the first look showed; what was handled, before that look.
pub open spec fn first_look(handled: DesiredState, done: Performed) -> DesiredState {
    if done.len() > 0 && done[0].1 is Desired {
        done[0].1->Desired_0
    } else {
        handled
    }
}

/// What the last command says of the shutter: where it was accepted, it went where it was
/// told; where not, nothing is known.
pub open spec fn known_shutter(shutter: ShutterState, done: Performed) -> ShutterState
    decreases done.len(),
{
    if done.len() == 0 {
        shutter
    } else {
        match done.last() {
            (TransitionAction::SetShutter(true), TransitionReply::Command(true)) => ShutterState::Open,
            (
                TransitionAction::SetShutter(false),
                TransitionReply::Command(true),
            ) => ShutterState::Closed,
            (TransitionAction::SetShutter(_), _) => ShutterState::Unknown,
            _ => known_shutter(shutter, done.drop_last()),
        }
    }
}

/// An action was performed.
pub open spec fn did(done: Performed, action: TransitionAction) -> bool
    decreases done.len(),
{
    done.len() > 0 && (done.last().0 == action || did(done.drop_last(), action))
}

/// The clean-up is due and has not yet reached the source.
pub open spec fn clean_up_under_way(handled: DesiredState, done: Performed) -> bool {
    let desired = first_look(handled, done);
    desired != handled && (handled.0 % 2 == 1 || desired.0 % 2 == 0) && !did(
        done,
        TransitionAction::SourceDisarm,
    )
}

/// All that is to come of a clean-up, from the drop of retained output on.
pub open spec fn clean_up() -> Seq<TransitionAction> {
    seq![
        TransitionAction::DiscardCached,
        TransitionAction::AdapterStateChange(false),
        TransitionAction::SourceDisarm,
        TransitionAction::ResetOutputFilter(OutputResetReason::Disarm),
        TransitionAction::ReadDesired(CheckPoint::AfterFalling),
    ]
}

/// All that is to come of a preparation.
pub open spec fn preparation(pps: u32) -> Seq<TransitionAction> {
    seq![
        TransitionAction::DiscardCached,
        TransitionAction::AdapterStateChange(true),
        TransitionAction::ArmStartupBlank(pps),
        TransitionAction::ResetOutputFilter(OutputResetReason::Arm),
        TransitionAction::ResetDeviceBuffer,
    ]
}

/// A close command, unless the shutter is known to be closed.
pub open spec fn closing(shutter: ShutterState) -> Seq<TransitionAction> {
    if shutter == ShutterState::Closed {
        seq![]
    } else {
        seq![TransitionAction::SetShutter(false)]
    }
}

/// What a pass still has to do, given what it did.
pub open spec fn still_due(
    handled: DesiredState,
    shutter: ShutterState,
    pps: u32,
    done: Performed,
) -> Seq<TransitionAction> {
    let desired = first_look(handled, done);
    let wanted = desired.0 % 2 == 1;
    let known = known_shutter(shutter, done);
    if done.len() == 0 {
        seq![TransitionAction::ReadDesired(CheckPoint::Entry)]
    } else {
        match done.last() {
            (TransitionAction::ReadDesired(CheckPoint::Entry), _) => if desired == handled {
                if wanted {
                    seq![TransitionAction::ReadDesired(CheckPoint::BeforeOpen)]
                } else {
                    closing(shutter)
                }
            } else if handled.0 % 2 == 1 || !wanted {
                closing(shutter) + clean_up()
            } else {
                preparation(pps)
            },
            (TransitionAction::DiscardCached, _) => if clean_up_under_way(handled, done) {
                clean_up().skip(1)
            } else {
                preparation(pps).skip(1)
            },
            (TransitionAction::AdapterStateChange(starts), _) => if starts {
                preparation(pps).skip(2)
            } else {
                clean_up().skip(2)
            },
            (TransitionAction::SourceDisarm, _) => clean_up().skip(3),
            (TransitionAction::ArmStartupBlank(_), _) => preparation(pps).skip(3),
            (TransitionAction::ResetOutputFilter(OutputResetReason::Disarm), _) => clean_up().skip(4),
            (TransitionAction::ResetOutputFilter(OutputResetReason::Arm), _) => preparation(
                pps,
            ).skip(4),
            (
                TransitionAction::ReadDesired(CheckPoint::AfterFalling),
                reply,
            ) => if reply != TransitionReply::Desired(desired) {
                seq![]
            } else if wanted {
                preparation(pps)
            } else {
                closing(known)
            },
            (TransitionAction::ResetDeviceBuffer, reply) => if reply == TransitionReply::Command(
                true,
            ) {
                seq![TransitionAction::ReadDesired(CheckPoint::BeforeOpen)]
            } else {
                seq![TransitionAction::SetShutter(false), TransitionAction::DisconnectBackend]
            },
            (
                TransitionAction::ReadDesired(CheckPoint::BeforeOpen),
                reply,
            ) => if reply != TransitionReply::Desired(desired) {
                seq![]
            } else if known == ShutterState::Open {
                seq![TransitionAction::ReadDesired(CheckPoint::AfterOpen)]
            } else {
                seq![
                    TransitionAction::SetShutter(true),
                    TransitionAction::ReadDesired(CheckPoint::AfterOpen),
                ]
            },
            (TransitionAction::SetShutter(true), _) => seq![
                TransitionAction::ReadDesired(CheckPoint::AfterOpen),
            ],
            (
                TransitionAction::ReadDesired(CheckPoint::AfterOpen),
                reply,
            ) => if reply == TransitionReply::Desired(desired) {
                seq![]
            } else {
                seq![TransitionAction::SetShutter(false)]
            },
            (TransitionAction::SetShutter(false), _) => if clean_up_under_way(handled, done) {
                clean_up()
            } else if did(done, TransitionAction::ResetDeviceBuffer) && !did(
                done,
                TransitionAction::ReadDesired(CheckPoint::BeforeOpen),
            ) {
                seq![TransitionAction::DisconnectBackend]
            } else {
                seq![]
            },
            (TransitionAction::DisconnectBackend, _) => seq![],
        }
    }
}

/// The desired state that is handled, given what was done: the one of the first look, once
/// the clean-up is over or the device queue was cleared for it.
pub open spec fn handled_by(handled: DesiredState, done: Performed) -> DesiredState {
    if did(done, TransitionAction::ReadDesired(CheckPoint::AfterFalling)) || did(
        done,
        TransitionAction::ReadDesired(CheckPoint::BeforeOpen),
    ) || (done.len() > 0 && done.last() == (
        TransitionAction::ResetDeviceBuffer,
        TransitionReply::Command(true),
    )) {
        first_look(handled, done)
    } else {
        handled
    }
}

/// The device queue could not be cleared.
pub open spec fn failed_reset(done: Performed) -> bool
    decreases done.len(),
{
    done.len() > 0 && (done.last() == (
        TransitionAction::ResetDeviceBuffer,
        TransitionReply::Command(false),
    ) || failed_reset(done.drop_last()))
}

/// Law: what a pass still has to do, what it takes the shutter for, which state it works
/// towards and which it has handled are given by what it did, as [`still_due`],
/// [`known_shutter`], [`first_look`] and [`handled_by`] tell it action by action.
pub proof fn what_is_done_decides_what_is_due(
    handled: DesiredState,
    shutter: ShutterState,
    pps: u32,
    replies: Seq<TransitionReply>,
)
    ensures
        ({
            let v = TransitionView::start(handled, shutter, pps).run(replies);
            let done = TransitionView::start(handled, shutter, pps).performed(replies);
            &&& v.pending == still_due(handled, shutter, pps, done)
            &&& v.shutter == known_shutter(shutter, done)
            &&& v.desired == first_look(handled, done)
            &&& v.handled == handled_by(handled, done)
            &&& v.outcome == TransitionOutcome::Disconnected <==> failed_reset(done)
        }),
{
    lemma_order(handled, shutter, pps, replies);
}

/// Law: what is done at any point of a pass is what [`still_due`] names first for all that
/// lies before it.
pub proof fn each_action_was_due(
    handled: DesiredState,
    shutter: ShutterState,
    pps: u32,
    replies: Seq<TransitionReply>,
    i: int,
)
    requires
        0 <= i < TransitionView::start(handled, shutter, pps).performed(replies).len(),
    ensures
        ({
            let done = TransitionView::start(handled, shutter, pps).performed(replies);
            let due = still_due(handled, shutter, pps, done.take(i));
            due.len() > 0 && done[i].0 == due[0]
        }),
    decreases replies.len(),
{
    let start = TransitionView::start(handled, shutter, pps);
    let done = start.performed(replies);
    let shorter = replies.drop_last();
    let earlier = start.performed(shorter);
    lemma_order(handled, shutter, pps, shorter);
    if i < earlier.len() {
        each_action_was_due(handled, shutter, pps, shorter, i);
        assert(done.take(i) =~= earlier.take(i));
    } else {
        assert(done.take(i) =~= earlier);
        assert(done[i] == (start.run(shorter).pending[0], replies.last()));
    }
}

/// Law: the backend is disconnected only in a pass that ends as disconnected, because the
/// device queue could not be cleared.
pub proof fn only_a_failed_reset_disconnects(
    handled: DesiredState,
    shutter: ShutterState,
    pps: u32,
    replies: Seq<TransitionReply>,
)
    ensures
        ({
            let v = TransitionView::start(handled, shutter, pps).run(replies);
            let done = TransitionView::start(handled, shutter, pps).performed(replies);
            did(done, TransitionAction::DisconnectBackend) ==> failed_reset(done) && v.outcome
                == TransitionOutcome::Disconnected
        }),
{
    lemma_order(handled, shutter, pps, replies);
}

/// The first action of a pass is its first look, and there is no other of that kind.
pub proof fn lemma_entry_comes_first(
    handled: DesiredState,
    shutter: ShutterState,
    pps: u32,
    replies: Seq<TransitionReply>,
)
    ensures
        ({
            let v = TransitionView::start(handled, shutter, pps).run(replies);
            let done = TransitionView::start(handled, shutter, pps).performed(replies);
            &&& v.pps == pps
            &&& done.len() > 0 && v.pending.len() > 0 ==> v.pending[0]
                != TransitionAction::ReadDesired(CheckPoint::Entry)
        }),
{
    lemma_order(handled, shutter, pps, replies);
}

/// Law: before each command that opens the shutter for a state that was not handled already,
/// there stand, one after the other and with nothing in between, the drop of retained output,
/// the notice to the adapter that output starts, the startup blanking for exactly the rate of
/// the pass, the reset of the output filter for an arm, the device queue cleared with
/// success, and a look that still shows the state that the first look showed. For a state
/// that was handled already, that look alone stands there.
pub proof fn an_open_follows_each_part_of_the_preparation(
    handled: DesiredState,
    shutter: ShutterState,
    pps: u32,
    replies: Seq<TransitionReply>,
    k: int,
)
    requires
        0 <= k < TransitionView::start(handled, shutter, pps).performed(replies).len(),
        TransitionView::start(handled, shutter, pps).performed(replies)[k].0
            == TransitionAction::SetShutter(true),
    ensures
        ({
            let done = TransitionView::start(handled, shutter, pps).performed(replies);
            let desired = first_look(handled, done);
            &&& desired.0 % 2 == 1
            &&& k >= 2
            &&& done[k - 1] == (
                TransitionAction::ReadDesired(CheckPoint::BeforeOpen),
                TransitionReply::Desired(desired),
            )
            &&& desired != handled ==> {
                &&& k >= 7
                &&& done[k - 6] == (TransitionAction::DiscardCached, TransitionReply::Done)
                &&& done[k - 5] == (
                    TransitionAction::AdapterStateChange(true),
                    TransitionReply::Done,
                )
                &&& done[k - 4] == (TransitionAction::ArmStartupBlank(pps), TransitionReply::Done)
                &&& done[k - 3] == (
                    TransitionAction::ResetOutputFilter(OutputResetReason::Arm),
                    TransitionReply::Done,
                )
                &&& done[k - 2] == (
                    TransitionAction::ResetDeviceBuffer,
                    TransitionReply::Command(true),
                )
            }
        }),
{
    let done = TransitionView::start(handled, shutter, pps).performed(replies);
    lemma_order(handled, shutter, pps, replies);
    super::transition_laws::an_open_stands_after_the_preparation(handled, shutter, pps, replies, k);
    lemma_answered(handled, shutter, pps, replies);
    if k == 1 {
        assert(done[0].0 == TransitionAction::ReadDesired(CheckPoint::Entry));
    }
    if first_look(handled, done) != handled {
        let upto = done.take(k - 1);
        assert(upto.len() == k - 1);
        assert(super::transition_laws::ends_in_preparation(upto, pps, 5));
        assert(super::transition_laws::prepared(upto, pps));
        assert(upto[upto.len() - 5 + 0].0 == super::transition::rising(pps)[0]);
        assert(upto[upto.len() - 5 + 1].0 == super::transition::rising(pps)[1]);
        assert(upto[upto.len() - 5 + 2].0 == super::transition::rising(pps)[2]);
        assert(upto[upto.len() - 5 + 3].0 == super::transition::rising(pps)[3]);
        assert(upto[upto.len() - 5 + 4].0 == super::transition::rising(pps)[4]);
        assert(done[k - 6].0 != TransitionAction::ReadDesired(CheckPoint::Entry));
    }
}

/// Law: for a state that was handled already, the command that opens the shutter is the third
/// thing that a pass does, after its first look and the look before opening.
pub proof fn a_handled_state_is_opened_at_once(
    handled: DesiredState,
    shutter: ShutterState,
    pps: u32,
    replies: Seq<TransitionReply>,
    k: int,
)
    requires
        0 <= k < TransitionView::start(handled, shutter, pps).performed(replies).len(),
        TransitionView::start(handled, shutter, pps).performed(replies)[k].0
            == TransitionAction::SetShutter(true),
        first_look(handled, TransitionView::start(handled, shutter, pps).performed(replies))
            == handled,
    ensures
        ({
            let done = TransitionView::start(handled, shutter, pps).performed(replies);
            &&& k == 2
            &&& done[0] == (
                TransitionAction::ReadDesired(CheckPoint::Entry),
                TransitionReply::Desired(handled),
            )
            &&& done[1] == (
                TransitionAction::ReadDesired(CheckPoint::BeforeOpen),
                TransitionReply::Desired(handled),
            )
        }),
{
    let done = TransitionView::start(handled, shutter, pps).performed(replies);
    an_open_follows_each_part_of_the_preparation(handled, shutter, pps, replies, k);
    lemma_look_before_opening(handled, shutter, pps, replies, k - 1);
    lemma_order(handled, shutter, pps, replies);
    assert(done[0].1 == TransitionReply::Desired(handled));
}

proof fn lemma_look_before_opening(
    handled: DesiredState,
    shutter: ShutterState,
    pps: u32,
    replies: Seq<TransitionReply>,
    i: int,
)
    requires
        0 <= i < TransitionView::start(handled, shutter, pps).performed(replies).len(),
        TransitionView::start(handled, shutter, pps).performed(replies)[i].0
            == TransitionAction::ReadDesired(CheckPoint::BeforeOpen),
        first_look(handled, TransitionView::start(handled, shutter, pps).performed(replies))
            == handled,
    ensures
        i == 1,
    decreases replies.len(),
{
    let start = TransitionView::start(handled, shutter, pps);
    let done = start.performed(replies);
    let shorter = replies.drop_last();
    let earlier = start.performed(shorter);
    lemma_order(handled, shutter, pps, shorter);
    if earlier.len() > 0 {
        assert(earlier[0] == done[0]);
    }
    if i < earlier.len() {
        assert(earlier[i] == done[i]);
        lemma_look_before_opening(handled, shutter, pps, shorter, i);
    } else {
        assert(done[i].0 == start.run(shorter).pending[0]);
    }
}

proof fn lemma_answered(
    handled: DesiredState,
    shutter: ShutterState,
    pps: u32,
    replies: Seq<TransitionReply>,
)
    ensures
        ({
            let done = TransitionView::start(handled, shutter, pps).performed(replies);
            forall|i: int|
                0 <= i < done.len() ==> (#[trigger] done[i]).0.answered_by(done[i].1)
        }),
    decreases replies.len(),
{
    let start = TransitionView::start(handled, shutter, pps);
    if replies.len() > 0 {
        lemma_answered(handled, shutter, pps, replies.drop_last());
        let before = start.run(replies.drop_last());
        let earlier = start.performed(replies.drop_last());
        let done = start.performed(replies);
        assert forall|i: int| 0 <= i < done.len() implies (#[trigger] done[i]).0.answered_by(
            done[i].1,
        ) by {
            if i < earlier.len() {
                assert(done[i] == earlier[i]);
            } else {
                assert(done[i] == (before.pending[0], replies.last()));
            }
        }
    }
}

/// A preparation is called for, and what it must follow is over.
spec fn may_prepare(handled: DesiredState, done: Performed) -> bool {
    let desired = first_look(handled, done);
    desired != handled && desired.0 % 2 == 1 && (handled.0 % 2 == 1 ==> did(
        done,
        TransitionAction::SourceDisarm,
    ))
}

/// What the actions so far say of each other.
spec fn coherent(handled: DesiredState, done: Performed) -> bool {
    let desired = first_look(handled, done);
    let cleans = desired != handled && (handled.0 % 2 == 1 || desired.0 % 2 == 0);
    &&& done.len() > 0 ==> done[0].0 == TransitionAction::ReadDesired(CheckPoint::Entry)
        && done[0].1 is Desired
    &&& done.len() > 1 ==> done.last().0 != TransitionAction::ReadDesired(CheckPoint::Entry)
    &&& did(done, TransitionAction::SourceDisarm) ==> cleans
    &&& did(done, TransitionAction::ReadDesired(CheckPoint::AfterFalling)) ==> did(
        done,
        TransitionAction::SourceDisarm,
    )
    &&& did(done, TransitionAction::ResetDeviceBuffer) ==> may_prepare(handled, done)
    &&& did(done, TransitionAction::ReadDesired(CheckPoint::BeforeOpen)) ==> desired.0 % 2 == 1 && (
    desired == handled || may_prepare(handled, done)) && !failed_reset(done) && (done.last().0
        is SetShutter || done.last().0 == TransitionAction::ReadDesired(CheckPoint::BeforeOpen)
        || done.last().0 == TransitionAction::ReadDesired(CheckPoint::AfterOpen))
    &&& did(done, TransitionAction::ReadDesired(CheckPoint::AfterOpen)) ==> did(
        done,
        TransitionAction::ReadDesired(CheckPoint::BeforeOpen),
    )
    &&& did(done, TransitionAction::SetShutter(true)) ==> did(
        done,
        TransitionAction::ReadDesired(CheckPoint::BeforeOpen),
    )
    &&& did(done, TransitionAction::DisconnectBackend) ==> failed_reset(done)
    &&& did(done, TransitionAction::ResetDeviceBuffer) ==> failed_reset(done) || did(
        done,
        TransitionAction::ReadDesired(CheckPoint::BeforeOpen),
    ) || done.last() == (TransitionAction::ResetDeviceBuffer, TransitionReply::Command(true))
    &&& failed_reset(done) ==> did(done, TransitionAction::ResetDeviceBuffer) && (
    done.last() == (TransitionAction::ResetDeviceBuffer, TransitionReply::Command(false))
        || done.last().0 == TransitionAction::SetShutter(false) || done.last().0
        == TransitionAction::DisconnectBackend)
    &&& done.len() > 0 ==> match done.last().0 {
        TransitionAction::DiscardCached => clean_up_under_way(handled, done) || may_prepare(
            handled,
            done,
        ),
        TransitionAction::AdapterStateChange(starts) => if starts {
            may_prepare(handled, done)
        } else {
            clean_up_under_way(handled, done)
        },
        TransitionAction::ArmStartupBlank(_) => may_prepare(handled, done),
        TransitionAction::ResetOutputFilter(reason) => if reason == OutputResetReason::Arm {
            may_prepare(handled, done)
        } else {
            did(done, TransitionAction::SourceDisarm)
        },
        TransitionAction::ResetDeviceBuffer => done.last().1 is Command,
        _ => true,
    }
}

spec fn in_order(
    handled: DesiredState,
    shutter: ShutterState,
    pps: u32,
    v: TransitionView,
    done: Performed,
) -> bool {
    &&& coherent(handled, done)
    &&& v.pps == pps
    &&& v.pending == still_due(handled, shutter, pps, done)
    &&& v.shutter == known_shutter(shutter, done)
    &&& v.desired == first_look(handled, done)
    &&& v.handled == handled_by(handled, done)
    &&& v.outcome == TransitionOutcome::Disconnected <==> failed_reset(done)
}

proof fn lemma_next(
    handled: DesiredState,
    shutter: ShutterState,
    pps: u32,
    v: TransitionView,
    done: Performed,
    reply: TransitionReply,
)
    requires
        in_order(handled, shutter, pps, v, done),
        v.expects(reply),
    ensures
        in_order(handled, shutter, pps, v.next(reply), done.push((v.pending[0], reply))),
{
    let step = (v.pending[0], reply);
    let more = done.push(step);
    let w = v.next(reply);
    assert(more.drop_last() =~= done);
    assert(more.last() == step);
    assert(more[0] == if done.len() > 0 {
        done[0]
    } else {
        step
    });
    assert(forall|a: TransitionAction| did(more, a) == (step.0 == a || did(done, a)));
    assert(failed_reset(more) == (step == (
        TransitionAction::ResetDeviceBuffer,
        TransitionReply::Command(false),
    ) || failed_reset(done)));
    if done.len() == 1 {
        assert(done.drop_last() =~= Seq::empty());
        assert(forall|a: TransitionAction| did(done, a) == (done[0].0 == a)) by {
            reveal_with_fuel(did, 2);
        }
        assert(failed_reset(done) == (done[0] == (
            TransitionAction::ResetDeviceBuffer,
            TransitionReply::Command(false),
        ))) by {
            reveal_with_fuel(failed_reset, 2);
        }
        assert(known_shutter(shutter, done) == shutter) by {
            reveal_with_fuel(known_shutter, 2);
        }
    }
    if done.len() == 0 {
        assert(coherent(handled, more));
        assert(w.pending =~= still_due(handled, shutter, pps, more));
    } else {
        match done.last().0 {
            TransitionAction::ReadDesired(at) => {
                match at {
                    CheckPoint::Entry => {
                        assert(coherent(handled, more));
                        assert(w.pending =~= still_due(handled, shutter, pps, more));
                    },
                    CheckPoint::AfterFalling => {
                        assert(coherent(handled, more));
                        assert(w.pending =~= still_due(handled, shutter, pps, more));
                    },
                    CheckPoint::BeforeOpen => {
                        assert(coherent(handled, more));
                        assert(w.pending =~= still_due(handled, shutter, pps, more));
                    },
                    CheckPoint::AfterOpen => {
                        assert(coherent(handled, more));
                        assert(w.pending =~= still_due(handled, shutter, pps, more));
                    },
                }
            },
            TransitionAction::SetShutter(open) => {
                assert(coherent(handled, more));
                assert(w.pending =~= still_due(handled, shutter, pps, more));
            },
            TransitionAction::DiscardCached => {
                assert(coherent(handled, more));
                assert(w.pending =~= still_due(handled, shutter, pps, more));
            },
            TransitionAction::AdapterStateChange(_) => {
                assert(coherent(handled, more));
                assert(w.pending =~= still_due(handled, shutter, pps, more));
            },
            TransitionAction::ResetDeviceBuffer => {
                assert(coherent(handled, more));
                assert(w.pending =~= still_due(handled, shutter, pps, more));
            },
            _ => {
                assert(coherent(handled, more));
                assert(w.pending =~= still_due(handled, shutter, pps, more));
            },
        }
    }
    assert(w.shutter == known_shutter(shutter, more));
    assert(w.handled == handled_by(handled, more));
}

proof fn lemma_order(
    handled: DesiredState,
    shutter: ShutterState,
    pps: u32,
    replies: Seq<TransitionReply>,
)
    ensures
        in_order(
            handled,
            shutter,
            pps,
            TransitionView::start(handled, shutter, pps).run(replies),
            TransitionView::start(handled, shutter, pps).performed(replies),
        ),
    decreases replies.len(),
{
    let start = TransitionView::start(handled, shutter, pps);
    if replies.len() > 0 {
        lemma_order(handled, shutter, pps, replies.drop_last());
        let v = start.run(replies.drop_last());
        let done = start.performed(replies.drop_last());
        if v.expects(replies.last()) {
            lemma_next(handled, shutter, pps, v, done, replies.last());
        }
    } else {
        assert(start.pending =~= still_due(handled, shutter, pps, start.performed(replies)));
    }
}

} // verus!
