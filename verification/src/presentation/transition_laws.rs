//! What holds of every pass over the arm and disarm transitions, whatever the device
//! replies and however the desired state changes meanwhile.
use vstd::prelude::*;

use super::transition::{
    CheckPoint, ShutterState, TransitionAction, TransitionOutcome, TransitionReply, TransitionView,
};
use crate::session::DesiredState;

verus! {

/// Actions that were performed, with their replies.
pub type Performed = Seq<(TransitionAction, TransitionReply)>;

/// The desired state that was read last.
pub open spec fn last_seen(done: Performed) -> Option<DesiredState>
    decreases done.len(),
{
    if done.len() == 0 {
        None
    } else {
        match done.last().1 {
            TransitionReply::Desired(seen) => Some(seen),
            _ => last_seen(done.drop_last()),
        }
    }
}

/// The shutter was commanded to open.
pub open spec fn opened(done: Performed) -> bool {
    exists|i: int| 0 <= i < done.len() && #[trigger] done[i].0 == TransitionAction::SetShutter(true)
}

/// The clean-up after a disarm ran.
pub open spec fn cleaned_up(done: Performed) -> bool {
    exists|i: int| 0 <= i < done.len() && #[trigger] done[i].0 == TransitionAction::SourceDisarm
}

/// The last `n` actions are the first `n` of the preparation for output at `pps`.
pub open spec fn ends_in_preparation(done: Performed, pps: u32, n: int) -> bool {
    &&& done.len() >= n
    &&& forall|k: int|
        0 <= k < n ==> #[trigger] done[done.len() - n + k].0 == super::transition::rising(pps)[k]
}

/// The whole preparation for output at `pps` has just been performed, and the device
/// queue was cleared.
pub open spec fn prepared(done: Performed, pps: u32) -> bool {
    &&& ends_in_preparation(done, pps, 5)
    &&& done.last().1 == TransitionReply::Command(true)
}

spec fn preparing(v: TransitionView, done: Performed) -> bool {
    let left = v.pending.len() as int;
    &&& 1 <= left <= 5
    &&& v.pending == super::transition::rising(v.pps).skip(5 - left)
    &&& ends_in_preparation(done, v.pps, 5 - left)
}

spec fn cleaning(v: TransitionView, done: Performed) -> bool {
    let left = v.pending.len() as int;
    &&& 1 <= left <= 6
    &&& left == 6 ==> v.pending == seq![TransitionAction::SetShutter(false)]
        + super::transition::falling_tail()
    &&& left <= 5 ==> v.pending == super::transition::falling_tail().skip(5 - left) && v.shutter
        != ShutterState::Open
}

/// The pass is over.
pub open spec fn over(v: TransitionView, done: Performed) -> bool {
    match v.outcome {
        TransitionOutcome::Continue => {
            &&& v.handled == v.desired
            &&& last_seen(done) is Some
            &&& v.shutter == ShutterState::Open ==> v.desired.armed() && (last_seen(done) == Some(
                v.desired,
            ) || !opened(done))
            &&& done.len() > 0 && done.last().0 == TransitionAction::ReadDesired(
                CheckPoint::AfterFalling,
            ) && done.last().1 != TransitionReply::Desired(v.desired) ==> !opened(done)
                && v.shutter != ShutterState::Open
        },
        TransitionOutcome::Disconnected => {
            &&& v.shutter != ShutterState::Open
            &&& !opened(done)
            &&& done.len() >= 3
            &&& done[done.len() - 3] == (
                TransitionAction::ResetDeviceBuffer,
                TransitionReply::Command(false),
            )
            &&& done[done.len() - 2].0 == TransitionAction::SetShutter(false)
            &&& done[done.len() - 1].0 == TransitionAction::DisconnectBackend
        },
    }
}

/// How many more replies the pass takes at most.
spec fn rank(v: TransitionView) -> int {
    let left = v.pending.len() as int;
    if left == 0 {
        0
    } else {
        match v.pending.last() {
            TransitionAction::ReadDesired(CheckPoint::Entry) => 16,
            TransitionAction::ReadDesired(CheckPoint::AfterFalling) => left + 9,
            TransitionAction::ResetDeviceBuffer => left + 4,
            TransitionAction::ReadDesired(CheckPoint::BeforeOpen) => 4,
            TransitionAction::ReadDesired(CheckPoint::AfterOpen) => left + 1,
            _ => left,
        }
    }
}

spec fn reached(
    handled: DesiredState,
    shutter: ShutterState,
    v: TransitionView,
    done: Performed,
) -> bool {
    let left = v.pending.len() as int;
    &&& done.len() + rank(v) <= 16
    &&& cleaned_up(done) && !opened(done) ==> v.shutter != ShutterState::Open
    &&& if left == 0 {
        over(v, done)
    } else {
        match v.pending.last() {
            TransitionAction::ReadDesired(CheckPoint::Entry) => {
                &&& v == TransitionView::start(handled, shutter, v.pps)
                &&& done.len() == 0
            },
            TransitionAction::ReadDesired(CheckPoint::AfterFalling) => {
                &&& v.outcome == TransitionOutcome::Continue
                &&& v.desired != handled
                &&& last_seen(done) == Some(v.desired)
                &&& !opened(done)
                &&& cleaning(v, done)
            },
            TransitionAction::ResetDeviceBuffer => {
                &&& v.outcome == TransitionOutcome::Continue
                &&& v.desired.armed()
                &&& v.desired != handled
                &&& last_seen(done) == Some(v.desired)
                &&& !opened(done)
                &&& preparing(v, done)
            },
            TransitionAction::ReadDesired(CheckPoint::BeforeOpen) => {
                &&& left == 1
                &&& v.outcome == TransitionOutcome::Continue
                &&& v.desired.armed()
                &&& v.handled == v.desired
                &&& last_seen(done) == Some(v.desired)
                &&& !opened(done)
                &&& handled == v.desired || prepared(done, v.pps)
            },
            TransitionAction::ReadDesired(CheckPoint::AfterOpen) => {
                &&& left <= 2
                &&& v.outcome == TransitionOutcome::Continue
                &&& v.desired.armed()
                &&& v.handled == v.desired
                &&& last_seen(done) == Some(v.desired)
                &&& left == 2 ==> {
                    &&& v.pending[0] == TransitionAction::SetShutter(true)
                    &&& done.len() > 0
                    &&& done.last() == (
                        TransitionAction::ReadDesired(CheckPoint::BeforeOpen),
                        TransitionReply::Desired(v.desired),
                    )
                    &&& handled == v.desired || prepared(done.drop_last(), v.pps)
                }
            },
            TransitionAction::SetShutter(false) => {
                &&& left == 1
                &&& v.outcome == TransitionOutcome::Continue
                &&& v.handled == v.desired
                &&& last_seen(done) is Some
            },
            TransitionAction::DisconnectBackend => {
                &&& left <= 2
                &&& v.outcome == TransitionOutcome::Disconnected
                &&& !opened(done)
                &&& left == 2 ==> {
                    &&& v.pending[0] == TransitionAction::SetShutter(false)
                    &&& done.len() > 0
                    &&& done.last() == (
                        TransitionAction::ResetDeviceBuffer,
                        TransitionReply::Command(false),
                    )
                }
                &&& left == 1 ==> {
                    &&& v.shutter != ShutterState::Open
                    &&& done.len() > 1
                    &&& done[done.len() - 2] == (
                        TransitionAction::ResetDeviceBuffer,
                        TransitionReply::Command(false),
                    )
                    &&& done.last().0 == TransitionAction::SetShutter(false)
                }
            },
            _ => false,
        }
    }
}

proof fn lemma_push(done: Performed, step: (TransitionAction, TransitionReply))
    ensures
        opened(done.push(step)) <==> opened(done) || step.0 == TransitionAction::SetShutter(true),
        cleaned_up(done.push(step)) <==> cleaned_up(done) || step.0
            == TransitionAction::SourceDisarm,
        last_seen(done.push(step)) == match step.1 {
            TransitionReply::Desired(seen) => Some(seen),
            _ => last_seen(done),
        },
{
    let more = done.push(step);
    assert(more.drop_last() =~= done);
    assert(more[done.len() as int] == step);
    if opened(done) {
        let i = choose|i: int|
            0 <= i < done.len() && #[trigger] done[i].0 == TransitionAction::SetShutter(true);
        assert(more[i].0 == TransitionAction::SetShutter(true));
    }
    if opened(more) {
        let i = choose|i: int|
            0 <= i < more.len() && #[trigger] more[i].0 == TransitionAction::SetShutter(true);
        if i < done.len() {
            assert(done[i].0 == TransitionAction::SetShutter(true));
        }
    }
    if cleaned_up(done) {
        let i = choose|i: int|
            0 <= i < done.len() && #[trigger] done[i].0 == TransitionAction::SourceDisarm;
        assert(more[i].0 == TransitionAction::SourceDisarm);
    }
    if cleaned_up(more) {
        let i = choose|i: int|
            0 <= i < more.len() && #[trigger] more[i].0 == TransitionAction::SourceDisarm;
        if i < done.len() {
            assert(done[i].0 == TransitionAction::SourceDisarm);
        }
    }
}

proof fn lemma_step(
    handled: DesiredState,
    shutter: ShutterState,
    v: TransitionView,
    done: Performed,
    reply: TransitionReply,
)
    requires
        reached(handled, shutter, v, done),
        v.expects(reply),
    ensures
        reached(handled, shutter, v.next(reply), done.push((v.pending[0], reply))),
{
    let step = (v.pending[0], reply);
    lemma_push(done, step);
    let w = v.next(reply);
    let more = done.push(step);
    assert(more.drop_last() =~= done);
    let left = v.pending.len() as int;
    match v.pending.last() {
        TransitionAction::ResetDeviceBuffer => {
            assert(v.pending[0] == super::transition::rising(v.pps)[5 - left]);
            assert(ends_in_preparation(more, v.pps, 6 - left)) by {
                assert forall|k: int| 0 <= k < 6 - left implies #[trigger] more[more.len() - (6
                    - left) + k].0 == super::transition::rising(v.pps)[k] by {
                    if k < 5 - left {
                        assert(done[done.len() - (5 - left) + k].0 == super::transition::rising(
                            v.pps,
                        )[k]);
                    }
                }
            }
            if left > 1 {
                assert(w.pending =~= super::transition::rising(v.pps).skip(6 - left));
            }
        },
        TransitionAction::ReadDesired(CheckPoint::AfterFalling) => {
            if left == 6 {
                assert(w.pending =~= super::transition::falling_tail().skip(0));
            } else if left > 1 {
                assert(w.pending =~= super::transition::falling_tail().skip(6 - left));
            } else {
                assert(super::transition::rising(v.pps).skip(0) =~= super::transition::rising(
                    v.pps,
                ));
            }
        },
        TransitionAction::ReadDesired(CheckPoint::Entry) => {
            assert(super::transition::rising(v.pps).skip(0) =~= super::transition::rising(v.pps));
            assert(super::transition::falling_tail().skip(0)
                =~= super::transition::falling_tail());
            assert(seq![] + super::transition::falling_tail()
                =~= super::transition::falling_tail());
        },
        _ => {},
    }
}

proof fn lemma_reached(
    handled: DesiredState,
    shutter: ShutterState,
    pps: u32,
    replies: Seq<TransitionReply>,
)
    ensures
        reached(
            handled,
            shutter,
            TransitionView::start(handled, shutter, pps).run(replies),
            TransitionView::start(handled, shutter, pps).performed(replies),
        ),
        TransitionView::start(handled, shutter, pps).run(replies).pps == pps,
    decreases replies.len(),
{
    let start = TransitionView::start(handled, shutter, pps);
    if replies.len() > 0 {
        lemma_reached(handled, shutter, pps, replies.drop_last());
        let before = start.run(replies.drop_last());
        let done = start.performed(replies.drop_last());
        if before.expects(replies.last()) {
            lemma_step(handled, shutter, before, done, replies.last());
        }
    }
}

/// Law: the shutter is commanded to open only when output was desired on entry and is
/// still desired, in the very same generation, at the look just before; and only for a
/// state that was already handled when the pass began, or right after the whole
/// preparation for it with a cleared device queue.
pub proof fn opening_follows_preparation(
    handled: DesiredState,
    shutter: ShutterState,
    pps: u32,
    replies: Seq<TransitionReply>,
)
    requires
        ({
            let v = TransitionView::start(handled, shutter, pps).run(replies);
            v.pending.len() > 0 && v.pending[0] == TransitionAction::SetShutter(true)
        }),
    ensures
        ({
            let v = TransitionView::start(handled, shutter, pps).run(replies);
            let done = TransitionView::start(handled, shutter, pps).performed(replies);
            &&& v.desired.armed()
            &&& v.handled == v.desired
            &&& done.len() > 0
            &&& done.last() == (
                TransitionAction::ReadDesired(CheckPoint::BeforeOpen),
                TransitionReply::Desired(v.desired),
            )
            &&& handled == v.desired || prepared(done.drop_last(), pps)
        }),
{
    lemma_reached(handled, shutter, pps, replies);
}

/// Law: a pass ends safely.
///
/// A pass that lets the loop go on has handled exactly the state it read on entry. It
/// leaves the shutter open only if output is desired, and, if it commanded the opening
/// itself, only if nothing changed up to its last look. A change during the clean-up after
/// a disarm ends the pass with the shutter not open and without an open command.
///
/// A pass that disconnected did so because the device queue could not be cleared; it never
/// commanded an opening, and it commanded the shutter to close before it disconnected.
pub proof fn pass_ends_safely(
    handled: DesiredState,
    shutter: ShutterState,
    pps: u32,
    replies: Seq<TransitionReply>,
)
    requires
        TransitionView::start(handled, shutter, pps).run(replies).pending.len() == 0,
    ensures
        over(
            TransitionView::start(handled, shutter, pps).run(replies),
            TransitionView::start(handled, shutter, pps).performed(replies),
        ),
{
    lemma_reached(handled, shutter, pps, replies);
}

/// Law: once the clean-up after a disarm ran, the shutter is not known open again before it
/// is commanded to open.
pub proof fn clean_up_leaves_shutter_not_open(
    handled: DesiredState,
    shutter: ShutterState,
    pps: u32,
    replies: Seq<TransitionReply>,
)
    requires
        cleaned_up(TransitionView::start(handled, shutter, pps).performed(replies)),
        !opened(TransitionView::start(handled, shutter, pps).performed(replies)),
    ensures
        TransitionView::start(handled, shutter, pps).run(replies).shutter != ShutterState::Open,
{
    lemma_reached(handled, shutter, pps, replies);
}

/// Law: every pass is over after at most sixteen answered actions.
pub proof fn pass_is_finite(
    handled: DesiredState,
    shutter: ShutterState,
    pps: u32,
    replies: Seq<TransitionReply>,
)
    ensures
        TransitionView::start(handled, shutter, pps).performed(replies).len() <= 16,
        TransitionView::start(handled, shutter, pps).performed(replies).len() == 16
            ==> TransitionView::start(handled, shutter, pps).run(replies).pending.len() == 0,
{
    lemma_reached(handled, shutter, pps, replies);
}

/// Law: a change from an armed state starts with a close command, unless the shutter is
/// known to be closed, whatever the change leads to.
pub proof fn leaving_armed_closes_first(
    handled: DesiredState,
    desired: DesiredState,
    shutter: ShutterState,
    pps: u32,
)
    requires
        handled.armed(),
        desired != handled,
        shutter != ShutterState::Closed,
    ensures
        super::transition::entering(handled, desired, shutter, pps)[0]
            == TransitionAction::SetShutter(false),
{
}

/// An action that is due only when the pass works towards output.
spec fn towards_output(action: TransitionAction) -> bool {
    ||| action == TransitionAction::SetShutter(true)
    ||| action == TransitionAction::ReadDesired(CheckPoint::BeforeOpen)
    ||| action == TransitionAction::ReadDesired(CheckPoint::AfterOpen)
    ||| action == TransitionAction::ResetDeviceBuffer
}

/// Law: the first look of a pass decides what it works towards, and the shutter is commanded
/// to open only if that is output.
pub proof fn the_first_look_decides(
    handled: DesiredState,
    shutter: ShutterState,
    pps: u32,
    replies: Seq<TransitionReply>,
)
    ensures
        ({
            let v = TransitionView::start(handled, shutter, pps).run(replies);
            let done = TransitionView::start(handled, shutter, pps).performed(replies);
            &&& done.len() > 0 ==> done[0] == (
                TransitionAction::ReadDesired(CheckPoint::Entry),
                TransitionReply::Desired(v.desired),
            )
            &&& opened(done) ==> done.len() > 0 && v.desired.armed()
        }),
{
    lemma_first_look(handled, shutter, pps, replies);
}

proof fn lemma_first_look(
    handled: DesiredState,
    shutter: ShutterState,
    pps: u32,
    replies: Seq<TransitionReply>,
)
    ensures
        ({
            let start = TransitionView::start(handled, shutter, pps);
            let v = start.run(replies);
            let done = start.performed(replies);
            &&& done.len() == 0 ==> v == start
            &&& done.len() > 0 ==> done[0] == (
                TransitionAction::ReadDesired(CheckPoint::Entry),
                TransitionReply::Desired(v.desired),
            )
            &&& done.len() > 0 ==> forall|i: int|
                0 <= i < v.pending.len() ==> #[trigger] v.pending[i]
                    != TransitionAction::ReadDesired(CheckPoint::Entry) && (towards_output(
                    v.pending[i],
                ) ==> v.desired.armed())
            &&& opened(done) ==> v.desired.armed()
        }),
    decreases replies.len(),
{
    if replies.len() > 0 {
        lemma_first_look(handled, shutter, pps, replies.drop_last());
    }
}

/// Law: a pass in which the device queue could not be cleared ends as disconnected.
pub proof fn a_failed_reset_disconnects(
    handled: DesiredState,
    shutter: ShutterState,
    pps: u32,
    replies: Seq<TransitionReply>,
    i: int,
)
    requires
        0 <= i < TransitionView::start(handled, shutter, pps).performed(replies).len(),
        TransitionView::start(handled, shutter, pps).performed(replies)[i] == (
            TransitionAction::ResetDeviceBuffer,
            TransitionReply::Command(false),
        ),
    ensures
        TransitionView::start(handled, shutter, pps).run(replies).outcome
            == TransitionOutcome::Disconnected,
    decreases replies.len(),
{
    let start = TransitionView::start(handled, shutter, pps);
    if replies.len() > 0 && i < start.performed(replies.drop_last()).len() {
        a_failed_reset_disconnects(handled, shutter, pps, replies.drop_last(), i);
    }
}

/// Law: wherever a pass commanded the shutter to open, the action just before was a look
/// that still showed the state the pass works towards, which is output; and unless that
/// state was handled before the pass, just before the look stands the whole preparation, in
/// its order, with a cleared device queue.
pub proof fn an_open_stands_after_the_preparation(
    handled: DesiredState,
    shutter: ShutterState,
    pps: u32,
    replies: Seq<TransitionReply>,
    k: int,
)
    requires
        0 <= k < TransitionView::start(handled, shutter, pps).performed(replies).len(),
        TransitionView::start(handled, shutter, pps).performed(replies)[k].0
            == TransitionAction::SetShutter(true),
    ensures
        ({
            let v = TransitionView::start(handled, shutter, pps).run(replies);
            let done = TransitionView::start(handled, shutter, pps).performed(replies);
            &&& v.desired.armed()
            &&& 1 <= k
            &&& done[k - 1] == (
                TransitionAction::ReadDesired(CheckPoint::BeforeOpen),
                TransitionReply::Desired(v.desired),
            )
            &&& handled == v.desired || prepared(done.take(k - 1), pps)
        }),
    decreases replies.len(),
{
    let start = TransitionView::start(handled, shutter, pps);
    if replies.len() > 0 {
        let earlier = start.performed(replies.drop_last());
        let done = start.performed(replies);
        the_first_look_decides(handled, shutter, pps, replies);
        the_first_look_decides(handled, shutter, pps, replies.drop_last());
        if k < earlier.len() {
            assert(earlier[k] == done[k]);
            an_open_stands_after_the_preparation(handled, shutter, pps, replies.drop_last(), k);
            assert(earlier[k - 1] == done[k - 1]);
            assert(earlier[0] == done[0]);
            assert(earlier.take(k - 1) =~= done.take(k - 1));
        } else {
            opening_follows_preparation(handled, shutter, pps, replies.drop_last());
            assert(earlier.last() == done[k - 1]);
            assert(earlier.drop_last() =~= done.take(k - 1));
        }
    }
}

/// The looks and the close that follow an open command at `k`.
spec fn watched(v: TransitionView, done: Performed, k: int) -> bool {
    ||| k == done.len() - 1 && v.pending.len() == 1 && v.pending[0]
        == TransitionAction::ReadDesired(CheckPoint::AfterOpen)
    ||| k + 1 < done.len() && done[k + 1].0 == TransitionAction::ReadDesired(CheckPoint::AfterOpen)
        && done[k + 1].1 is Desired && {
        let changed = done[k + 1].1 != TransitionReply::Desired(v.desired);
        ||| k == done.len() - 2 && !changed && v.pending.len() == 0
        ||| k == done.len() - 2 && changed && v.pending.len() == 1 && v.pending[0]
            == TransitionAction::SetShutter(false)
        ||| k == done.len() - 3 && changed && done[k + 2].0 == TransitionAction::SetShutter(false)
            && v.pending.len() == 0 && v.shutter != ShutterState::Open
    }
}

proof fn lemma_watched(
    handled: DesiredState,
    shutter: ShutterState,
    pps: u32,
    replies: Seq<TransitionReply>,
    k: int,
)
    requires
        0 <= k < TransitionView::start(handled, shutter, pps).performed(replies).len(),
        TransitionView::start(handled, shutter, pps).performed(replies)[k].0
            == TransitionAction::SetShutter(true),
    ensures
        watched(
            TransitionView::start(handled, shutter, pps).run(replies),
            TransitionView::start(handled, shutter, pps).performed(replies),
            k,
        ),
        TransitionView::start(handled, shutter, pps).run(replies).outcome
            == TransitionOutcome::Continue,
    decreases replies.len(),
{
    let start = TransitionView::start(handled, shutter, pps);
    if replies.len() > 0 {
        let before = start.run(replies.drop_last());
        let earlier = start.performed(replies.drop_last());
        let done = start.performed(replies);
        if k < earlier.len() {
            assert(earlier[k] == done[k]);
            lemma_watched(handled, shutter, pps, replies.drop_last(), k);
            if k + 1 < earlier.len() {
                assert(earlier[k + 1] == done[k + 1]);
            }
            if k + 2 < earlier.len() {
                assert(earlier[k + 2] == done[k + 2]);
            }
        } else {
            lemma_reached(handled, shutter, pps, replies.drop_last());
        }
    }
}

/// Law: after each open command the pass looks once more. If that look shows another state,
/// because a disarm landed meanwhile, the shutter is commanded to close, whether the open was
/// accepted or not; the pass then ends with the shutter not known open, and goes on.
pub proof fn a_change_during_the_open_closes(
    handled: DesiredState,
    shutter: ShutterState,
    pps: u32,
    replies: Seq<TransitionReply>,
    k: int,
)
    requires
        TransitionView::start(handled, shutter, pps).run(replies).pending.len() == 0,
        0 <= k < TransitionView::start(handled, shutter, pps).performed(replies).len(),
        TransitionView::start(handled, shutter, pps).performed(replies)[k].0
            == TransitionAction::SetShutter(true),
    ensures
        ({
            let v = TransitionView::start(handled, shutter, pps).run(replies);
            let done = TransitionView::start(handled, shutter, pps).performed(replies);
            &&& v.outcome == TransitionOutcome::Continue
            &&& k + 1 < done.len()
            &&& done[k + 1].0 == TransitionAction::ReadDesired(CheckPoint::AfterOpen)
            &&& done[k + 1].1 != TransitionReply::Desired(v.desired) ==> k + 2 < done.len()
                && done[k + 2].0 == TransitionAction::SetShutter(false) && v.shutter
                != ShutterState::Open
        }),
{
    lemma_watched(handled, shutter, pps, replies, k);
}

} // verus!
