//! The order of a worker, told by what was performed so far.
//!
//! Nothing here speaks of the phases that a worker keeps: what comes next is given by the
//! actions and replies that lie behind, with each action named as it stands.
use vstd::prelude::*;

use super::chunk::{ChunkPoints, ChunkView, PointFormat, PointsView, WorkerCommand};
use super::worker::{liveness_check_due, Worker, WorkerAction, WorkerReply, WorkerView};
use crate::point::{PointExtended, PointXyrgbHighRes, PointXyrgbi};

verus! {

/// Actions that were performed, with their replies.
pub type PerformedByWorker = Seq<(WorkerAction, WorkerReply)>;

/// The actions that a series of replies answers, with their replies, in order.
pub open spec fn log(start: WorkerView, replies: Seq<WorkerReply>) -> PerformedByWorker
    decreases replies.len(),
{
    if replies.len() == 0 {
        seq![]
    } else {
        let before = start.run(replies.drop_last());
        let so_far = log(start, replies.drop_last());
        if before.phase.expects(replies.last()) {
            so_far.push((before.action()->Some_0, replies.last()))
        } else {
            so_far
        }
    }
}

/// Ten points at the centre without light.
pub open spec fn darkness(pps: u32, format: PointFormat) -> ChunkView {
    ChunkView {
        pps,
        points: match format {
            PointFormat::Xyrgbi => PointsView::Xyrgbi(
                Seq::new(10, |k: int| PointXyrgbi { x: 0, y: 0, r: 0, g: 0, b: 0, i: 0 }),
            ),
            PointFormat::XyrgbHighRes => PointsView::HighRes(
                Seq::new(10, |k: int| PointXyrgbHighRes { x: 0, y: 0, r: 0, g: 0, b: 0 }),
            ),
            PointFormat::Extended => PointsView::Extended(
                Seq::new(
                    10,
                    |k: int|
                        PointExtended {
                            x: 0,
                            y: 0,
                            r: 0,
                            g: 0,
                            b: 0,
                            i: 0,
                            u1: 0,
                            u2: 0,
                            u3: 0,
                            u4: 0,
                        },
                ),
            ),
        },
    }
}

/// What a worker has: the chunks that wait, the one that is being sent, the rate of the last
/// one taken up, how many probes in a row went unanswered, and when the last probe was made.
pub struct Holdings {
    pub waiting: Seq<ChunkView>,
    pub current: Option<ChunkView>,
    pub rate: u32,
    pub misses: int,
    pub probed_at: Option<u64>,
}

/// Whether the device is to be probed: after a miss, before the first probe, and half a
/// second after the last one.
pub open spec fn probe_is_due(has: Holdings, now_ns: u64) -> bool {
    ||| has.misses > 0
    ||| has.probed_at is None
    ||| now_ns - has.probed_at->Some_0 >= 500_000_000
}

/// What a worker has, given what it did.
pub open spec fn holdings(scan_speed: u32, format: PointFormat, done: PerformedByWorker) -> Holdings
    decreases done.len(),
{
    if done.len() == 0 {
        Holdings { waiting: seq![], current: None, rate: scan_speed, misses: 0, probed_at: None }
    } else {
        let had = holdings(scan_speed, format, done.drop_last());
        match done.last() {
            (_, WorkerReply::Received(WorkerCommand::Chunk(chunk))) => Holdings {
                waiting: had.waiting.push(chunk@),
                ..had
            },
            (_, WorkerReply::Received(WorkerCommand::Stop)) => Holdings {
                waiting: seq![darkness(had.rate, format)],
                ..had
            },
            (WorkerAction::TryReceive, WorkerReply::Empty) => if had.waiting.len() > 0 {
                Holdings {
                    waiting: had.waiting.skip(1),
                    current: Some(had.waiting[0]),
                    rate: had.waiting[0].pps,
                    ..had
                }
            } else {
                had
            },
            (WorkerAction::ReadClock, WorkerReply::Clock(now_ns)) => if probe_is_due(had, now_ns) {
                Holdings { probed_at: Some(now_ns), ..had }
            } else {
                had
            },
            (WorkerAction::WriteFrame, WorkerReply::Outcome(sent)) => if sent {
                had
            } else {
                Holdings { current: None, ..had }
            },
            (WorkerAction::WriteFrameWithAck(_), WorkerReply::Outcome(answered)) => if answered {
                Holdings { misses: 0, ..had }
            } else if had.misses + 1 < 4 {
                Holdings { misses: had.misses + 1, ..had }
            } else {
                Holdings { misses: had.misses + 1, current: None, ..had }
            },
            (WorkerAction::Ping(_), WorkerReply::Outcome(answered)) => if answered {
                Holdings { misses: 0, ..had }
            } else {
                Holdings { misses: had.misses + 1, ..had }
            },
            (WorkerAction::Recycle, _) => Holdings { current: None, ..had },
            _ => had,
        }
    }
}

/// What a worker does next, given what it did; nothing once the stream is closed.
pub open spec fn next_due(
    scan_speed: u32,
    format: PointFormat,
    done: PerformedByWorker,
) -> Option<WorkerAction> {
    let has = holdings(scan_speed, format, done);
    let had = holdings(scan_speed, format, done.drop_last());
    if done.len() == 0 {
        Some(WorkerAction::TryReceive)
    } else {
        match done.last() {
            (WorkerAction::TryReceive | WorkerAction::ReceiveTimeout, WorkerReply::Hangup) => Some(
                WorkerAction::MarkDisconnected,
            ),
            (
                WorkerAction::TryReceive | WorkerAction::ReceiveTimeout,
                WorkerReply::Received(command),
            ) => if command is Shutdown {
                Some(WorkerAction::MarkDisconnected)
            } else {
                Some(WorkerAction::TryReceive)
            },
            (WorkerAction::TryReceive, _) => if had.waiting.len() > 0 {
                Some(WorkerAction::SetScanSpeed(had.waiting[0].pps))
            } else {
                Some(WorkerAction::ReceiveTimeout)
            },
            (WorkerAction::ReceiveTimeout, _) => Some(WorkerAction::NeedsKeepalive),
            (WorkerAction::SetScanSpeed(_), _) => Some(WorkerAction::ReadClock),
            (WorkerAction::ReadClock, WorkerReply::Clock(now_ns)) => if has.current is Some {
                if probe_is_due(had, now_ns) {
                    Some(WorkerAction::WriteFrameWithAck(100))
                } else {
                    Some(WorkerAction::WriteFrame)
                }
            } else if probe_is_due(had, now_ns) {
                Some(WorkerAction::Ping(100))
            } else {
                Some(WorkerAction::TryReceive)
            },
            (WorkerAction::WriteFrame, reply) => if reply == WorkerReply::Outcome(true) {
                Some(WorkerAction::Recycle)
            } else {
                Some(WorkerAction::MarkDisconnected)
            },
            (WorkerAction::WriteFrameWithAck(_), _) => if has.misses < 4 {
                Some(WorkerAction::Recycle)
            } else {
                Some(WorkerAction::MarkDisconnected)
            },
            (WorkerAction::Recycle, _) => Some(WorkerAction::TryReceive),
            (WorkerAction::NeedsKeepalive, reply) => if reply == WorkerReply::Outcome(true) {
                Some(WorkerAction::SendKeepalive)
            } else {
                Some(WorkerAction::ReadClock)
            },
            (WorkerAction::SendKeepalive, reply) => if reply == WorkerReply::Outcome(true) {
                Some(WorkerAction::ReadClock)
            } else {
                Some(WorkerAction::MarkDisconnected)
            },
            (WorkerAction::Ping(_), _) => if has.misses < 4 {
                Some(WorkerAction::TryReceive)
            } else {
                Some(WorkerAction::MarkDisconnected)
            },
            (WorkerAction::MarkDisconnected, _) => Some(WorkerAction::CloseStream),
            _ => None,
        }
    }
}

spec fn in_order(
    scan_speed: u32,
    format: PointFormat,
    v: WorkerView,
    done: PerformedByWorker,
) -> bool {
    let has = holdings(scan_speed, format, done);
    &&& v.wf()
    &&& v.format == format
    &&& v.waiting == has.waiting
    &&& v.current == has.current
    &&& v.last_pps == has.rate
    &&& v.misses == has.misses
    &&& v.last_ack_check == has.probed_at
    &&& v.action() == next_due(scan_speed, format, done)
}

proof fn lemma_darkness(pps: u32, format: PointFormat)
    ensures
        super::chunk::blank_view(pps, format) == darkness(pps, format),
{
    let blank = super::chunk::blank_view(pps, format);
    match format {
        PointFormat::Xyrgbi => assert(blank.points->Xyrgbi_0 =~= darkness(
            pps,
            format,
        ).points->Xyrgbi_0),
        PointFormat::XyrgbHighRes => assert(blank.points->HighRes_0 =~= darkness(
            pps,
            format,
        ).points->HighRes_0),
        PointFormat::Extended => assert(blank.points->Extended_0 =~= darkness(
            pps,
            format,
        ).points->Extended_0),
    }
}

proof fn lemma_next(
    scan_speed: u32,
    format: PointFormat,
    v: WorkerView,
    done: PerformedByWorker,
    reply: WorkerReply,
)
    requires
        in_order(scan_speed, format, v, done),
        v.phase.expects(reply),
    ensures
        in_order(scan_speed, format, v.next(reply), done.push((v.action()->Some_0, reply))),
{
    let step = (v.action()->Some_0, reply);
    let more = done.push(step);
    let w = v.next(reply);
    let has = holdings(scan_speed, format, more);
    assert(more.drop_last() =~= done);
    assert(more.last() == step);
    lemma_darkness(v.last_pps, format);
    assert(w.waiting =~= has.waiting);
}

proof fn lemma_order(scan_speed: u32, format: PointFormat, replies: Seq<WorkerReply>)
    ensures
        in_order(
            scan_speed,
            format,
            WorkerView::start(scan_speed, format).run(replies),
            log(WorkerView::start(scan_speed, format), replies),
        ),
    decreases replies.len(),
{
    let start = WorkerView::start(scan_speed, format);
    if replies.len() > 0 {
        lemma_order(scan_speed, format, replies.drop_last());
        let v = start.run(replies.drop_last());
        let done = log(start, replies.drop_last());
        if v.phase.expects(replies.last()) {
            lemma_next(scan_speed, format, v, done, replies.last());
        }
    } else {
        assert(start.waiting =~= holdings(scan_speed, format, log(start, replies)).waiting);
    }
}

/// Law: what a worker does next, which chunks wait and which is being sent, at what rate, how
/// many probes it missed and when it made the last one are given by what it did, as
/// [`next_due`] and [`holdings`] tell it action by action.
pub proof fn what_is_done_decides_what_is_due(
    scan_speed: u32,
    format: PointFormat,
    replies: Seq<WorkerReply>,
)
    ensures
        ({
            let v = WorkerView::start(scan_speed, format).run(replies);
            let done = log(WorkerView::start(scan_speed, format), replies);
            let has = holdings(scan_speed, format, done);
            &&& v.action() == next_due(scan_speed, format, done)
            &&& v.waiting == has.waiting
            &&& v.current == has.current
            &&& v.last_pps == has.rate
            &&& v.misses == has.misses
            &&& v.last_ack_check == has.probed_at
        }),
{
    lemma_order(scan_speed, format, replies);
}

/// Law: only a reply of the right kind to the action at hand is taken: a command, nothing or
/// the end of the channel to a look at the channel, the time to a look at the clock, yes or no
/// to a question, a send or a probe, and an acknowledgment to all else.
pub proof fn what_answers_an_action(
    scan_speed: u32,
    format: PointFormat,
    replies: Seq<WorkerReply>,
    reply: WorkerReply,
)
    ensures
        ({
            let v = WorkerView::start(scan_speed, format).run(replies);
            v.phase.expects(reply) <==> match v.action() {
                Some(WorkerAction::TryReceive)
                | Some(WorkerAction::ReceiveTimeout) => reply is Received || reply is Empty
                    || reply is Hangup,
                Some(WorkerAction::ReadClock) => reply is Clock,
                Some(WorkerAction::WriteFrame)
                | Some(WorkerAction::WriteFrameWithAck(_))
                | Some(WorkerAction::NeedsKeepalive)
                | Some(WorkerAction::SendKeepalive)
                | Some(WorkerAction::Ping(_)) => reply is Outcome,
                Some(_) => reply is Done,
                None => false,
            }
        }),
{
}

/// Law: once a stop reached a worker, the next chunk that it takes up is ten points, each at
/// the centre with every colour, the intensity and the user channels at zero, at the rate of
/// the last chunk, and nothing waits behind it.
pub proof fn a_stop_makes_the_next_chunk_dark(
    scan_speed: u32,
    format: PointFormat,
    replies: Seq<WorkerReply>,
)
    requires
        ({
            let action = WorkerView::start(scan_speed, format).run(replies).action();
            action == Some(WorkerAction::TryReceive) || action == Some(WorkerAction::ReceiveTimeout)
        }),
    ensures
        ({
            let v = WorkerView::start(scan_speed, format).run(replies);
            let w = v.next(WorkerReply::Received(WorkerCommand::Stop)).next(WorkerReply::Empty);
            &&& w.action() == Some(WorkerAction::SetScanSpeed(v.last_pps))
            &&& w.waiting.len() == 0
            &&& w.current is Some
            &&& w.current->Some_0.pps == v.last_pps
            &&& super::chunk_laws::ten_dark_points(w.current->Some_0.points, format)
        }),
{
    lemma_order(scan_speed, format, replies);
    super::chunk_laws::lemma_blank(
        WorkerView::start(scan_speed, format).run(replies).last_pps,
        format,
    );
}

/// Law: a worker starts with nothing to send, at the rate of the stream; what it says of
/// itself is so; and a reply takes it where its view goes, if it answers the action at hand.
pub proof fn a_worker_is_as_its_view(
    scan_speed: u32,
    format: PointFormat,
    fresh: Worker,
    worker: &mut Worker,
    reply: WorkerReply,
    accepted: bool,
    action: Option<WorkerAction>,
    queued: usize,
    misses: u32,
)
    requires
        call_ensures(Worker::new, (scan_speed, format), fresh),
        call_ensures(Worker::next_action, (&*worker,), action),
        call_ensures(Worker::queued, (&*worker,), queued),
        call_ensures(Worker::misses, (&*worker,), misses),
        call_ensures(Worker::complete, (worker, reply), accepted),
    ensures
        fresh@.waiting.len() == 0,
        fresh@.current is None,
        fresh@.last_pps == scan_speed,
        fresh@.format == format,
        fresh@.misses == 0,
        fresh@.last_ack_check is None,
        fresh@.action() == Some(WorkerAction::TryReceive),
        action == old(worker)@.action(),
        queued == old(worker)@.waiting.len(),
        misses == old(worker)@.misses,
        final(worker)@ == old(worker)@.next(reply),
        !accepted ==> final(worker)@ == old(worker)@,
        accepted == old(worker)@.phase.expects(reply),
{
}

/// Law: the points that a worker shows are those of the chunk that is being sent, and it shows
/// none while none is.
pub proof fn a_worker_shows_what_it_sends(worker: Worker, r: Option<&ChunkPoints>)
    requires
        call_ensures(Worker::current_points, (&worker,), r),
    ensures
        r is Some <==> worker@.current is Some,
        r matches Some(points) ==> points@ == worker@.current->Some_0.points,
{
}

/// Law: a check is due after a miss, before the first check, and from half a second after the
/// last one on; never before that, and never because the clock went back.
pub proof fn when_a_check_is_due(last: Option<u64>, misses: u32, now_ns: u64, r: bool)
    requires
        call_ensures(liveness_check_due, (last, misses, now_ns), r),
    ensures
        misses > 0 ==> r,
        last is None ==> r,
        misses == 0 && last is Some ==> (r <==> now_ns >= last->Some_0 + 500_000_000),
{
}

/// Law: what is handed over for recycling is the chunk that was sent, with the points it had,
/// and nothing is handed over at any other time.
pub proof fn only_a_sent_chunk_is_recycled(worker: &mut Worker, r: Option<ChunkPoints>)
    requires
        (*worker)@.wf(),
        call_ensures(Worker::recycle, (worker,), r),
    ensures
        r is Some <==> old(worker)@.action() == Some(WorkerAction::Recycle),
        r matches Some(points) ==> {
            &&& old(worker)@.current is Some
            &&& points@ == old(worker)@.current->Some_0.points
            &&& final(worker)@.current is None
            &&& final(worker)@.action() == Some(WorkerAction::TryReceive)
            &&& final(worker)@.waiting == old(worker)@.waiting
            &&& final(worker)@.last_pps == old(worker)@.last_pps
            &&& final(worker)@.misses == old(worker)@.misses
            &&& final(worker)@.last_ack_check == old(worker)@.last_ack_check
        },
        r is None ==> final(worker)@ == old(worker)@,
{
}

} // verus!
