//! Laws of the worker, over every series of replies.
use vstd::prelude::*;

use super::chunk::{ChunkView, PointFormat, WorkerCommand};
use super::worker::{
    WorkerAction, WorkerPhase, WorkerReply, WorkerView, ACK_CHECK_INTERVAL_NS,
    MAX_CONSECUTIVE_ACK_MISSES,
};

verus! {

/// The probes without an answer since the last one with an answer.
pub open spec fn misses_in_a_row(start: WorkerView, replies: Seq<WorkerReply>) -> nat
    decreases replies.len(),
{
    if replies.len() == 0 {
        0
    } else {
        let before = start.run(replies.drop_last());
        let so_far = misses_in_a_row(start, replies.drop_last());
        match (before.phase, replies.last()) {
            (
                WorkerPhase::Acknowledging | WorkerPhase::Pinging,
                WorkerReply::Outcome(answered),
            ) => if answered {
                0
            } else {
                so_far + 1
            },
            _ => so_far,
        }
    }
}

/// The actions that a series of replies answers, in order.
pub open spec fn performed(start: WorkerView, replies: Seq<WorkerReply>) -> Seq<WorkerAction>
    decreases replies.len(),
{
    if replies.len() == 0 {
        Seq::empty()
    } else {
        let before = start.run(replies.drop_last());
        let so_far = performed(start, replies.drop_last());
        if before.phase.expects(replies.last()) {
            so_far.push(before.action()->Some_0)
        } else {
            so_far
        }
    }
}

/// The chunks that are to go out since the last stop, in order: the blank one of the stop, if
/// there was one, and the chunks that were received after it.
pub open spec fn due(start: WorkerView, replies: Seq<WorkerReply>) -> Seq<ChunkView>
    decreases replies.len(),
{
    if replies.len() == 0 {
        Seq::empty()
    } else {
        let before = start.run(replies.drop_last());
        let so_far = due(start, replies.drop_last());
        match replies.last() {
            WorkerReply::Received(command) => if before.phase.expects(replies.last()) {
                match command {
                    WorkerCommand::Chunk(chunk) => so_far.push(chunk@),
                    WorkerCommand::Stop => seq![
                        super::chunk::blank_view(before.last_pps, before.format),
                    ],
                    WorkerCommand::Shutdown => so_far,
                }
            } else {
                so_far
            },
            _ => so_far,
        }
    }
}

/// The chunks that the worker took up for sending since the last stop, in order.
pub open spec fn taken_up(start: WorkerView, replies: Seq<WorkerReply>) -> Seq<ChunkView>
    decreases replies.len(),
{
    if replies.len() == 0 {
        Seq::empty()
    } else {
        let before = start.run(replies.drop_last());
        let after = start.run(replies);
        let so_far = taken_up(start, replies.drop_last());
        if before.phase.expects(replies.last()) && replies.last() == WorkerReply::Received(
            WorkerCommand::Stop,
        ) {
            Seq::empty()
        } else if before.phase == WorkerPhase::Draining && after.phase
            == WorkerPhase::SettingSpeed {
            so_far.push(after.current->Some_0)
        } else {
            so_far
        }
    }
}

/// Whether an action belongs to the end of a worker.
pub open spec fn is_final(action: WorkerAction) -> bool {
    action == WorkerAction::MarkDisconnected || action == WorkerAction::CloseStream
}

/// Every reply keeps the worker in good order.
pub proof fn a_run_stays_wf(
    scan_speed: u32,
    format: PointFormat,
    replies: Seq<WorkerReply>,
)
    ensures
        WorkerView::start(scan_speed, format).run(replies).wf(),
    decreases replies.len(),
{
    if replies.len() > 0 {
        a_run_stays_wf(scan_speed, format, replies.drop_last());
    }
}

/// The worker counts the probes that went unanswered in a row, and gives up on the device
/// just when there are too many: it runs on only below the limit, and at the limit it ends.
pub proof fn misses_in_a_row_end_the_worker(
    scan_speed: u32,
    format: PointFormat,
    replies: Seq<WorkerReply>,
)
    ensures
        ({
            let start = WorkerView::start(scan_speed, format);
            let now = start.run(replies);
            &&& now.misses == misses_in_a_row(start, replies)
            &&& misses_in_a_row(start, replies) <= MAX_CONSECUTIVE_ACK_MISSES
            &&& misses_in_a_row(start, replies) == MAX_CONSECUTIVE_ACK_MISSES ==> now.phase.ends()
        }),
    decreases replies.len(),
{
    let start = WorkerView::start(scan_speed, format);
    a_run_stays_wf(scan_speed, format, replies);
    if replies.len() > 0 {
        a_run_stays_wf(scan_speed, format, replies.drop_last());
        misses_in_a_row_end_the_worker(scan_speed, format, replies.drop_last());
    }
}

/// A worker that misses goes on until the limit: a probe without an answer ends it only if
/// it is the last one allowed.
pub proof fn a_miss_below_the_limit_is_survived(worker: WorkerView)
    requires
        worker.wf(),
        worker.phase == WorkerPhase::Acknowledging || worker.phase == WorkerPhase::Pinging,
    ensures
        worker.next(WorkerReply::Outcome(false)).phase.ends() <==> worker.misses + 1
            == MAX_CONSECUTIVE_ACK_MISSES,
        !worker.next(WorkerReply::Outcome(true)).phase.ends(),
{
}

/// After a miss, and before the first probe, every send is acknowledged and every idle
/// interval pings, whatever the clock reads; otherwise no probe comes before the interval
/// is over.
pub proof fn when_the_device_is_probed(worker: WorkerView, now_ns: u64)
    requires
        worker.phase == WorkerPhase::TimingSend || worker.phase == WorkerPhase::TimingPing,
    ensures
        ({
            let after = worker.next(WorkerReply::Clock(now_ns));
            let probes = after.phase == WorkerPhase::Acknowledging || after.phase
                == WorkerPhase::Pinging;
            &&& worker.misses > 0 || worker.last_ack_check is None ==> probes
            &&& worker.misses == 0 && worker.last_ack_check is Some ==> (probes <==> now_ns
                - worker.last_ack_check->Some_0 >= ACK_CHECK_INTERVAL_NS)
            &&& probes ==> after.last_ack_check == Some(now_ns)
            &&& !probes ==> after.last_ack_check == worker.last_ack_check
        }),
{
}

/// Chunks are taken up in the order in which they came, and none is lost but by a stop: since
/// the last stop, those taken up followed by those that wait are the blank one of the stop
/// and then the chunks that came after it. Without a stop they are all that came.
pub proof fn chunks_keep_their_order(
    scan_speed: u32,
    format: PointFormat,
    replies: Seq<WorkerReply>,
)
    ensures
        ({
            let start = WorkerView::start(scan_speed, format);
            due(start, replies) == taken_up(start, replies) + start.run(replies).waiting
        }),
    decreases replies.len(),
{
    let start = WorkerView::start(scan_speed, format);
    if replies.len() > 0 {
        let earlier = replies.drop_last();
        chunks_keep_their_order(scan_speed, format, earlier);
        let before = start.run(earlier);
        let after = start.run(replies);
        if before.phase == WorkerPhase::Draining && replies.last() is Empty
            && before.waiting.len() > 0 {
            assert(taken_up(start, replies) == taken_up(start, earlier).push(before.waiting[0]));
            assert(before.waiting =~= seq![before.waiting[0]] + before.waiting.drop_first());
        }
        assert(due(start, replies) =~= taken_up(start, replies) + after.waiting);
    } else {
        assert(due(start, replies) =~= taken_up(start, replies) + start.run(replies).waiting);
    }
}

/// A stop drops all that waits: the next chunk taken up is the blank one, at the rate of the
/// last chunk, and nothing waits behind it.
pub proof fn a_stop_blanks_next(worker: WorkerView)
    requires
        worker.phase == WorkerPhase::Draining || worker.phase == WorkerPhase::Waiting,
    ensures
        ({
            let after = worker.next(WorkerReply::Received(WorkerCommand::Stop)).next(
                WorkerReply::Empty,
            );
            &&& after.phase == WorkerPhase::SettingSpeed
            &&& after.current == Some(super::chunk::blank_view(worker.last_pps, worker.format))
            &&& after.waiting == Seq::<ChunkView>::empty()
        }),
{
    let after = worker.next(WorkerReply::Received(WorkerCommand::Stop)).next(WorkerReply::Empty);
    assert(after.waiting =~= Seq::<ChunkView>::empty());
}

/// The worker never waits, and sends neither keepalive nor ping, while a chunk waits.
pub proof fn a_backlog_is_sent_without_delay(
    scan_speed: u32,
    format: PointFormat,
    replies: Seq<WorkerReply>,
)
    ensures
        ({
            let now = WorkerView::start(scan_speed, format).run(replies);
            now.waiting.len() > 0 ==> !now.phase.idles()
        }),
{
    a_run_stays_wf(scan_speed, format, replies);
}

/// A worker that ends marks the backend disconnected, then closes the stream, each once and
/// as the last things it does; one that has not begun to end has done neither.
pub proof fn how_a_worker_ends(
    scan_speed: u32,
    format: PointFormat,
    replies: Seq<WorkerReply>,
)
    ensures
        ({
            let start = WorkerView::start(scan_speed, format);
            let now = start.run(replies);
            let actions = performed(start, replies);
            let last = actions.len() as int;
            let closing: int = match now.phase {
                WorkerPhase::Closing => 1,
                WorkerPhase::Over => 2,
                _ => 0,
            };
            &&& closing <= last
            &&& forall|i: int| 0 <= i < last - closing ==> !is_final(#[trigger] actions[i])
            &&& closing > 0 ==> actions[last - closing] == WorkerAction::MarkDisconnected
            &&& closing > 1 ==> actions[last - 1] == WorkerAction::CloseStream
        }),
    decreases replies.len(),
{
    if replies.len() > 0 {
        how_a_worker_ends(scan_speed, format, replies.drop_last());
    }
}

/// Nothing happens after the end.
pub proof fn the_end_is_final(worker: WorkerView, replies: Seq<WorkerReply>)
    requires
        worker.phase == WorkerPhase::Over,
    ensures
        worker.run(replies) == worker,
        performed(worker, replies) == Seq::<WorkerAction>::empty(),
    decreases replies.len(),
{
    if replies.len() > 0 {
        the_end_is_final(worker, replies.drop_last());
    }
}

} // verus!
