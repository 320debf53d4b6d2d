//! What an IDN backend does, told by what goes in and what comes out.
use vstd::prelude::*;

use super::backend::{
    default_capabilities, finish_write, ConnectAction, ConnectReply, ConnectStage, ConnectView,
    Connecting, IdnBackend, IdnView, LinkAction, SendOutcome, SendRecord, ServerInfo, ServiceInfo,
};
use super::chunk::{ChunkPoints, PointFormat, PointsView, QueuedChunk, WorkerCommand};
use crate::backend::WriteOutcome;
use crate::device::{DacCapabilities, DacType, OutputModel};
use crate::error::{Error, ErrorView};
use crate::point::{LaserPoint, PointExtended, PointXyrgbHighRes, PointXyrgbi};

verus! {

/// The capabilities of an IDN device, as numbers.
pub open spec fn streams_in(caps: DacCapabilities, format: PointFormat) -> bool {
    &&& caps.pps_min == 1
    &&& caps.pps_max == 100_000
    &&& caps.output_model == OutputModel::UdpTimed
    &&& caps.max_points_per_chunk == match format {
        PointFormat::Xyrgbi => 179,
        PointFormat::XyrgbHighRes => 143,
        PointFormat::Extended => 71int,
    }
}

/// Law: a new backend holds the server and the service it was created with, uses the format
/// that every receiver understands, has no worker and no spare buffers.
pub proof fn a_new_backend_holds_what_it_was_made_of(
    server: ServerInfo,
    service: ServiceInfo,
    b: IdnBackend,
)
    requires
        call_ensures(IdnBackend::new, (server, service), b),
    ensures
        b.wf(),
        b@.server == server,
        b@.service == service,
        b@.selected == PointFormat::Xyrgbi,
        b@.format == PointFormat::Xyrgbi,
        !b@.running,
        streams_in(b@.caps, PointFormat::Xyrgbi),
        b@.pool.xyrgbi.len() == 0 && b@.pool.high_res.len() == 0 && b@.pool.extended.len() == 0,
{
    super::chunk_laws::lemma_sizes(PointFormat::Xyrgbi);
}

/// Law: the description of a server holds just what it was made of.
pub proof fn a_server_holds_what_it_was_made_of(
    unit_id: [u8; 16],
    hostname: String,
    protocol_version: (u8, u8),
    status: u8,
    r: ServerInfo,
)
    requires
        call_ensures(ServerInfo::new, (unit_id, hostname, protocol_version, status), r),
    ensures
        r.unit_id == unit_id,
        r.hostname == hostname,
        r.protocol_version == protocol_version,
        r.status == status,
{
}

/// Law: the default capabilities are those of the default format.
pub proof fn default_capabilities_in_numbers(r: DacCapabilities)
    requires
        call_ensures(default_capabilities, (), r),
    ensures
        r.pps_min == 1,
        r.pps_max == 100_000,
        r.max_points_per_chunk == 179,
        r.output_model == OutputModel::UdpTimed,
{
    super::chunk_laws::lemma_sizes(PointFormat::Xyrgbi);
}

/// Law: what a backend says of itself is so.
pub proof fn a_backend_says_what_it_is(
    b: IdnBackend,
    format: PointFormat,
    dac: DacType,
    caps: &DacCapabilities,
    server: &ServerInfo,
    service: &ServiceInfo,
    alive: bool,
    connected: bool,
)
    requires
        call_ensures(IdnBackend::point_format, (&b,), format),
        call_ensures(IdnBackend::dac_type, (&b,), dac),
        call_ensures(IdnBackend::caps, (&b,), caps),
        call_ensures(IdnBackend::server, (&b,), server),
        call_ensures(IdnBackend::service, (&b,), service),
        call_ensures(IdnBackend::is_connected, (&b, alive), connected),
    ensures
        format == b@.selected,
        dac == DacType::Idn,
        *caps == b@.caps,
        *server == b@.server,
        *service == b@.service,
        connected <==> b@.running && alive,
{
}

/// Law: in every state the capabilities are those of the format in use, and without a worker
/// that is the selected one.
pub proof fn the_format_in_use_decides_the_capabilities(b: IdnBackend)
    requires
        b.wf(),
    ensures
        streams_in(b@.caps, b@.format),
        !b@.running ==> b@.format == b@.selected,
{
    b.lemma_wf();
    super::chunk_laws::lemma_sizes(b@.format);
}

/// Law: selecting a format changes the selection; without a worker the format in use goes with
/// it, and with one it stays. Server, service, worker and spare buffers stay as they are.
pub proof fn what_selecting_a_format_changes(b: &mut IdnBackend, format: PointFormat)
    requires
        (*b).wf(),
        call_ensures(IdnBackend::set_point_format, (b, format), ()),
    ensures
        final(b)@.server == old(b)@.server,
        final(b)@.service == old(b)@.service,
        final(b)@.selected == format,
        final(b)@.running == old(b)@.running,
        final(b)@.pool == old(b)@.pool,
        old(b)@.running ==> final(b)@.format == old(b)@.format && final(b)@.caps == old(b)@.caps,
        !old(b)@.running ==> final(b)@.format == format && streams_in(final(b)@.caps, format),
{
    super::chunk_laws::lemma_sizes(format);
}

/// Law: an attempt to connect, of a backend without a worker and whatever is replied to it,
/// opens a stream only to the service that the backend was created with and only in the
/// selected format, and starts a worker only for that format.
pub proof fn an_attempt_opens_the_service_of_the_backend(
    server: ServerInfo,
    service: ServiceInfo,
    fresh: IdnBackend,
    b: IdnBackend,
    attempt: Connecting,
    replies: Seq<ConnectReply>,
    id: u8,
    format: PointFormat,
    room: usize,
)
    requires
        call_ensures(IdnBackend::new, (server, service), fresh),
        b@.service == fresh@.service,
        !b@.running,
        call_ensures(IdnBackend::connect, (&b,), attempt),
    ensures
        attempt@.run(replies).action() == Some(ConnectAction::OpenStream(id, format)) ==> id
            == service.service_id && format == b@.selected,
        attempt@.run(replies).action() == Some(ConnectAction::StartWorker(room, format)) ==> room
            == 8 && format == b@.selected,
        attempt@.action() == Some(ConnectAction::OpenStream(service.service_id, b@.selected)),
{
    lemma_attempt(b@, replies);
}

/// Law: the attempt of a backend with a worker asks for nothing, whatever is replied.
pub proof fn an_attempt_with_a_worker_asks_for_nothing(
    b: IdnBackend,
    attempt: Connecting,
    replies: Seq<ConnectReply>,
)
    requires
        b@.running,
        call_ensures(IdnBackend::connect, (&b,), attempt),
    ensures
        attempt@.run(replies).action() is None,
        attempt@.run(replies).stage == ConnectStage::Connected,
        attempt@.run(replies).format == b@.format,
    decreases replies.len(),
{
    if replies.len() > 0 {
        an_attempt_with_a_worker_asks_for_nothing(b, attempt, replies.drop_last());
    }
}

/// Actions of an attempt that were performed, with their replies.
pub type PerformedByAttempt = Seq<(ConnectAction, ConnectReply)>;

/// The actions that a series of replies answers, with their replies, in order.
pub open spec fn attempted(start: ConnectView, replies: Seq<ConnectReply>) -> PerformedByAttempt
    decreases replies.len(),
{
    if replies.len() == 0 {
        seq![]
    } else {
        let before = start.run(replies.drop_last());
        let so_far = attempted(start, replies.drop_last());
        if before.expects(replies.last()) {
            so_far.push((before.action()->Some_0, replies.last()))
        } else {
            so_far
        }
    }
}

/// What an attempt asks for next, given what it did: the stream is opened; the device is
/// pinged, three times at most and for 300 milliseconds each; once it answered, the estimator
/// is reset and a worker with room for eight commands is started.
pub open spec fn asked_next(
    service_id: u8,
    format: PointFormat,
    done: PerformedByAttempt,
) -> Option<ConnectAction> {
    if done.len() == 0 {
        Some(ConnectAction::OpenStream(service_id, format))
    } else {
        match done.last() {
            (ConnectAction::OpenStream(..), ConnectReply::Opened) => Some(ConnectAction::Ping(300)),
            (ConnectAction::Ping(_), ConnectReply::Answered(answered)) => if answered {
                Some(ConnectAction::ResetEstimator)
            } else if done.len() < 4 {
                Some(ConnectAction::Ping(300))
            } else {
                None
            },
            (ConnectAction::ResetEstimator, _) => Some(ConnectAction::StartWorker(8, format)),
            _ => None,
        }
    }
}

spec fn attempt_in_order(
    service_id: u8,
    format: PointFormat,
    v: ConnectView,
    done: PerformedByAttempt,
) -> bool {
    &&& v.action() == asked_next(service_id, format, done)
    &&& v.service_id == service_id
    &&& v.format == format
    &&& v.stage matches ConnectStage::Pinging(missed) ==> done.len() == missed + 1 && missed <= 2
    &&& done.len() > 0 ==> match done.last().1 {
        ConnectReply::Refused(message) => v.refused == Some(message@) && v.stage
            == ConnectStage::Failed,
        _ => v.refused is None,
    }
    &&& done.len() == 0 ==> v.refused is None
    &&& v.stage == ConnectStage::Connected <==> done.len() > 0 && done.last().0 is StartWorker
    &&& v.stage == ConnectStage::Failed ==> done.len() > 0 && (done.last().1 is Refused || (
    done.last() == (ConnectAction::Ping(300), ConnectReply::Answered(false)) && done.len() == 4))
}

proof fn lemma_attempt(b: IdnView, replies: Seq<ConnectReply>)
    requires
        !b.running,
    ensures
        attempt_in_order(
            b.service.service_id,
            b.selected,
            ConnectView::start(b).run(replies),
            attempted(ConnectView::start(b), replies),
        ),
    decreases replies.len(),
{
    let start = ConnectView::start(b);
    if replies.len() > 0 {
        lemma_attempt(b, replies.drop_last());
        let v = start.run(replies.drop_last());
        let done = attempted(start, replies.drop_last());
        if v.expects(replies.last()) {
            let step = (v.action()->Some_0, replies.last());
            assert(done.push(step).last() == step);
        }
    }
}

/// Law: what an attempt asks for next is given by what it did, as [`asked_next`] tells it. It
/// has connected just when the worker was started; it has failed just when the stream could
/// not be opened, with the reason for it, or when three pings in a row went unanswered.
pub proof fn what_is_done_decides_what_is_asked(
    b: IdnBackend,
    attempt: Connecting,
    replies: Seq<ConnectReply>,
)
    requires
        !b@.running,
        call_ensures(IdnBackend::connect, (&b,), attempt),
    ensures
        ({
            let v = attempt@.run(replies);
            let done = attempted(attempt@, replies);
            &&& v.action() == asked_next(b@.service.service_id, b@.selected, done)
            &&& v.format == b@.selected
            &&& v.stage == ConnectStage::Connected <==> done.len() > 0 && done.last().0
                is StartWorker
            &&& v.stage == ConnectStage::Failed ==> done.len() > 0 && (done.last().1 is Refused
                || done.last() == (ConnectAction::Ping(300), ConnectReply::Answered(false)))
            &&& v.action() is None ==> v.stage == ConnectStage::Connected || v.stage
                == ConnectStage::Failed
            &&& done.len() > 0 && done.last().1 is Refused ==> v.refused == Some(
                done.last().1->Refused_0@,
            ) && v.stage == ConnectStage::Failed
            &&& !(done.len() > 0 && done.last().1 is Refused) ==> v.refused is None
        }),
{
    lemma_attempt(b@, replies);
}

/// Law: an attempt says where it stands and what it asks for, and goes on by a reply just if
/// the reply answers what it asked for: opened or refused to an opening, yes or no to a ping,
/// an acknowledgment to all else.
pub proof fn an_attempt_is_as_its_view(
    attempt: &mut Connecting,
    action: Option<ConnectAction>,
    stage: ConnectStage,
    reply: ConnectReply,
    accepted: bool,
)
    requires
        call_ensures(Connecting::next_action, (&*attempt,), action),
        call_ensures(Connecting::stage, (&*attempt,), stage),
        call_ensures(Connecting::complete, (attempt, reply), accepted),
    ensures
        action == old(attempt)@.action(),
        stage == old(attempt)@.stage,
        final(attempt)@ == old(attempt)@.next(reply),
        accepted <==> match action {
            Some(ConnectAction::OpenStream(..)) => reply is Opened || reply is Refused,
            Some(ConnectAction::Ping(_)) => reply is Answered,
            Some(_) => reply is Done,
            None => false,
        },
        !accepted ==> final(attempt)@ == old(attempt)@,
{
}

/// Law: an attempt that connected gives the backend a worker and puts the format of the
/// attempt in use; one that failed changes nothing and reports why: what the network stack
/// said, or that no ping was answered. Server, service, selection and spare buffers stay.
pub proof fn what_the_end_of_an_attempt_changes(
    b: &mut IdnBackend,
    attempt: Connecting,
    r: Result<(), Error>,
)
    requires
        (*b).wf(),
        attempt@.stage == ConnectStage::Connected || attempt@.stage == ConnectStage::Failed,
        call_ensures(IdnBackend::connected, (b, attempt), r),
    ensures
        final(b)@.server == old(b)@.server,
        final(b)@.service == old(b)@.service,
        final(b)@.selected == old(b)@.selected,
        final(b)@.pool == old(b)@.pool,
        r is Ok <==> attempt@.stage == ConnectStage::Connected,
        r is Ok ==> final(b)@.running && final(b)@.format == attempt@.format && streams_in(
            final(b)@.caps,
            attempt@.format,
        ),
        r is Err ==> final(b)@ == old(b)@,
        r matches Err(e) ==> match attempt@.refused {
            Some(message) => e@ == ErrorView::Backend(message),
            None => e@ == ErrorView::Disconnected(
                "IDN server did not respond to ping at connect"@,
            ),
        },
{
    super::chunk_laws::lemma_sizes(attempt@.format);
}

/// Law: a disconnect tells a worker to end, waits for it and resets the estimator, in that
/// order; without a worker it only resets the estimator. Afterwards there is no worker and the
/// selected format is in use; server, service, selection and spare buffers stay.
pub proof fn what_a_disconnect_does(b: &mut IdnBackend, r: Vec<LinkAction>)
    requires
        (*b).wf(),
        call_ensures(IdnBackend::disconnect, (b,), r),
    ensures
        old(b)@.running ==> r@.len() == 3 && r@[0] == LinkAction::SendShutdown && r@[1]
            == LinkAction::JoinWorker && r@[2] == LinkAction::ResetEstimator,
        !old(b)@.running ==> r@.len() == 1 && r@[0] == LinkAction::ResetEstimator,
        !final(b)@.running,
        final(b)@.format == old(b)@.selected,
        streams_in(final(b)@.caps, old(b)@.selected),
        final(b)@.server == old(b)@.server,
        final(b)@.service == old(b)@.service,
        final(b)@.selected == old(b)@.selected,
        final(b)@.pool == old(b)@.pool,
{
    super::chunk_laws::lemma_sizes(old(b)@.selected);
}

/// Law: a stop tells a worker to drop what waits and to blank the output, and resets the
/// estimator after it; without a worker it only resets the estimator.
pub proof fn what_a_stop_does(b: IdnBackend, r: Vec<LinkAction>)
    requires
        call_ensures(IdnBackend::stop, (&b,), r),
    ensures
        b@.running ==> r@.len() == 2 && r@[0] == LinkAction::SendStop && r@[1]
            == LinkAction::ResetEstimator,
        !b@.running ==> r@.len() == 1 && r@[0] == LinkAction::ResetEstimator,
{
}

/// The points in a wire format, one by one.
pub open spec fn point_by_point(
    points: Seq<LaserPoint>,
    format: PointFormat,
    sent: PointsView,
) -> bool {
    match sent {
        PointsView::Xyrgbi(s) => {
            &&& format == PointFormat::Xyrgbi
            &&& s.len() == points.len()
            &&& forall|k: int| 0 <= k < s.len() ==> #[trigger] s[k] == points[k].xyrgbi
        },
        PointsView::HighRes(s) => {
            &&& format == PointFormat::XyrgbHighRes
            &&& s.len() == points.len()
            &&& forall|k: int| 0 <= k < s.len() ==> #[trigger] s[k] == points[k].high_res
        },
        PointsView::Extended(s) => {
            &&& format == PointFormat::Extended
            &&& s.len() == points.len()
            &&& forall|k: int| 0 <= k < s.len() ==> #[trigger] s[k] == points[k].extended
        },
    }
}

/// The rate that goes to the worker: between 1 and 100000, and as asked for in between.
pub open spec fn rate_sent(pps: u32) -> u32 {
    if pps == 0 {
        1
    } else if pps > 100_000 {
        100_000
    } else {
        pps
    }
}

/// Law: a chunk holds the points that were written, one by one and in order, in the format in
/// use, at the rate that was asked for or the nearest one from 1 to 100000. Of the backend only
/// the spare buffers change.
pub proof fn what_is_built_is_what_was_written(
    b: &mut IdnBackend,
    pps: u32,
    points: &[LaserPoint],
    r: QueuedChunk,
)
    requires
        (*b).wf(),
        call_ensures(IdnBackend::build_chunk, (b, pps, points), r),
    ensures
        r.pps == rate_sent(pps),
        point_by_point(points@, old(b)@.format, r.points@),
        final(b)@.server == old(b)@.server,
        final(b)@.service == old(b)@.service,
        final(b)@.selected == old(b)@.selected,
        final(b)@.format == old(b)@.format,
        final(b)@.caps == old(b)@.caps,
        final(b)@.running == old(b)@.running,
        one_spare_less(old(b)@, final(b)@),
{
    b.lemma_wf();
}

/// A spare buffer of the format in use left, the first one, if there was one; the others stay
/// in their order.
pub open spec fn one_spare_less(before: IdnView, after: IdnView) -> bool {
    match before.format {
        PointFormat::Xyrgbi => {
            &&& after.pool.high_res == before.pool.high_res
            &&& after.pool.extended == before.pool.extended
            &&& after.pool.xyrgbi == if before.pool.xyrgbi.len() > 0 {
                before.pool.xyrgbi.skip(1)
            } else {
                before.pool.xyrgbi
            }
        },
        PointFormat::XyrgbHighRes => {
            &&& after.pool.xyrgbi == before.pool.xyrgbi
            &&& after.pool.extended == before.pool.extended
            &&& after.pool.high_res == if before.pool.high_res.len() > 0 {
                before.pool.high_res.skip(1)
            } else {
                before.pool.high_res
            }
        },
        PointFormat::Extended => {
            &&& after.pool.xyrgbi == before.pool.xyrgbi
            &&& after.pool.high_res == before.pool.high_res
            &&& after.pool.extended == if before.pool.extended.len() > 0 {
                before.pool.extended.skip(1)
            } else {
                before.pool.extended
            }
        },
    }
}

/// Law: a write to a backend without a worker, or whose worker is gone, is refused as
/// disconnected, each with its own words, and changes nothing; any other write makes a command
/// that carries the points, one by one and in order, in the format in use and at the rate that
/// was asked for or the nearest one from 1 to 100000.
pub proof fn what_a_write_hands_over(
    b: &mut IdnBackend,
    alive: bool,
    pps: u32,
    points: &[LaserPoint],
    r: Result<WorkerCommand, Error>,
)
    requires
        (*b).wf(),
        call_ensures(IdnBackend::begin_write, (b, alive, pps, points), r),
    ensures
        r is Ok <==> old(b)@.running && alive,
        r matches Err(e) ==> e@ == if old(b)@.running {
            ErrorView::Disconnected("IDN sender thread disconnected"@)
        } else {
            ErrorView::Disconnected("Not connected"@)
        },
        r is Err ==> final(b)@ == old(b)@,
        r matches Ok(command) ==> {
            &&& command is Chunk
            &&& command->Chunk_0.pps == rate_sent(pps)
            &&& point_by_point(points@, old(b)@.format, command->Chunk_0.points@)
            &&& one_spare_less(old(b)@, final(b)@)
        },
        final(b)@.server == old(b)@.server,
        final(b)@.service == old(b)@.service,
        final(b)@.selected == old(b)@.selected,
        final(b)@.format == old(b)@.format,
        final(b)@.caps == old(b)@.caps,
        final(b)@.running == old(b)@.running,
{
    b.lemma_wf();
}

/// Law: a command that went to the worker is a write, which the estimator records with the
/// number of points and the rate as it was asked for; one that found no room would block and
/// one that found no worker fails as disconnected, and neither is recorded.
pub proof fn what_becomes_of_a_write(
    outcome: SendOutcome,
    pps: u32,
    count: usize,
    r: (Result<WriteOutcome, Error>, Option<SendRecord>),
)
    requires
        call_ensures(finish_write, (outcome, pps, count), r),
    ensures
        outcome == SendOutcome::Sent ==> r.0 == Ok::<WriteOutcome, Error>(WriteOutcome::Written)
            && r.1 is Some && r.1->Some_0.points == count && r.1->Some_0.pps == pps,
        outcome == SendOutcome::Full ==> r.0 == Ok::<WriteOutcome, Error>(
            WriteOutcome::WouldBlock,
        ) && r.1 is None,
        outcome == SendOutcome::Disconnected ==> r.0 is Err && r.0->Err_0@
            == ErrorView::Disconnected("IDN sender thread disconnected"@) && r.1 is None,
{
}

/// Law: a buffer that is given back goes, emptied, behind the spare buffers of its format, if
/// they are fewer than sixteen; nothing else of the backend changes, and its former owner keeps
/// no points.
pub proof fn what_giving_a_buffer_back_changes(b: &mut IdnBackend, points: &mut ChunkPoints)
    requires
        (*b).wf(),
        call_ensures(IdnBackend::recycle, (b, points), ()),
    ensures
        final(b)@.server == old(b)@.server,
        final(b)@.service == old(b)@.service,
        final(b)@.selected == old(b)@.selected,
        final(b)@.format == old(b)@.format,
        final(b)@.caps == old(b)@.caps,
        final(b)@.running == old(b)@.running,
        super::pool_laws::one_spare_more(*old(points), old(b)@.pool, final(b)@.pool),
        super::pool_laws::emptied(*old(points), *final(points)),
{
    super::pool_laws::lemma_one_more(*old(points), old(b)@.pool, final(b)@.pool);
}

/// Law: a backend pools the very buffer that was given back, cleared.
pub proof fn a_backend_pools_the_very_buffer(b: &mut IdnBackend, points: &mut ChunkPoints)
    requires
        (*b).wf(),
        call_ensures(IdnBackend::recycle, (b, points), ()),
    ensures
        match *old(points) {
            ChunkPoints::Xyrgbi(v) => exists|m: &mut Vec<PointXyrgbi>|
                *m == v && #[trigger] call_ensures(Vec::<PointXyrgbi>::clear, (m,), ()) && (
                old(b)@.pool.xyrgbi.len() < 16 ==> final(b)@.pool.xyrgbi.last()
                    == ChunkPoints::Xyrgbi(*final(m))),
            ChunkPoints::HighRes(v) => exists|m: &mut Vec<PointXyrgbHighRes>|
                *m == v && #[trigger] call_ensures(Vec::<PointXyrgbHighRes>::clear, (m,), ()) && (
                old(b)@.pool.high_res.len() < 16 ==> final(b)@.pool.high_res.last()
                    == ChunkPoints::HighRes(*final(m))),
            ChunkPoints::Extended(v) => exists|m: &mut Vec<PointExtended>|
                *m == v && #[trigger] call_ensures(Vec::<PointExtended>::clear, (m,), ()) && (
                old(b)@.pool.extended.len() < 16 ==> final(b)@.pool.extended.last()
                    == ChunkPoints::Extended(*final(m))),
        },
{
}

} // verus!
