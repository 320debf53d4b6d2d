//! What chunks are, told field by field and number by number.
use std::collections::VecDeque;

use vstd::prelude::*;

use super::chunk::{
    blank_chunk, handle_worker_command, max_points_per_chunk_for, ChunkPoints, PointFormat,
    PointsView, QueuedChunk, WorkerCommand, CHANNEL_MESSAGE_HEADER_BYTES, MAX_UDP_PAYLOAD,
    PACKET_HEADER_BYTES, SAMPLE_CHUNK_HEADER_BYTES,
};
use crate::point::{PointExtended, PointXyrgbHighRes, PointXyrgbi};

verus! {

/// Ten points in the given format, each at the centre and without light: every colour, the
/// intensity and the user channels are zero.
pub open spec fn ten_dark_points(points: PointsView, format: PointFormat) -> bool {
    match points {
        PointsView::Xyrgbi(s) => {
            &&& format == PointFormat::Xyrgbi
            &&& s.len() == 10
            &&& forall|k: int|
                0 <= k < 10 ==> (#[trigger] s[k]).x == 0 && s[k].y == 0 && s[k].r == 0 && s[k].g
                    == 0 && s[k].b == 0 && s[k].i == 0
        },
        PointsView::HighRes(s) => {
            &&& format == PointFormat::XyrgbHighRes
            &&& s.len() == 10
            &&& forall|k: int|
                0 <= k < 10 ==> (#[trigger] s[k]).x == 0 && s[k].y == 0 && s[k].r == 0 && s[k].g
                    == 0 && s[k].b == 0
        },
        PointsView::Extended(s) => {
            &&& format == PointFormat::Extended
            &&& s.len() == 10
            &&& forall|k: int|
                0 <= k < 10 ==> (#[trigger] s[k]).x == 0 && s[k].y == 0 && s[k].r == 0 && s[k].g
                    == 0 && s[k].b == 0 && s[k].i == 0 && s[k].u1 == 0 && s[k].u2 == 0 && s[k].u3
                    == 0 && s[k].u4 == 0
        },
    }
}

/// Law: the default points of every wire form carry no light and stand at the centre, and a
/// point made from wire values carries just those.
pub proof fn default_points_are_dark(
    a: PointXyrgbi,
    b: PointXyrgbHighRes,
    c: PointExtended,
    wire: (i16, i16, u8, u8, u8, u8),
    p: PointXyrgbi,
)
    requires
        call_ensures(PointXyrgbi::default, (), a),
        call_ensures(PointXyrgbHighRes::default, (), b),
        call_ensures(PointExtended::default, (), c),
        call_ensures(PointXyrgbi::new, wire, p),
    ensures
        a.x == 0 && a.y == 0 && a.r == 0 && a.g == 0 && a.b == 0 && a.i == 0,
        b.x == 0 && b.y == 0 && b.r == 0 && b.g == 0 && b.b == 0,
        c.x == 0 && c.y == 0 && c.r == 0 && c.g == 0 && c.b == 0 && c.i == 0,
        c.u1 == 0 && c.u2 == 0 && c.u3 == 0 && c.u4 == 0,
        p.x == wire.0 && p.y == wire.1 && p.r == wire.2 && p.g == wire.3 && p.b == wire.4 && p.i
            == wire.5,
{
}

/// Law: a blank chunk is for the rate and in the format that was asked for, and is ten dark
/// points.
pub proof fn a_blank_chunk_is_dark(pps: u32, format: PointFormat, r: QueuedChunk)
    requires
        call_ensures(blank_chunk, (pps, format), r),
    ensures
        r.pps == pps,
        ten_dark_points(r.points@, format),
{
    lemma_blank(pps, format);
}

/// The blank chunk, field by field.
pub proof fn lemma_blank(pps: u32, format: PointFormat)
    ensures
        super::chunk::blank_view(pps, format).pps == pps,
        ten_dark_points(super::chunk::blank_view(pps, format).points, format),
{
}

/// Law: a stop leaves just one chunk in the queue, whatever waited there: ten points, at the
/// rate of the last chunk and in the format of the stream, each at the centre with every
/// colour, the intensity and the user channels at zero.
pub proof fn a_stop_leaves_ten_dark_points(
    queue: &mut VecDeque<QueuedChunk>,
    last_pps: u32,
    format: PointFormat,
    goes_on: bool,
)
    requires
        call_ensures(
            handle_worker_command,
            (WorkerCommand::Stop, queue, last_pps, format),
            goes_on,
        ),
    ensures
        goes_on,
        final(queue)@.len() == 1,
        final(queue)@[0].pps == last_pps,
        match final(queue)@[0].points {
            ChunkPoints::Xyrgbi(v) => {
                &&& format == PointFormat::Xyrgbi
                &&& v@.len() == 10
                &&& forall|k: int|
                    0 <= k < 10 ==> (#[trigger] v@[k]).x == 0 && v@[k].y == 0 && v@[k].r == 0
                        && v@[k].g == 0 && v@[k].b == 0 && v@[k].i == 0
            },
            ChunkPoints::HighRes(v) => {
                &&& format == PointFormat::XyrgbHighRes
                &&& v@.len() == 10
                &&& forall|k: int|
                    0 <= k < 10 ==> (#[trigger] v@[k]).x == 0 && v@[k].y == 0 && v@[k].r == 0
                        && v@[k].g == 0 && v@[k].b == 0
            },
            ChunkPoints::Extended(v) => {
                &&& format == PointFormat::Extended
                &&& v@.len() == 10
                &&& forall|k: int|
                    0 <= k < 10 ==> (#[trigger] v@[k]).x == 0 && v@[k].y == 0 && v@[k].r == 0
                        && v@[k].g == 0 && v@[k].b == 0 && v@[k].i == 0 && v@[k].u1 == 0
                        && v@[k].u2 == 0 && v@[k].u3 == 0 && v@[k].u4 == 0
            },
        },
{
    let after = super::chunk::chunk_views(final(queue)@);
    assert(after.len() == 1);
    assert(after[0] == final(queue)@[0]@);
    lemma_blank(last_pps, format);
}

/// Law: a chunk goes behind all that waits, with its rate and its points as they are, and
/// nothing that waits is changed.
pub proof fn a_chunk_goes_behind_what_waits(
    chunk: QueuedChunk,
    queue: &mut VecDeque<QueuedChunk>,
    last_pps: u32,
    format: PointFormat,
    goes_on: bool,
)
    requires
        call_ensures(
            handle_worker_command,
            (WorkerCommand::Chunk(chunk), queue, last_pps, format),
            goes_on,
        ),
    ensures
        goes_on,
        final(queue)@.len() == old(queue)@.len() + 1,
        final(queue)@.last().pps == chunk.pps,
        final(queue)@.last().points@ == chunk.points@,
        forall|k: int|
            #![trigger final(queue)@[k]]
            0 <= k < old(queue)@.len() ==> final(queue)@[k].pps == old(queue)@[k].pps && final(queue)@[k].points@ == old(queue)@[k].points@,
{
    let before = super::chunk::chunk_views(old(queue)@);
    let after = super::chunk::chunk_views(final(queue)@);
    assert(after.len() == before.len() + 1);
    assert(after.last() == final(queue)@.last()@);
    assert forall|k: int|
        #![trigger final(queue)@[k]]
        0 <= k < old(queue)@.len() implies final(queue)@[k].pps == old(queue)@[k].pps && final(queue)@[k].points@ == old(queue)@[k].points@ by {
        assert(after[k] == final(queue)@[k]@);
        assert(before[k] == old(queue)@[k]@);
    }
}

/// Law: a shutdown ends the worker and leaves the queue alone.
pub proof fn a_shutdown_ends_the_worker(
    queue: &mut VecDeque<QueuedChunk>,
    last_pps: u32,
    format: PointFormat,
    goes_on: bool,
)
    requires
        call_ensures(
            handle_worker_command,
            (WorkerCommand::Shutdown, queue, last_pps, format),
            goes_on,
        ),
    ensures
        !goes_on,
        final(queue)@.len() == old(queue)@.len(),
        forall|k: int|
            #![trigger final(queue)@[k]]
            0 <= k < old(queue)@.len() ==> final(queue)@[k].pps == old(queue)@[k].pps && final(queue)@[k].points@ == old(queue)@[k].points@,
{
    let before = super::chunk::chunk_views(old(queue)@);
    let after = super::chunk::chunk_views(final(queue)@);
    assert(after.len() == before.len());
    assert forall|k: int|
        #![trigger final(queue)@[k]]
        0 <= k < old(queue)@.len() implies final(queue)@[k].pps == old(queue)@[k].pps && final(queue)@[k].points@ == old(queue)@[k].points@ by {
        assert(after[k] == final(queue)@[k]@);
        assert(before[k] == old(queue)@[k]@);
    }
}

/// Law: a point takes 8, 10 or 20 bytes, and 179, 143 or 71 of them make a full chunk.
pub proof fn sizes_on_the_wire(format: PointFormat, bytes: usize, points: usize)
    requires
        call_ensures(PointFormat::size_bytes, (format,), bytes),
        call_ensures(max_points_per_chunk_for, (format,), points),
    ensures
        match format {
            PointFormat::Xyrgbi => bytes == 8 && points == 179,
            PointFormat::XyrgbHighRes => bytes == 10 && points == 143,
            PointFormat::Extended => bytes == 20 && points == 71,
        },
{
    lemma_sizes(format);
}

/// Law: a datagram carries 1454 bytes at most, of which the packet header takes 4, the channel
/// message header 8 and the sample chunk header 4; so a full chunk has as many points as fit
/// the 1438 bytes that are left, and one more would not fit.
pub proof fn a_full_chunk_fills_a_datagram(format: PointFormat, bytes: usize, points: usize)
    requires
        call_ensures(PointFormat::size_bytes, (format,), bytes),
        call_ensures(max_points_per_chunk_for, (format,), points),
    ensures
        MAX_UDP_PAYLOAD == 1454,
        PACKET_HEADER_BYTES == 4,
        CHANNEL_MESSAGE_HEADER_BYTES == 8,
        SAMPLE_CHUNK_HEADER_BYTES == 4,
        points * bytes <= 1438 < (points + 1) * bytes,
{
    lemma_sizes(format);
    match format {
        PointFormat::Xyrgbi => assert(points == 179 && bytes == 8),
        PointFormat::XyrgbHighRes => assert(points == 143 && bytes == 10),
        PointFormat::Extended => assert(points == 71 && bytes == 20),
    }
    assert(points * bytes <= 1438 < (points + 1) * bytes) by (nonlinear_arith)
        requires
            (points == 179 && bytes == 8) || (points == 143 && bytes == 10) || (points == 71
                && bytes == 20),
    ;
}

/// The points that fit one datagram, as numbers.
pub proof fn lemma_sizes(format: PointFormat)
    ensures
        super::chunk::points_per_datagram(format) == match format {
            PointFormat::Xyrgbi => 179nat,
            PointFormat::XyrgbHighRes => 143nat,
            PointFormat::Extended => 71nat,
        },
{
}

/// Law: the length of a chunk is the number of points in its buffer, whatever its format.
pub proof fn a_chunk_counts_its_points(points: ChunkPoints, r: usize)
    requires
        call_ensures(ChunkPoints::len, (&points,), r),
    ensures
        match points {
            ChunkPoints::Xyrgbi(v) => r == v@.len(),
            ChunkPoints::HighRes(v) => r == v@.len(),
            ChunkPoints::Extended(v) => r == v@.len(),
        },
{
}

} // verus!
