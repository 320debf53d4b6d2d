//! Chunks of points in a wire format, and the queue of chunks that the worker keeps.
use std::collections::VecDeque;

use vstd::prelude::*;

use crate::point::{PointExtended, PointXyrgbHighRes, PointXyrgbi};

verus! {

/// Wire format of the points in a stream.
#[derive(Debug, Clone, Copy, PartialEq, Eq, Structural)]
pub enum PointFormat {
    /// 8-bit colour and intensity, understood by every receiver.
    Xyrgbi,
    /// 16-bit colour.
    XyrgbHighRes,
    /// 16-bit colour and intensity, with user channels.
    Extended,
}

impl PointFormat {
    /// Bytes that one point takes on the wire.
    pub open spec fn bytes(self) -> nat {
        match self {
            PointFormat::Xyrgbi => 8,
            PointFormat::XyrgbHighRes => 10,
            PointFormat::Extended => 20,
        }
    }

    /// Bytes that one point takes on the wire.
    pub fn size_bytes(self) -> (r: usize)
        ensures
            r == self.bytes(),
    {
        match self {
            PointFormat::Xyrgbi => 8,
            PointFormat::XyrgbHighRes => 10,
            PointFormat::Extended => 20,
        }
    }
}

/// Most bytes that one datagram carries.
pub const MAX_UDP_PAYLOAD: usize = 1454;

/// Bytes of the packet header.
pub const PACKET_HEADER_BYTES: usize = 4;

/// Bytes of the channel message header.
pub const CHANNEL_MESSAGE_HEADER_BYTES: usize = 8;

/// Bytes of the sample chunk header.
pub const SAMPLE_CHUNK_HEADER_BYTES: usize = 4;

/// Points that fit in one datagram without a configuration header.
pub open spec fn points_per_datagram(format: PointFormat) -> nat {
    ((MAX_UDP_PAYLOAD - (PACKET_HEADER_BYTES + CHANNEL_MESSAGE_HEADER_BYTES
        + SAMPLE_CHUNK_HEADER_BYTES)) / format.bytes() as int) as nat
}

/// Points that fit in one datagram without a configuration header, which keeps chunk sizes
/// aligned with the sample size.
pub fn max_points_per_chunk_for(format: PointFormat) -> (r: usize)
    ensures
        r == points_per_datagram(format),
{
    let header: usize = PACKET_HEADER_BYTES + CHANNEL_MESSAGE_HEADER_BYTES
        + SAMPLE_CHUNK_HEADER_BYTES;
    (MAX_UDP_PAYLOAD - header) / format.size_bytes()
}

/// A chunk of that many points fits one datagram with its headers, and one point more would
/// not.
pub proof fn a_full_chunk_fits_one_datagram(format: PointFormat)
    ensures
        ({
            let header = PACKET_HEADER_BYTES + CHANNEL_MESSAGE_HEADER_BYTES
                + SAMPLE_CHUNK_HEADER_BYTES;
            let points = points_per_datagram(format);
            header + points * format.bytes() <= MAX_UDP_PAYLOAD < header + (points + 1)
                * format.bytes()
        }),
{
    match format {
        PointFormat::Xyrgbi => assert(points_per_datagram(format) == 179),
        PointFormat::XyrgbHighRes => assert(points_per_datagram(format) == 143),
        PointFormat::Extended => assert(points_per_datagram(format) == 71),
    }
}

/// A chunk of converted points in one wire format.
#[derive(Debug)]
pub enum ChunkPoints {
    Xyrgbi(Vec<PointXyrgbi>),
    HighRes(Vec<PointXyrgbHighRes>),
    Extended(Vec<PointExtended>),
}

/// Mathematical view of [`ChunkPoints`].
#[verifier::ext_equal]
pub enum PointsView {
    Xyrgbi(Seq<PointXyrgbi>),
    HighRes(Seq<PointXyrgbHighRes>),
    Extended(Seq<PointExtended>),
}

impl View for ChunkPoints {
    type V = PointsView;

    open spec fn view(&self) -> PointsView {
        match self {
            ChunkPoints::Xyrgbi(v) => PointsView::Xyrgbi(v@),
            ChunkPoints::HighRes(v) => PointsView::HighRes(v@),
            ChunkPoints::Extended(v) => PointsView::Extended(v@),
        }
    }
}

impl PointsView {
    /// The number of points.
    pub open spec fn count(self) -> nat {
        match self {
            PointsView::Xyrgbi(s) => s.len(),
            PointsView::HighRes(s) => s.len(),
            PointsView::Extended(s) => s.len(),
        }
    }

    /// The wire format of the points.
    pub open spec fn format(self) -> PointFormat {
        match self {
            PointsView::Xyrgbi(_) => PointFormat::Xyrgbi,
            PointsView::HighRes(_) => PointFormat::XyrgbHighRes,
            PointsView::Extended(_) => PointFormat::Extended,
        }
    }

    /// No points, in the given format.
    pub open spec fn none(format: PointFormat) -> PointsView {
        match format {
            PointFormat::Xyrgbi => PointsView::Xyrgbi(Seq::empty()),
            PointFormat::XyrgbHighRes => PointsView::HighRes(Seq::empty()),
            PointFormat::Extended => PointsView::Extended(Seq::empty()),
        }
    }

    /// `count` dark points at the centre, in the given format.
    pub open spec fn blank(format: PointFormat, count: nat) -> PointsView {
        match format {
            PointFormat::Xyrgbi => PointsView::Xyrgbi(
                Seq::new(count, |i: int| PointXyrgbi::blank()),
            ),
            PointFormat::XyrgbHighRes => PointsView::HighRes(
                Seq::new(count, |i: int| PointXyrgbHighRes::blank()),
            ),
            PointFormat::Extended => PointsView::Extended(
                Seq::new(count, |i: int| PointExtended::blank()),
            ),
        }
    }
}

impl ChunkPoints {
    /// The number of points.
    pub fn len(&self) -> (r: usize)
        ensures
            r == self@.count(),
    {
        match self {
            ChunkPoints::Xyrgbi(v) => v.len(),
            ChunkPoints::HighRes(v) => v.len(),
            ChunkPoints::Extended(v) => v.len(),
        }
    }
}

/// A chunk that waits to be sent.
#[derive(Debug)]
pub struct QueuedChunk {
    /// Rate at which the points are to be shown.
    pub pps: u32,
    pub points: ChunkPoints,
}

/// Mathematical view of a [`QueuedChunk`].
#[verifier::ext_equal]
pub struct ChunkView {
    pub pps: u32,
    pub points: PointsView,
}

impl View for QueuedChunk {
    type V = ChunkView;

    open spec fn view(&self) -> ChunkView {
        ChunkView { pps: self.pps, points: self.points@ }
    }
}

/// The views of a series of chunks.
pub open spec fn chunk_views(chunks: Seq<QueuedChunk>) -> Seq<ChunkView> {
    chunks.map_values(|c: QueuedChunk| c@)
}

/// The points of a blank chunk.
pub const BLANK_POINTS: usize = 10;

/// The chunk that blanks the output.
pub open spec fn blank_view(pps: u32, format: PointFormat) -> ChunkView {
    ChunkView { pps, points: PointsView::blank(format, BLANK_POINTS as nat) }
}

/// The chunk that blanks the output: ten dark points.
pub fn blank_chunk(pps: u32, format: PointFormat) -> (r: QueuedChunk)
    ensures
        r@ == blank_view(pps, format),
{
    let points = match format {
        PointFormat::Xyrgbi => ChunkPoints::Xyrgbi(vec![PointXyrgbi::default(); BLANK_POINTS]),
        PointFormat::XyrgbHighRes => ChunkPoints::HighRes(
            vec![PointXyrgbHighRes::default(); BLANK_POINTS],
        ),
        PointFormat::Extended => ChunkPoints::Extended(
            vec![PointExtended::default(); BLANK_POINTS],
        ),
    };
    let r = QueuedChunk { pps, points };
    assert(r@ =~~= blank_view(pps, format));
    r
}

/// What the backend tells its worker.
#[derive(Debug)]
pub enum WorkerCommand {
    /// Send this chunk after those that wait.
    Chunk(QueuedChunk),
    /// Drop what waits and blank the output.
    Stop,
    /// End the worker.
    Shutdown,
}

/// What a command does to the chunks that wait; `None` if it ends the worker.
pub open spec fn after_command(
    waiting: Seq<ChunkView>,
    command: WorkerCommand,
    last_pps: u32,
    format: PointFormat,
) -> Option<Seq<ChunkView>> {
    match command {
        WorkerCommand::Chunk(chunk) => Some(waiting.push(chunk@)),
        WorkerCommand::Stop => Some(seq![blank_view(last_pps, format)]),
        WorkerCommand::Shutdown => None,
    }
}

/// Carry out a command on the chunks that wait. Returns whether the worker goes on.
pub fn handle_worker_command(
    cmd: WorkerCommand,
    queue: &mut VecDeque<QueuedChunk>,
    last_pps: u32,
    point_format: PointFormat,
) -> (goes_on: bool)
    ensures
        goes_on <==> !(cmd is Shutdown),
        chunk_views(final(queue)@) == match after_command(
            chunk_views(old(queue)@),
            cmd,
            last_pps,
            point_format,
        ) {
            Some(waiting) => waiting,
            None => chunk_views(old(queue)@),
        },
{
    match cmd {
        WorkerCommand::Chunk(chunk) => {
            queue.push_back(chunk);
            assert(chunk_views(queue@) =~= chunk_views(old(queue)@).push(chunk@));
            true
        },
        WorkerCommand::Stop => {
            queue.clear();
            let blank = blank_chunk(last_pps, point_format);
            queue.push_back(blank);
            assert(chunk_views(queue@) =~= seq![blank@]);
            true
        },
        WorkerCommand::Shutdown => false,
    }
}

} // verus!
