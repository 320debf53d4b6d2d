//! Free list of conversion buffers.
use crossbeam_queue::ArrayQueue;

use vstd::prelude::*;

use super::chunk::{ChunkPoints, PointFormat, PointsView};
use crate::point::{PointExtended, PointXyrgbHighRes, PointXyrgbi};
use crate::protocols::queue::{new_buffer_queue, pop_buffer, push_buffer};

verus! {

/// Bounded free list of conversion buffers.
///
/// The producer takes a buffer, fills it and hands it to the worker inside a chunk; after
/// sending, the drained buffer comes back here, so that the next chunk reuses its
/// allocation.
pub struct ChunkBufferPool {
    xyrgbi: ArrayQueue<ChunkPoints>,
    high_res: ArrayQueue<ChunkPoints>,
    extended: ArrayQueue<ChunkPoints>,
}

/// Most spare buffers of one format: the worker queue and the chunks in flight.
pub const POOL_CAPACITY: usize = 16;

/// Mathematical view of a [`ChunkBufferPool`]: the spare buffers of each format, the one
/// that is handed out next first. They are all empty.
#[verifier::ext_equal]
pub struct PoolView {
    pub xyrgbi: Seq<ChunkPoints>,
    pub high_res: Seq<ChunkPoints>,
    pub extended: Seq<ChunkPoints>,
}

impl PoolView {
    /// A pool without spare buffers.
    pub open spec fn empty() -> PoolView {
        PoolView { xyrgbi: Seq::empty(), high_res: Seq::empty(), extended: Seq::empty() }
    }

    /// The spare buffers of a format.
    pub open spec fn spares(self, format: PointFormat) -> Seq<ChunkPoints> {
        match format {
            PointFormat::Xyrgbi => self.xyrgbi,
            PointFormat::XyrgbHighRes => self.high_res,
            PointFormat::Extended => self.extended,
        }
    }

    /// The pool with other spare buffers of a format.
    pub open spec fn with_spares(self, format: PointFormat, buffers: Seq<ChunkPoints>) -> PoolView {
        match format {
            PointFormat::Xyrgbi => PoolView { xyrgbi: buffers, ..self },
            PointFormat::XyrgbHighRes => PoolView { high_res: buffers, ..self },
            PointFormat::Extended => PoolView { extended: buffers, ..self },
        }
    }

    /// The pool after a buffer was taken: the first one leaves, if there is one.
    pub open spec fn after_take(self, format: PointFormat) -> PoolView {
        if self.spares(format).len() > 0 {
            self.with_spares(format, self.spares(format).drop_first())
        } else {
            self
        }
    }

    /// The pool after `buffer` was given back: it comes last, and one too many is dropped.
    pub open spec fn after_recycle(self, format: PointFormat, buffer: ChunkPoints) -> PoolView {
        if self.spares(format).len() < POOL_CAPACITY {
            self.with_spares(format, self.spares(format).push(buffer))
        } else {
            self
        }
    }

    /// Giving back a buffer of a format may lead to `after`: some empty buffer of the format
    /// was added.
    pub open spec fn recycles(self, format: PointFormat, after: PoolView) -> bool {
        exists|buffer: ChunkPoints|
            buffer@ == PointsView::none(format) && after == #[trigger] self.after_recycle(
                format,
                buffer,
            )
    }
}

/// All buffers in the queue are empty and of the given format, and there are not too many.
closed spec fn queue_wf(queue: ArrayQueue<ChunkPoints>, format: PointFormat) -> bool {
    let buffers = crate::protocols::queue::pooled_buffers(queue);
    &&& crate::protocols::queue::buffer_capacity(queue) == POOL_CAPACITY
    &&& buffers.len() <= POOL_CAPACITY
    &&& forall|i: int|
        0 <= i < buffers.len() ==> #[trigger] buffers[i]@ == PointsView::none(format)
}

impl View for ChunkBufferPool {
    type V = PoolView;

    closed spec fn view(&self) -> PoolView {
        PoolView {
            xyrgbi: crate::protocols::queue::pooled_buffers(self.xyrgbi),
            high_res: crate::protocols::queue::pooled_buffers(self.high_res),
            extended: crate::protocols::queue::pooled_buffers(self.extended),
        }
    }
}

fn take_buffer(queue: &mut ArrayQueue<ChunkPoints>, Ghost(format): Ghost<PointFormat>) -> (r:
    Option<ChunkPoints>)
    requires
        queue_wf(*old(queue), format),
    ensures
        queue_wf(*final(queue), format),
        ({
            let before = crate::protocols::queue::pooled_buffers(*old(queue));
            let after = crate::protocols::queue::pooled_buffers(*final(queue));
            if before.len() > 0 {
                r == Some(before[0]) && before[0]@ == PointsView::none(format) && after
                    == before.drop_first()
            } else {
                r is None && after == before
            }
        }),
{
    pop_buffer(queue)
}

fn give_buffer(
    queue: &mut ArrayQueue<ChunkPoints>,
    buffer: ChunkPoints,
    Ghost(format): Ghost<PointFormat>,
)
    requires
        queue_wf(*old(queue), format),
        buffer@ == PointsView::none(format),
    ensures
        queue_wf(*final(queue), format),
        ({
            let before = crate::protocols::queue::pooled_buffers(*old(queue));
            crate::protocols::queue::pooled_buffers(*final(queue)) == if before.len()
                < POOL_CAPACITY {
                before.push(buffer)
            } else {
                before
            }
        }),
{
    let _ = push_buffer(queue, buffer);
}

impl ChunkBufferPool {
    /// All spare buffers are empty and of the right format, and there are not too many.
    pub closed spec fn wf(&self) -> bool {
        &&& queue_wf(self.xyrgbi, PointFormat::Xyrgbi)
        &&& queue_wf(self.high_res, PointFormat::XyrgbHighRes)
        &&& queue_wf(self.extended, PointFormat::Extended)
    }

    /// A pool without spare buffers.
    pub fn new() -> (r: Self)
        ensures
            r.wf(),
            r@ == PoolView::empty(),
    {
        ChunkBufferPool {
            xyrgbi: new_buffer_queue(POOL_CAPACITY),
            high_res: new_buffer_queue(POOL_CAPACITY),
            extended: new_buffer_queue(POOL_CAPACITY),
        }
    }

    /// A spare buffer, or a fresh one if there is none.
    pub fn take_xyrgbi(&mut self) -> (r: Vec<PointXyrgbi>)
        requires
            old(self).wf(),
        ensures
            final(self).wf(),
            final(self)@ == old(self)@.after_take(PointFormat::Xyrgbi),
            old(self)@.spares(PointFormat::Xyrgbi).len() > 0 ==> ChunkPoints::Xyrgbi(r)
                == old(self)@.spares(PointFormat::Xyrgbi)[0],
            r@.len() == 0,
    {
        match take_buffer(&mut self.xyrgbi, Ghost(PointFormat::Xyrgbi)) {
            Some(ChunkPoints::Xyrgbi(v)) => v,
            _ => Vec::new(),
        }
    }

    /// A spare buffer, or a fresh one if there is none.
    pub fn take_high_res(&mut self) -> (r: Vec<PointXyrgbHighRes>)
        requires
            old(self).wf(),
        ensures
            final(self).wf(),
            final(self)@ == old(self)@.after_take(PointFormat::XyrgbHighRes),
            old(self)@.spares(PointFormat::XyrgbHighRes).len() > 0 ==> ChunkPoints::HighRes(r)
                == old(self)@.spares(PointFormat::XyrgbHighRes)[0],
            r@.len() == 0,
    {
        match take_buffer(&mut self.high_res, Ghost(PointFormat::XyrgbHighRes)) {
            Some(ChunkPoints::HighRes(v)) => v,
            _ => Vec::new(),
        }
    }

    /// A spare buffer, or a fresh one if there is none.
    pub fn take_extended(&mut self) -> (r: Vec<PointExtended>)
        requires
            old(self).wf(),
        ensures
            final(self).wf(),
            final(self)@ == old(self)@.after_take(PointFormat::Extended),
            old(self)@.spares(PointFormat::Extended).len() > 0 ==> ChunkPoints::Extended(r)
                == old(self)@.spares(PointFormat::Extended)[0],
            r@.len() == 0,
    {
        match take_buffer(&mut self.extended, Ghost(PointFormat::Extended)) {
            Some(ChunkPoints::Extended(v)) => v,
            _ => Vec::new(),
        }
    }

    /// Give the buffer of a sent chunk back: just this buffer, cleared, is pooled. It is
    /// dropped if the pool is full; a later take then makes a new one.
    pub fn recycle(&mut self, points: &mut ChunkPoints)
        requires
            old(self).wf(),
        ensures
            final(self).wf(),
            old(self)@.recycles(old(points)@.format(), final(self)@),
            match *old(points) {
                ChunkPoints::Xyrgbi(v) => exists|m: &mut Vec<PointXyrgbi>|
                    *m == v && #[trigger] call_ensures(Vec::<PointXyrgbi>::clear, (m,), ())
                        && final(self)@ == old(self)@.after_recycle(
                        PointFormat::Xyrgbi,
                        ChunkPoints::Xyrgbi(*final(m)),
                    ),
                ChunkPoints::HighRes(v) => exists|m: &mut Vec<PointXyrgbHighRes>|
                    *m == v && #[trigger] call_ensures(Vec::<PointXyrgbHighRes>::clear, (m,), ())
                        && final(self)@ == old(self)@.after_recycle(
                        PointFormat::XyrgbHighRes,
                        ChunkPoints::HighRes(*final(m)),
                    ),
                ChunkPoints::Extended(v) => exists|m: &mut Vec<PointExtended>|
                    *m == v && #[trigger] call_ensures(Vec::<PointExtended>::clear, (m,), ())
                        && final(self)@ == old(self)@.after_recycle(
                        PointFormat::Extended,
                        ChunkPoints::Extended(*final(m)),
                    ),
            },
            final(points)@ == PointsView::none(old(points)@.format()),
    {
        match points {
            ChunkPoints::Xyrgbi(v) => {
                let mut taken: Vec<PointXyrgbi> = Vec::new();
                v.clear();
                std::mem::swap(v, &mut taken);
                let buffer = ChunkPoints::Xyrgbi(taken);
                assert(buffer@ =~= PointsView::none(PointFormat::Xyrgbi));
                give_buffer(&mut self.xyrgbi, buffer, Ghost(PointFormat::Xyrgbi));
                assert(self@ == old(self)@.after_recycle(PointFormat::Xyrgbi, buffer));
            },
            ChunkPoints::HighRes(v) => {
                let mut taken: Vec<PointXyrgbHighRes> = Vec::new();
                v.clear();
                std::mem::swap(v, &mut taken);
                let buffer = ChunkPoints::HighRes(taken);
                assert(buffer@ =~= PointsView::none(PointFormat::XyrgbHighRes));
                give_buffer(&mut self.high_res, buffer, Ghost(PointFormat::XyrgbHighRes));
                assert(self@ == old(self)@.after_recycle(PointFormat::XyrgbHighRes, buffer));
            },
            ChunkPoints::Extended(v) => {
                let mut taken: Vec<PointExtended> = Vec::new();
                v.clear();
                std::mem::swap(v, &mut taken);
                let buffer = ChunkPoints::Extended(taken);
                assert(buffer@ =~= PointsView::none(PointFormat::Extended));
                give_buffer(&mut self.extended, buffer, Ghost(PointFormat::Extended));
                assert(self@ == old(self)@.after_recycle(PointFormat::Extended, buffer));
            },
        }
    }
}

/// A pool never holds more spare buffers of a format than it has room for, and they are all
/// empty.
pub proof fn the_pool_is_bounded(pool: ChunkBufferPool, format: PointFormat)
    requires
        pool.wf(),
    ensures
        pool@.spares(format).len() <= POOL_CAPACITY,
        forall|i: int|
            0 <= i < pool@.spares(format).len() ==> #[trigger] pool@.spares(format)[i]@
                == PointsView::none(format),
{
}

/// A buffer that is given back to a pool with room is handed out again once those before it
/// were, and a buffer that is taken, sent and given back leaves the pool with as many as it
/// had, or with one if it had none; so a chunk that follows need not allocate. The buffers
/// of other formats are not touched.
pub proof fn a_buffer_makes_the_round(
    pool: ChunkBufferPool,
    format: PointFormat,
    buffer: ChunkPoints,
    other: PointFormat,
)
    requires
        pool.wf(),
    ensures
        pool@.spares(format).len() < POOL_CAPACITY ==> pool@.after_recycle(
            format,
            buffer,
        ).spares(format).last() == buffer,
        pool@.spares(format).len() == 0 ==> pool@.after_recycle(format, buffer).spares(format)[0]
            == buffer,
        pool@.after_take(format).after_recycle(format, buffer).spares(format).len() == if pool@.spares(
            format,
        ).len() > 0 {
            pool@.spares(format).len()
        } else {
            1
        },
        other != format ==> pool@.after_take(format).spares(other) == pool@.spares(other)
            && pool@.after_recycle(format, buffer).spares(other) == pool@.spares(other),
{
}

} // verus!
