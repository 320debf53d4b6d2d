//! What a pool of buffers does, told buffer by buffer.
use vstd::prelude::*;

use super::chunk::{ChunkPoints, PointsView};
use super::pool::{ChunkBufferPool, PoolView};
use crate::point::{PointExtended, PointXyrgbHighRes, PointXyrgbi};

verus! {

/// A buffer of the kind of `points`, without points in it.
pub open spec fn emptied(points: ChunkPoints, buffer: ChunkPoints) -> bool {
    match (points, buffer) {
        (ChunkPoints::Xyrgbi(_), ChunkPoints::Xyrgbi(v)) => v@.len() == 0,
        (ChunkPoints::HighRes(_), ChunkPoints::HighRes(v)) => v@.len() == 0,
        (ChunkPoints::Extended(_), ChunkPoints::Extended(v)) => v@.len() == 0,
        _ => false,
    }
}

/// Of sixteen places at most, one more is taken by an empty buffer, the last one; with all
/// taken nothing changes.
pub open spec fn joined(
    points: ChunkPoints,
    before: Seq<ChunkPoints>,
    after: Seq<ChunkPoints>,
) -> bool {
    if before.len() < 16 {
        after.len() == before.len() + 1 && after.drop_last() == before && emptied(
            points,
            after.last(),
        )
    } else {
        after == before
    }
}

/// An empty buffer joined the spare ones of the format of `points`, and no others.
pub open spec fn one_spare_more(points: ChunkPoints, before: PoolView, after: PoolView) -> bool {
    match points {
        ChunkPoints::Xyrgbi(_) => joined(points, before.xyrgbi, after.xyrgbi) && after.high_res
            == before.high_res && after.extended == before.extended,
        ChunkPoints::HighRes(_) => joined(points, before.high_res, after.high_res) && after.xyrgbi
            == before.xyrgbi && after.extended == before.extended,
        ChunkPoints::Extended(_) => joined(points, before.extended, after.extended) && after.xyrgbi
            == before.xyrgbi && after.high_res == before.high_res,
    }
}

/// What giving a buffer back does to the spare ones.
pub proof fn lemma_one_more(points: ChunkPoints, before: PoolView, after: PoolView)
    requires
        before.recycles(points@.format(), after),
    ensures
        one_spare_more(points, before, after),
{
    let format = points@.format();
    let buffer = choose|buffer: ChunkPoints|
        buffer@ == PointsView::none(format) && after == #[trigger] before.after_recycle(
            format,
            buffer,
        );
    assert(emptied(points, buffer));
    assert(before.xyrgbi.push(buffer).drop_last() =~= before.xyrgbi);
    assert(before.high_res.push(buffer).drop_last() =~= before.high_res);
    assert(before.extended.push(buffer).drop_last() =~= before.extended);
}

/// Law: a new pool has no spare buffers.
pub proof fn a_new_pool_is_empty(r: ChunkBufferPool)
    requires
        call_ensures(ChunkBufferPool::new, (), r),
    ensures
        r@.xyrgbi.len() == 0,
        r@.high_res.len() == 0,
        r@.extended.len() == 0,
{
}

/// Law: of the spare buffers of a format the one that waited longest is handed out, and the
/// others stay in their order; without one, a new one is made. It holds no points either way,
/// and the buffers of other formats stay.
pub proof fn the_oldest_spare_is_handed_out_8bit(pool: &mut ChunkBufferPool, r: Vec<PointXyrgbi>)
    requires
        (*pool).wf(),
        call_ensures(ChunkBufferPool::take_xyrgbi, (pool,), r),
    ensures
        r@.len() == 0,
        old(pool)@.xyrgbi.len() > 0 ==> ChunkPoints::Xyrgbi(r) == old(pool)@.xyrgbi[0]
            && final(pool)@.xyrgbi == old(pool)@.xyrgbi.skip(1),
        old(pool)@.xyrgbi.len() == 0 ==> final(pool)@.xyrgbi == old(pool)@.xyrgbi,
        final(pool)@.high_res == old(pool)@.high_res,
        final(pool)@.extended == old(pool)@.extended,
{
}

/// Law: the same of the 16-bit format.
pub proof fn the_oldest_spare_is_handed_out_16bit(
    pool: &mut ChunkBufferPool,
    r: Vec<PointXyrgbHighRes>,
)
    requires
        (*pool).wf(),
        call_ensures(ChunkBufferPool::take_high_res, (pool,), r),
    ensures
        r@.len() == 0,
        old(pool)@.high_res.len() > 0 ==> ChunkPoints::HighRes(r) == old(pool)@.high_res[0]
            && final(pool)@.high_res == old(pool)@.high_res.skip(1),
        old(pool)@.high_res.len() == 0 ==> final(pool)@.high_res == old(pool)@.high_res,
        final(pool)@.xyrgbi == old(pool)@.xyrgbi,
        final(pool)@.extended == old(pool)@.extended,
{
}

/// Law: the same of the extended format.
pub proof fn the_oldest_spare_is_handed_out_extended(
    pool: &mut ChunkBufferPool,
    r: Vec<PointExtended>,
)
    requires
        (*pool).wf(),
        call_ensures(ChunkBufferPool::take_extended, (pool,), r),
    ensures
        r@.len() == 0,
        old(pool)@.extended.len() > 0 ==> ChunkPoints::Extended(r) == old(pool)@.extended[0]
            && final(pool)@.extended == old(pool)@.extended.skip(1),
        old(pool)@.extended.len() == 0 ==> final(pool)@.extended == old(pool)@.extended,
        final(pool)@.xyrgbi == old(pool)@.xyrgbi,
        final(pool)@.high_res == old(pool)@.high_res,
{
}

/// Law: a buffer that is given back goes, emptied, behind the spare ones of its format, if
/// they are fewer than sixteen, and is dropped otherwise; the buffers of other formats stay,
/// and its former owner keeps no points.
pub proof fn a_buffer_goes_behind_the_spare_ones(
    pool: &mut ChunkBufferPool,
    points: &mut ChunkPoints,
)
    requires
        (*pool).wf(),
        call_ensures(ChunkBufferPool::recycle, (pool, points), ()),
    ensures
        one_spare_more(*old(points), old(pool)@, final(pool)@),
        emptied(*old(points), *final(points)),
{
    lemma_one_more(*old(points), old(pool)@, final(pool)@);
}

/// Law: what is pooled is the very buffer that was given back, cleared, so that its allocation
/// is used again.
pub proof fn the_very_buffer_is_pooled(pool: &mut ChunkBufferPool, points: &mut ChunkPoints)
    requires
        (*pool).wf(),
        call_ensures(ChunkBufferPool::recycle, (pool, points), ()),
    ensures
        match *old(points) {
            ChunkPoints::Xyrgbi(v) => exists|m: &mut Vec<PointXyrgbi>|
                *m == v && #[trigger] call_ensures(Vec::<PointXyrgbi>::clear, (m,), ()) && (
                old(pool)@.xyrgbi.len() < 16 ==> final(pool)@.xyrgbi.last() == ChunkPoints::Xyrgbi(
                    *final(m),
                )),
            ChunkPoints::HighRes(v) => exists|m: &mut Vec<PointXyrgbHighRes>|
                *m == v && #[trigger] call_ensures(Vec::<PointXyrgbHighRes>::clear, (m,), ()) && (
                old(pool)@.high_res.len() < 16 ==> final(pool)@.high_res.last()
                    == ChunkPoints::HighRes(*final(m))),
            ChunkPoints::Extended(v) => exists|m: &mut Vec<PointExtended>|
                *m == v && #[trigger] call_ensures(Vec::<PointExtended>::clear, (m,), ()) && (
                old(pool)@.extended.len() < 16 ==> final(pool)@.extended.last()
                    == ChunkPoints::Extended(*final(m))),
        },
{
}

} // verus!
