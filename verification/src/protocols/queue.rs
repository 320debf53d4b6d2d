//! The bounded lock-free queue of `crossbeam-queue`, as the library uses it.
//!
//! The queue changes through shared references, which no contract can follow. So every
//! wrapper that changes a queue takes it by exclusive reference: what it holds is then a
//! function of its value.
use crossbeam_queue::ArrayQueue;

use vstd::prelude::*;

use super::idn::chunk::ChunkPoints;

verus! {

/// The bounded queue of the `crossbeam-queue` crate.
#[verifier::external_type_specification]
#[verifier::external_body]
#[verifier::reject_recursive_types(T)]
pub struct ExArrayQueue<T>(crossbeam_queue::ArrayQueue<T>);

/// One output sample: the bit patterns of its two channels.
pub type Sample = (u32, u32);

/// The samples in a queue, the oldest first.
pub uninterp spec fn queued_samples(queue: ArrayQueue<(u32, u32)>) -> Seq<(u32, u32)>;

/// The capacity that a queue was made with.
pub uninterp spec fn sample_capacity(queue: ArrayQueue<(u32, u32)>) -> nat;

/// Calls [`crossbeam_queue::ArrayQueue::new`]: an empty queue with room for `capacity`
/// samples. The call panics for a capacity of zero, and for one whose slots, of sixteen
/// bytes each, cannot be allocated as one object.
#[verifier::external_body]
pub(crate) fn new_sample_queue(capacity: usize) -> (queue: ArrayQueue<(u32, u32)>)
    requires
        0 < capacity,
        capacity as int <= isize::MAX as int / 16,
    ensures
        queued_samples(queue) == Seq::<(u32, u32)>::empty(),
        sample_capacity(queue) == capacity,
{
    ArrayQueue::new(capacity)
}

/// Calls [`crossbeam_queue::ArrayQueue::push`]: appends the sample, or hands it back when
/// the queue is full.
#[verifier::external_body]
pub(crate) fn push_sample(queue: &mut ArrayQueue<(u32, u32)>, sample: (u32, u32)) -> (r: Result<
    (),
    (u32, u32),
>)
    ensures
        sample_capacity(*final(queue)) == sample_capacity(*old(queue)),
        queued_samples(*old(queue)).len() < sample_capacity(*old(queue)) ==> r is Ok
            && queued_samples(*final(queue)) == queued_samples(*old(queue)).push(sample),
        queued_samples(*old(queue)).len() >= sample_capacity(*old(queue)) ==> r is Err && r->Err_0
            == sample && queued_samples(*final(queue)) == queued_samples(*old(queue)),
{
    queue.push(sample)
}

/// Calls [`crossbeam_queue::ArrayQueue::pop`]: removes the oldest sample, if there is one.
#[verifier::external_body]
pub(crate) fn pop_sample(queue: &mut ArrayQueue<(u32, u32)>) -> (r: Option<(u32, u32)>)
    ensures
        sample_capacity(*final(queue)) == sample_capacity(*old(queue)),
        queued_samples(*old(queue)).len() > 0 ==> r == Some(queued_samples(*old(queue))[0])
            && queued_samples(*final(queue)) == queued_samples(*old(queue)).drop_first(),
        queued_samples(*old(queue)).len() == 0 ==> r is None && queued_samples(*final(queue))
            == queued_samples(*old(queue)),
{
    queue.pop()
}

/// Calls [`crossbeam_queue::ArrayQueue::len`]: the number of samples in the queue.
#[verifier::external_body]
pub(crate) fn count_samples(queue: &ArrayQueue<(u32, u32)>) -> (r: usize)
    ensures
        r == queued_samples(*queue).len(),
        r <= sample_capacity(*queue),
{
    queue.len()
}

/// Calls [`crossbeam_queue::ArrayQueue::capacity`]: the capacity the queue was made with.
#[verifier::external_body]
pub(crate) fn capacity_of_samples(queue: &ArrayQueue<(u32, u32)>) -> (r: usize)
    ensures
        r == sample_capacity(*queue),
{
    queue.capacity()
}

/// The buffers in a queue, the oldest first.
pub uninterp spec fn pooled_buffers(queue: ArrayQueue<ChunkPoints>) -> Seq<ChunkPoints>;

/// The capacity that a queue was made with.
pub uninterp spec fn buffer_capacity(queue: ArrayQueue<ChunkPoints>) -> nat;

/// Calls [`crossbeam_queue::ArrayQueue::new`]: an empty queue with room for `capacity`
/// buffers. The call panics for a capacity of zero, and for one whose slots, of at most
/// sixty-four bytes each, cannot be allocated as one object.
#[verifier::external_body]
pub(crate) fn new_buffer_queue(capacity: usize) -> (queue: ArrayQueue<ChunkPoints>)
    requires
        0 < capacity,
        capacity as int <= isize::MAX as int / 64,
    ensures
        pooled_buffers(queue) == Seq::<ChunkPoints>::empty(),
        buffer_capacity(queue) == capacity,
{
    ArrayQueue::new(capacity)
}

/// Calls [`crossbeam_queue::ArrayQueue::push`]: appends the buffer, or hands it back when
/// the queue is full.
#[verifier::external_body]
pub(crate) fn push_buffer(queue: &mut ArrayQueue<ChunkPoints>, buffer: ChunkPoints) -> (r: Result<
    (),
    ChunkPoints,
>)
    ensures
        buffer_capacity(*final(queue)) == buffer_capacity(*old(queue)),
        pooled_buffers(*old(queue)).len() < buffer_capacity(*old(queue)) ==> r is Ok
            && pooled_buffers(*final(queue)) == pooled_buffers(*old(queue)).push(buffer),
        pooled_buffers(*old(queue)).len() >= buffer_capacity(*old(queue)) ==> r is Err && r->Err_0
            == buffer && pooled_buffers(*final(queue)) == pooled_buffers(*old(queue)),
{
    queue.push(buffer)
}

/// Calls [`crossbeam_queue::ArrayQueue::pop`]: removes the oldest buffer, if there is one.
#[verifier::external_body]
pub(crate) fn pop_buffer(queue: &mut ArrayQueue<ChunkPoints>) -> (r: Option<ChunkPoints>)
    ensures
        buffer_capacity(*final(queue)) == buffer_capacity(*old(queue)),
        pooled_buffers(*old(queue)).len() > 0 ==> r == Some(pooled_buffers(*old(queue))[0])
            && pooled_buffers(*final(queue)) == pooled_buffers(*old(queue)).drop_first(),
        pooled_buffers(*old(queue)).len() == 0 ==> r is None && pooled_buffers(*final(queue))
            == pooled_buffers(*old(queue)),
{
    queue.pop()
}

} // verus!
