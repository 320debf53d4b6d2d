//! Shared core of the audio-clocked backends.
//!
//! [`AudioSinkState`] is the bounded sample queue between a producer and the audio
//! callback, and the last emitted output pair, which is held on underrun so that the beam
//! stays put. Samples and outputs are kept as bit patterns; floating-point values are
//! converted where they enter and leave.
use crossbeam_queue::ArrayQueue;

use vstd::prelude::*;

use super::queue::{
    capacity_of_samples, count_samples, new_sample_queue, pop_sample, push_sample, Sample,
};

verus! {

/// Sample queue and held output of an audio-clocked backend.
pub struct AudioSinkState {
    /// Samples on their way to the audio callback.
    queue: ArrayQueue<(u32, u32)>,
    /// Device output sample rate in Hz.
    sample_rate: u32,
    /// Last emitted output pair, as bit patterns.
    last_a_bits: u32,
    last_b_bits: u32,
}

/// Mathematical view of an [`AudioSinkState`].
#[verifier::ext_equal]
pub struct AudioSinkView {
    /// The queued samples, the oldest first.
    pub queued: Seq<Sample>,
    /// The most samples that can be queued.
    pub capacity: nat,
    /// Device output sample rate in Hz.
    pub sample_rate: u32,
    /// Last emitted output pair, as bit patterns.
    pub last_output: Sample,
}

impl View for AudioSinkState {
    type V = AudioSinkView;

    closed spec fn view(&self) -> AudioSinkView {
        AudioSinkView {
            queued: super::queue::queued_samples(self.queue),
            capacity: super::queue::sample_capacity(self.queue),
            sample_rate: self.sample_rate,
            last_output: (self.last_a_bits, self.last_b_bits),
        }
    }
}

impl AudioSinkView {
    /// No more is queued than there is room for.
    pub open spec fn wf(self) -> bool {
        self.queued.len() <= self.capacity
    }

    /// The queue after `points` were offered to it in order: what does not fit is dropped.
    pub open spec fn after_push(self, points: Seq<Sample>) -> AudioSinkView {
        let room = self.capacity - self.queued.len();
        AudioSinkView {
            queued: self.queued + if points.len() <= room {
                points
            } else {
                points.take(room)
            },
            ..self
        }
    }
}

impl AudioSinkState {
    /// An empty queue with room for `capacity` samples; the held output is zero.
    pub fn new(capacity: usize, sample_rate: u32) -> (r: Self)
        requires
            0 < capacity,
            capacity as int <= isize::MAX as int / 16,
        ensures
            r@ == (AudioSinkView {
                queued: Seq::empty(),
                capacity: capacity as nat,
                sample_rate,
                last_output: (0, 0),
            }),
            r@.wf(),
    {
        AudioSinkState {
            queue: new_sample_queue(capacity),
            sample_rate,
            last_a_bits: 0,
            last_b_bits: 0,
        }
    }

    /// Device output sample rate in Hz.
    pub fn sample_rate(&self) -> (r: u32)
        ensures
            r == self@.sample_rate,
    {
        self.sample_rate
    }

    /// How many more samples fit.
    pub fn remaining_capacity(&self) -> (r: usize)
        ensures
            r == self@.capacity - self@.queued.len(),
            self@.wf(),
    {
        let capacity: usize = capacity_of_samples(&self.queue);
        let queued: usize = count_samples(&self.queue);
        capacity.saturating_sub(queued)
    }

    /// Whether `count` more samples fit.
    pub fn has_capacity_for(&self, count: usize) -> (r: bool)
        ensures
            r <==> self@.queued.len() + count <= self@.capacity,
    {
        let remaining: usize = self.remaining_capacity();
        count == 0 || remaining >= count
    }

    /// How many samples are queued.
    pub fn queued_points(&self) -> (r: u64)
        ensures
            r == self@.queued.len(),
    {
        count_samples(&self.queue) as u64
    }

    /// Drop all queued samples.
    pub fn clear_queue(&mut self)
        ensures
            final(self)@ == (AudioSinkView { queued: Seq::empty(), ..old(self)@ }),
            final(self)@.wf(),
    {
        let mut popped = self.pop();
        while popped.is_some()
            invariant
                popped is None ==> self@.queued.len() == 0,
                self@.capacity == old(self)@.capacity,
                self@.sample_rate == old(self)@.sample_rate,
                self@.last_output == old(self)@.last_output,
            decreases self@.queued.len() + if popped is Some {
                1nat
            } else {
                0nat
            },
        {
            popped = self.pop();
        }
        assert(self@ =~= (AudioSinkView { queued: Seq::empty(), ..old(self)@ }));
    }

    /// Take the oldest queued sample, if there is one.
    pub fn pop(&mut self) -> (r: Option<Sample>)
        ensures
            old(self)@.queued.len() > 0 ==> r == Some(old(self)@.queued[0]) && final(self)@ == (
            AudioSinkView { queued: old(self)@.queued.drop_first(), ..old(self)@ }),
            old(self)@.queued.len() == 0 ==> r is None && final(self)@ == old(self)@,
            old(self)@.wf() ==> final(self)@.wf(),
    {
        pop_sample(&mut self.queue)
    }

    /// Queue one sample; it is dropped if the queue is full.
    ///
    /// Callers reserve room first with [`has_capacity_for`](Self::has_capacity_for), so a
    /// full queue is a mistake elsewhere. A dropped sample is silence, which is safe.
    pub fn push_point(&mut self, point: Sample)
        requires
            old(self)@.wf(),
        ensures
            final(self)@.wf(),
            final(self)@ == old(self)@.after_push(seq![point]),
            old(self)@.queued.len() < old(self)@.capacity ==> final(self)@ == (AudioSinkView {
                queued: old(self)@.queued.push(point),
                ..old(self)@
            }),
    {
        let _ = push_sample(&mut self.queue, point);
        proof {
            let before = old(self)@;
            if before.queued.len() < before.capacity {
                assert(before.queued + seq![point] =~= before.queued.push(point));
            } else {
                assert(before.queued + seq![point].take(0) =~= before.queued);
            }
            assert(self@ =~= before.after_push(seq![point]));
        }
    }

    /// Hold an output pair.
    pub fn set_last_output(&mut self, a_bits: u32, b_bits: u32)
        ensures
            final(self)@ == (AudioSinkView { last_output: (a_bits, b_bits), ..old(self)@ }),
    {
        self.last_a_bits = a_bits;
        self.last_b_bits = b_bits;
    }

    /// The held output pair.
    pub fn last_output(&self) -> (r: Sample)
        ensures
            r == self@.last_output,
    {
        (self.last_a_bits, self.last_b_bits)
    }
}

/// Queue the samples that a chunk was resampled to, in order.
///
/// Callers reserve room for exactly this many samples first.
pub fn push_chunk_resampled(sink: &mut AudioSinkState, resampled: &[Sample])
    requires
        old(sink)@.wf(),
    ensures
        final(sink)@ == old(sink)@.after_push(resampled@),
        final(sink)@.wf(),
        old(sink)@.queued.len() + resampled@.len() <= old(sink)@.capacity ==> final(sink)@.queued
            == old(sink)@.queued + resampled@,
{
    let mut i: usize = 0;
    proof {
        assert(old(sink)@.queued + resampled@.take(0) =~= old(sink)@.queued);
        assert(sink@ =~= old(sink)@.after_push(resampled@.take(0)));
    }
    while i < resampled.len()
        invariant
            i <= resampled@.len(),
            sink@.wf(),
            old(sink)@.wf(),
            sink@ == old(sink)@.after_push(resampled@.take(i as int)),
        decreases resampled@.len() - i,
    {
        let ghost before = sink@;
        sink.push_point(resampled[i]);
        proof {
            let start = old(sink)@;
            let room = start.capacity - start.queued.len();
            let one = seq![resampled@[i as int]];
            let upto = resampled@.take(i as int);
            let next = resampled@.take(i + 1);
            assert(next =~= upto + one);
            if i < room {
                assert(before.queued + one =~= start.queued + next);
            } else {
                assert(before.queued + one.take(0) =~= before.queued);
                assert(next.take(room) =~= upto.take(room));
                if i == room {
                    assert(upto.take(room) =~= upto);
                }
            }
            assert(sink@ =~= start.after_push(next));
        }
        i += 1;
    }
    assert(resampled@.take(i as int) =~= resampled@);
}

/// Law: room once found stays, and nothing that was reserved for is lost or reordered.
///
/// If `points` fit a queue, they still fit after the consumer took any number of samples
/// from it; pushed then, all of them are queued, in order, behind what was left.
pub proof fn a_reservation_stays_good(v: AudioSinkView, points: Seq<Sample>, taken: nat)
    requires
        v.wf(),
        v.queued.len() + points.len() <= v.capacity,
        taken <= v.queued.len(),
    ensures
        ({
            let later = AudioSinkView { queued: v.queued.skip(taken as int), ..v };
            &&& later.queued.len() + points.len() <= later.capacity
            &&& later.after_push(points).queued == v.queued.skip(taken as int) + points
            &&& later.after_push(points).wf()
        }),
{
}

} // verus!
