//! What an audio sink does, told sample by sample.
use vstd::prelude::*;

use super::audio_sink::{push_chunk_resampled, AudioSinkState};
use super::queue::Sample;

verus! {

/// Law: a new sink is empty, has the capacity and the sample rate it was made with, and holds
/// the zero output.
pub proof fn a_new_sink_is_silent(capacity: usize, sample_rate: u32, r: AudioSinkState)
    requires
        0 < capacity,
        call_ensures(AudioSinkState::new, (capacity, sample_rate), r),
    ensures
        r@.queued.len() == 0,
        r@.capacity == capacity,
        r@.sample_rate == sample_rate,
        r@.last_output.0 == 0 && r@.last_output.1 == 0,
{
}

/// Law: what a sink says of itself is so: its sample rate, its held output, how many samples
/// it has and how many more fit, and whether a number of them fits.
pub proof fn a_sink_says_what_it_holds(
    sink: AudioSinkState,
    sample_rate: u32,
    room: usize,
    count: usize,
    fits: bool,
    queued: u64,
    held: Sample,
)
    requires
        call_ensures(AudioSinkState::sample_rate, (&sink,), sample_rate),
        call_ensures(AudioSinkState::remaining_capacity, (&sink,), room),
        call_ensures(AudioSinkState::has_capacity_for, (&sink, count), fits),
        call_ensures(AudioSinkState::queued_points, (&sink,), queued),
        call_ensures(AudioSinkState::last_output, (&sink,), held),
    ensures
        sample_rate == sink@.sample_rate,
        room + sink@.queued.len() == sink@.capacity,
        fits <==> count <= room,
        queued == sink@.queued.len(),
        queued + room == sink@.capacity,
        held == sink@.last_output,
{
}

/// Law: a sample that fits is queued last and the others stay before it; one that does not fit
/// is dropped. Neither changes the capacity, the sample rate or the held output.
pub proof fn a_sample_is_queued_last(sink: &mut AudioSinkState, point: Sample)
    requires
        (*sink)@.wf(),
        call_ensures(AudioSinkState::push_point, (sink, point), ()),
    ensures
        old(sink)@.queued.len() < old(sink)@.capacity ==> final(sink)@.queued.len()
            == old(sink)@.queued.len() + 1 && final(sink)@.queued.last() == point
            && final(sink)@.queued.drop_last() == old(sink)@.queued,
        old(sink)@.queued.len() >= old(sink)@.capacity ==> final(sink)@.queued
            == old(sink)@.queued,
        final(sink)@.capacity == old(sink)@.capacity,
        final(sink)@.sample_rate == old(sink)@.sample_rate,
        final(sink)@.last_output == old(sink)@.last_output,
{
    assert(old(sink)@.queued.push(point).drop_last() =~= old(sink)@.queued);
    if old(sink)@.queued.len() >= old(sink)@.capacity {
        assert(final(sink)@.queued =~= old(sink)@.queued);
    }
}

/// Law: the sample that waited longest leaves first, and the others stay in their order; an
/// empty sink gives none and stays as it is.
pub proof fn the_oldest_sample_leaves_first(sink: &mut AudioSinkState, r: Option<Sample>)
    requires
        call_ensures(AudioSinkState::pop, (sink,), r),
    ensures
        r is Some <==> old(sink)@.queued.len() > 0,
        r matches Some(sample) ==> sample == old(sink)@.queued[0] && final(sink)@.queued
            == old(sink)@.queued.skip(1),
        r is None ==> final(sink)@.queued == old(sink)@.queued,
        final(sink)@.capacity == old(sink)@.capacity,
        final(sink)@.sample_rate == old(sink)@.sample_rate,
        final(sink)@.last_output == old(sink)@.last_output,
{
}

/// Law: a cleared sink has no samples, and keeps its capacity, its rate and its held output; a
/// newly held output changes nothing else.
pub proof fn what_clearing_and_holding_change(
    a: &mut AudioSinkState,
    b: &mut AudioSinkState,
    a_bits: u32,
    b_bits: u32,
)
    requires
        call_ensures(AudioSinkState::clear_queue, (a,), ()),
        call_ensures(AudioSinkState::set_last_output, (b, a_bits, b_bits), ()),
    ensures
        final(a)@.queued.len() == 0,
        final(a)@.capacity == old(a)@.capacity,
        final(a)@.sample_rate == old(a)@.sample_rate,
        final(a)@.last_output == old(a)@.last_output,
        final(b)@.last_output == (a_bits, b_bits),
        final(b)@.queued == old(b)@.queued,
        final(b)@.capacity == old(b)@.capacity,
        final(b)@.sample_rate == old(b)@.sample_rate,
{
}

/// Law: of a series of samples as many as fit are queued, each once and in order, behind what
/// was queued; the rest is dropped. Nothing else changes.
pub proof fn samples_are_queued_in_order(sink: &mut AudioSinkState, resampled: &[Sample])
    requires
        (*sink)@.wf(),
        call_ensures(push_chunk_resampled, (sink, resampled), ()),
    ensures
        ({
            let before = old(sink)@.queued;
            let after = final(sink)@.queued;
            let room = old(sink)@.capacity - before.len();
            &&& after.len() == before.len() + if resampled@.len() <= room {
                resampled@.len() as int
            } else {
                room
            }
            &&& forall|k: int| 0 <= k < before.len() ==> #[trigger] after[k] == before[k]
            &&& forall|k: int|
                before.len() <= k < after.len() ==> #[trigger] after[k] == resampled@[k
                    - before.len()]
        }),
        final(sink)@.capacity == old(sink)@.capacity,
        final(sink)@.sample_rate == old(sink)@.sample_rate,
        final(sink)@.last_output == old(sink)@.last_output,
{
}

} // verus!
