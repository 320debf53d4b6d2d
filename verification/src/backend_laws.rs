//! What the wrapper around a backend does, told by the calls that reach the device.
use vstd::prelude::*;

use crate::abstract_state::AbstractState;
use crate::backend::{
    BackendKind, BackendVariant, DacBackend, FifoBackend, FrameSwapBackend, WriteOutcome,
};
use crate::device::{DacCapabilities, DacType, OutputModel};
use crate::error::{Error, ErrorView};
use crate::point::LaserPoint;

verus! {

/// Law: each output model stands in messages under its own name.
pub proof fn models_have_their_names(model: OutputModel, r: &'static str)
    requires
        call_ensures(OutputModel::name, (model,), r),
    ensures
        r@ == name_of(model),
{
}

/// The name of an output model.
pub open spec fn name_of(model: OutputModel) -> Seq<char> {
    match model {
        OutputModel::NetworkFifo => "NetworkFifo"@,
        OutputModel::UdpTimed => "UdpTimed"@,
        OutputModel::BlockingFifo => "BlockingFifo"@,
        OutputModel::UsbFrameSwap => "UsbFrameSwap"@,
    }
}

/// Law: an error is of the kind it was made as, carries the text it was made with, and tells
/// just that text.
pub proof fn errors_carry_their_text(
    owned: String,
    text: &str,
    a: Error,
    b: Error,
    c: Error,
    e: Error,
    message: &str,
)
    requires
        call_ensures(Error::invalid_config, (owned,), a),
        call_ensures(Error::disconnected, (text,), b),
        call_ensures(Error::backend, (owned,), c),
        call_ensures(Error::message, (&e,), message),
    ensures
        a is InvalidConfig && a->InvalidConfig_0@ == owned@,
        b is Disconnected && b->Disconnected_0@ == text@,
        c is Backend && c->Backend_0@ == owned@,
        match e {
            Error::InvalidConfig(s) => message@ == s@,
            Error::Disconnected(s) => message@ == s@,
            Error::Backend(s) => message@ == s@,
        },
{
}

/// The output model that the device behind a backend advertises.
pub open spec fn advertised<F: FifoBackend, S: FrameSwapBackend>(
    v: BackendVariant<F, S>,
) -> OutputModel {
    match v {
        BackendVariant::Fifo(b) => b.capabilities().output_model,
        BackendVariant::FrameSwap(b) => b.capabilities().output_model,
    }
}

/// The frame-swap model is advertised by a frame-swap device, and by no other.
pub open spec fn agrees<F: FifoBackend, S: FrameSwapBackend>(v: BackendVariant<F, S>) -> bool {
    match v {
        BackendVariant::Fifo(_) => advertised(v) != OutputModel::UsbFrameSwap,
        BackendVariant::FrameSwap(_) => advertised(v) == OutputModel::UsbFrameSwap,
    }
}

/// The text for a device that advertises a model of the other kind.
pub open spec fn disagreement<F: FifoBackend, S: FrameSwapBackend>(
    v: BackendVariant<F, S>,
) -> Seq<char> {
    match v {
        BackendVariant::Fifo(_) => "backend kind "@ + "Fifo"@ + " disagrees with output model "@
            + name_of(advertised(v)),
        BackendVariant::FrameSwap(_) => "backend kind "@ + "FrameSwap"@
            + " disagrees with output model "@ + name_of(advertised(v)),
    }
}

/// Law: a backend is wrapped as the kind it is, just if it advertises a model of that kind, and
/// is otherwise refused with both the kind and the model in the message.
pub proof fn only_agreeing_backends_are_wrapped<F: FifoBackend, S: FrameSwapBackend>(
    f: F,
    s: S,
    a: Result<BackendKind<F, S>, Error>,
    b: Result<BackendKind<F, S>, Error>,
)
    requires
        call_ensures(BackendKind::<F, S>::fifo, (f,), a),
        call_ensures(BackendKind::<F, S>::frame_swap, (s,), b),
    ensures
        a is Ok <==> f.capabilities().output_model != OutputModel::UsbFrameSwap,
        a matches Ok(k) ==> k@ == BackendVariant::<F, S>::Fifo(f),
        a matches Err(e) ==> e@ == ErrorView::InvalidConfig(
            disagreement(BackendVariant::<F, S>::Fifo(f)),
        ),
        b is Ok <==> s.capabilities().output_model == OutputModel::UsbFrameSwap,
        b matches Ok(k) ==> k@ == BackendVariant::<F, S>::FrameSwap(s),
        b matches Err(e) ==> e@ == ErrorView::InvalidConfig(
            disagreement(BackendVariant::<F, S>::FrameSwap(s)),
        ),
{
}

/// Law: the check finds fault just with a device that advertises a model of the other kind.
pub proof fn the_model_is_checked_against_the_kind<F: FifoBackend, S: FrameSwapBackend>(
    k: BackendKind<F, S>,
    r: Result<(), Error>,
    frame_swap: bool,
)
    requires
        call_ensures(BackendKind::<F, S>::validate_output_model, (&k,), r),
        call_ensures(BackendKind::<F, S>::is_frame_swap, (&k,), frame_swap),
    ensures
        r is Ok <==> agrees(k@),
        r matches Err(e) ==> e@ == ErrorView::InvalidConfig(disagreement(k@)),
        frame_swap <==> k@ is FrameSwap,
{
}

/// Law: what is asked of the wrapper is answered by the device behind it; an estimator has
/// only a queue-based one, a frame capacity only a frame-swap one.
pub proof fn questions_go_to_the_device<F: FifoBackend, S: FrameSwapBackend>(
    k: BackendKind<F, S>,
    dac: DacType,
    caps: &DacCapabilities,
    connected: bool,
    estimator: Option<&F::Estimator>,
    capacity: Option<usize>,
)
    requires
        call_ensures(BackendKind::<F, S>::dac_type, (&k,), dac),
        call_ensures(BackendKind::<F, S>::caps, (&k,), caps),
        call_ensures(BackendKind::<F, S>::is_connected, (&k,), connected),
        call_ensures(BackendKind::<F, S>::estimator, (&k,), estimator),
        call_ensures(BackendKind::<F, S>::frame_capacity, (&k,), capacity),
    ensures
        match k@ {
            BackendVariant::Fifo(b) => {
                &&& dac == b.kind_of_dac()
                &&& *caps == b.capabilities()
                &&& b.reports_connected(connected)
                &&& estimator is Some
                &&& *estimator->Some_0 == b.current_estimator()
                &&& capacity is None
            },
            BackendVariant::FrameSwap(b) => {
                &&& dac == b.kind_of_dac()
                &&& *caps == b.capabilities()
                &&& b.reports_connected(connected)
                &&& estimator is None
                &&& capacity == Some(b.capacity())
            },
        },
{
}

/// The device says whether it is connected.
pub open spec fn says_connected<F: FifoBackend, S: FrameSwapBackend>(
    v: BackendVariant<F, S>,
    up: bool,
) -> bool {
    match v {
        BackendVariant::Fifo(b) => b.reports_connected(up),
        BackendVariant::FrameSwap(b) => b.reports_connected(up),
    }
}

/// The shutter of the device is commanded, with that result.
pub open spec fn commands<F: FifoBackend, S: FrameSwapBackend>(
    before: BackendVariant<F, S>,
    open: bool,
    after: BackendVariant<F, S>,
    r: Result<(), Error>,
) -> bool {
    match (before, after) {
        (BackendVariant::Fifo(b), BackendVariant::Fifo(a)) => b.sets_shutter(open, a.state(), r),
        (BackendVariant::FrameSwap(b), BackendVariant::FrameSwap(a)) => b.sets_shutter(
            open,
            a.state(),
            r,
        ),
        _ => false,
    }
}

/// The device is disconnected, with that result.
pub open spec fn leaves<F: FifoBackend, S: FrameSwapBackend>(
    before: BackendVariant<F, S>,
    after: BackendVariant<F, S>,
    r: Result<(), Error>,
) -> bool {
    match (before, after) {
        (BackendVariant::Fifo(b), BackendVariant::Fifo(a)) => b.disconnects(a.state(), r),
        (BackendVariant::FrameSwap(b), BackendVariant::FrameSwap(a)) => b.disconnects(a.state(), r),
        _ => false,
    }
}

/// The device is connected, with that result.
pub open spec fn joins<F: FifoBackend, S: FrameSwapBackend>(
    before: BackendVariant<F, S>,
    after: BackendVariant<F, S>,
    r: Result<(), Error>,
) -> bool {
    match (before, after) {
        (BackendVariant::Fifo(b), BackendVariant::Fifo(a)) => b.connects(a.state(), r),
        (BackendVariant::FrameSwap(b), BackendVariant::FrameSwap(a)) => b.connects(a.state(), r),
        _ => false,
    }
}

/// Law: a shutter command reaches the device as it was given, a disconnect as a disconnect and
/// a stop as a stop, each once, and the result is the device's own. The kind stays.
pub proof fn commands_reach_the_device<F: FifoBackend, S: FrameSwapBackend>(
    a: &mut BackendKind<F, S>,
    open: bool,
    r: Result<(), Error>,
    b: &mut BackendKind<F, S>,
    left: Result<(), Error>,
    c: &mut BackendKind<F, S>,
    stopped: Result<(), Error>,
)
    requires
        call_ensures(BackendKind::<F, S>::set_shutter, (a, open), r),
        call_ensures(BackendKind::<F, S>::disconnect, (b,), left),
        call_ensures(BackendKind::<F, S>::stop, (c,), stopped),
    ensures
        commands(old(a)@, open, final(a)@, r),
        leaves(old(b)@, final(b)@, left),
        match (old(c)@, final(c)@) {
            (BackendVariant::Fifo(x), BackendVariant::Fifo(y)) => x.stops(y.state(), stopped),
            (BackendVariant::FrameSwap(x), BackendVariant::FrameSwap(y)) => x.stops(
                y.state(),
                stopped,
            ),
            _ => false,
        },
{
}

/// Law: a teardown commands the shutter to close, and then disconnects, whatever the close
/// came to.
pub proof fn a_teardown_closes_and_leaves<F: FifoBackend, S: FrameSwapBackend>(
    k: &mut BackendKind<F, S>,
)
    requires
        call_ensures(BackendKind::<F, S>::close_and_disconnect, (k,), ()),
    ensures
        exists|closed: BackendVariant<F, S>, r1: Result<(), Error>, r2: Result<(), Error>|
            #![trigger commands(old(k)@, false, closed, r1), leaves(closed, final(k)@, r2)]
            commands(old(k)@, false, closed, r1) && leaves(closed, final(k)@, r2),
{
    let (closed, r1, r2) = choose|
        closed: BackendVariant<F, S>,
        r1: Result<(), Error>,
        r2: Result<(), Error>,
    |
        #![trigger old(k)@.sets_shutter(false, closed, r1), closed.disconnects(final(k)@, r2)]
        old(k)@.sets_shutter(false, closed, r1) && closed.disconnects(final(k)@, r2);
    assert(commands(old(k)@, false, closed, r1) && leaves(closed, final(k)@, r2));
}

/// Law: a write hands the device just the rate and the points that it was given: as points to a
/// queue-based one, as a frame to a frame-swap one. A frame for a device found ready goes to a
/// frame-swap one only; a queue-based one is not touched and the call refused.
pub proof fn writes_reach_the_device<F: FifoBackend, S: FrameSwapBackend>(
    a: &mut BackendKind<F, S>,
    b: &mut BackendKind<F, S>,
    pps: u32,
    points: &[LaserPoint],
    written: Result<WriteOutcome, Error>,
    swapped: Result<WriteOutcome, Error>,
)
    requires
        call_ensures(BackendKind::<F, S>::try_write, (a, pps, points), written),
        call_ensures(BackendKind::<F, S>::write_frame_after_ready, (b, pps, points), swapped),
    ensures
        match (old(a)@, final(a)@) {
            (BackendVariant::Fifo(x), BackendVariant::Fifo(y)) => x.writes_points(
                pps,
                points@,
                y.state(),
                written,
            ),
            (BackendVariant::FrameSwap(x), BackendVariant::FrameSwap(y)) => x.writes_frame(
                pps,
                points@,
                y.state(),
                written,
            ),
            _ => false,
        },
        match (old(b)@, final(b)@) {
            (BackendVariant::Fifo(x), BackendVariant::Fifo(y)) => x == y && swapped is Err
                && swapped->Err_0@ == ErrorView::InvalidConfig(
                "write_frame_after_ready called on a FIFO backend"@,
            ),
            (BackendVariant::FrameSwap(x), BackendVariant::FrameSwap(y)) => exists|m: &mut S|
                *m == x && *final(m) == y && #[trigger] call_ensures(
                    S::write_frame_after_ready,
                    (m, pps, points),
                    swapped,
                ),
            _ => false,
        },
{
}

/// Law: a frame for a device found ready is written with the rate and the points that were
/// given, as a frame for a ready device or as any other frame.
pub proof fn a_ready_frame_is_written_as_given<S: FrameSwapBackend>(
    m: &mut S,
    pps: u32,
    points: &[LaserPoint],
    r: Result<WriteOutcome, Error>,
)
    requires
        call_ensures(S::write_frame_after_ready, (m, pps, points), r),
    ensures
        old(m).writes_ready_frame(pps, points@, final(m).state(), r) || old(m).writes_frame(
            pps,
            points@,
            final(m).state(),
            r,
        ),
{
}

/// Law: the queue of a queue-based device is cleared by the device; a frame-swap one is not
/// touched and succeeds. Readiness is probed on a frame-swap device; a queue-based one is not
/// touched and the call refused.
pub proof fn queues_and_frames_are_told_apart<F: FifoBackend, S: FrameSwapBackend>(
    a: &mut BackendKind<F, S>,
    cleared: Result<(), Error>,
    b: &mut BackendKind<F, S>,
    ready: Result<bool, Error>,
)
    requires
        call_ensures(BackendKind::<F, S>::reset_device_buffer, (a,), cleared),
        call_ensures(BackendKind::<F, S>::is_ready_for_frame, (b,), ready),
    ensures
        match (old(a)@, final(a)@) {
            (BackendVariant::Fifo(x), BackendVariant::Fifo(y)) => x.resets_buffer(
                y.state(),
                cleared,
            ),
            (BackendVariant::FrameSwap(x), BackendVariant::FrameSwap(y)) => x == y && cleared is Ok,
            _ => false,
        },
        match (old(b)@, final(b)@) {
            (BackendVariant::Fifo(x), BackendVariant::Fifo(y)) => x == y && ready is Err
                && ready->Err_0@ == ErrorView::InvalidConfig(
                "frame readiness queried on a FIFO backend"@,
            ),
            (BackendVariant::FrameSwap(x), BackendVariant::FrameSwap(y)) => ready is Ok
                && x.probes_ready(y.state(), ready->Ok_0),
            _ => false,
        },
{
}

/// Law: a device that advertises a model of the other kind is not touched and refused as such.
/// Any other is connected once. A failure of that is handed on as it is. If the model agrees
/// afterwards, the connection stands; if not, the device is disconnected again and the
/// disagreement is reported, with what the disconnect said where that failed too.
pub proof fn a_connection_stands_only_with_an_agreeing_model<F: FifoBackend, S: FrameSwapBackend>(
    k: &mut BackendKind<F, S>,
    r: Result<(), Error>,
)
    requires
        call_ensures(BackendKind::<F, S>::connect, (k,), r),
    ensures
        !agrees(old(k)@) ==> final(k)@ == old(k)@ && r is Err && r->Err_0@
            == ErrorView::InvalidConfig(disagreement(old(k)@)),
        agrees(old(k)@) ==> exists|mid: BackendVariant<F, S>, joined: Result<(), Error>|
            #![trigger joins(old(k)@, mid, joined)]
            joins(old(k)@, mid, joined) && if joined is Err {
                final(k)@ == mid && r == joined
            } else if agrees(mid) {
                final(k)@ == mid && r is Ok
            } else {
                exists|left: Result<(), Error>| #[trigger]
                    leaves(mid, final(k)@, left) && r is Err && r->Err_0@
                        == ErrorView::InvalidConfig(
                        match left {
                            Ok(_) => disagreement(mid),
                            Err(e) => disagreement(mid)
                                + "; disconnect after invariant violation also failed: "@ + match e {
                                Error::InvalidConfig(s) => s@,
                                Error::Disconnected(s) => s@,
                                Error::Backend(s) => s@,
                            },
                        },
                    )
            },
{
    let before = old(k)@;
    let after = final(k)@;
    assert(before.attempts_connection(after, r));
    assert(before.model_agrees() == agrees(before));
    if before.model_agrees() {
        let (mid, joined) = choose|mid: BackendVariant<F, S>, joined: Result<(), Error>| #[trigger]
            before.connects(mid, joined) && match joined {
                Err(_) => after == mid && r == joined,
                Ok(_) => if mid.model_agrees() {
                    after == mid && r is Ok
                } else {
                    exists|left: Result<(), Error>| #[trigger]
                        mid.disconnects(after, left) && r is Err && r->Err_0@
                            == mid.after_cleanup(left)
                },
            };
        assert(joins(before, mid, joined));
        assert(mid.model_agrees() == agrees(mid));
        assert(mid.mismatch_text() == disagreement(mid));
        if joined is Ok && !mid.model_agrees() {
            let left = choose|left: Result<(), Error>| #[trigger]
                mid.disconnects(after, left) && r is Err && r->Err_0@ == mid.after_cleanup(left);
            assert(leaves(mid, after, left));
        }
    }
}

/// Law: a boxed backend does what the backend in the box does, with the same arguments.
pub proof fn a_boxed_backend_is_the_backend<T: DacBackend>(
    b: Box<T>,
    after: AbstractState,
    r: Result<(), Error>,
    open: bool,
)
    ensures
        <Box<T> as DacBackend>::state(&b) == T::state(&*b),
        <Box<T> as DacBackend>::kind_of_dac(&b) == T::kind_of_dac(&*b),
        <Box<T> as DacBackend>::capabilities(&b) == T::capabilities(&*b),
        <Box<T> as DacBackend>::connects(&b, after, r) == T::connects(&*b, after, r),
        <Box<T> as DacBackend>::disconnects(&b, after, r) == T::disconnects(&*b, after, r),
        <Box<T> as DacBackend>::reports_connected(&b, open) == T::reports_connected(&*b, open),
        <Box<T> as DacBackend>::stops(&b, after, r) == T::stops(&*b, after, r),
        <Box<T> as DacBackend>::sets_shutter(&b, open, after, r) == T::sets_shutter(
            &*b,
            open,
            after,
            r,
        ),
{
}

/// Law: the same of what only queue-based backends do.
pub proof fn a_boxed_fifo_backend_is_the_backend<T: FifoBackend>(
    b: Box<T>,
    pps: u32,
    points: Seq<LaserPoint>,
    after: AbstractState,
    r: Result<(), Error>,
    written: Result<WriteOutcome, Error>,
)
    ensures
        <Box<T> as FifoBackend>::current_estimator(&b) == T::current_estimator(&*b),
        <Box<T> as FifoBackend>::writes_points(&b, pps, points, after, written)
            == T::writes_points(&*b, pps, points, after, written),
        <Box<T> as FifoBackend>::resets_buffer(&b, after, r) == T::resets_buffer(&*b, after, r),
{
}

/// Law: the same of what only frame-swap backends do.
pub proof fn a_boxed_frame_swap_backend_is_the_backend<T: FrameSwapBackend>(
    b: Box<T>,
    pps: u32,
    points: Seq<LaserPoint>,
    after: AbstractState,
    ready: bool,
    written: Result<WriteOutcome, Error>,
)
    ensures
        <Box<T> as FrameSwapBackend>::capacity(&b) == T::capacity(&*b),
        <Box<T> as FrameSwapBackend>::probes_ready(&b, after, ready) == T::probes_ready(
            &*b,
            after,
            ready,
        ),
        <Box<T> as FrameSwapBackend>::writes_frame(&b, pps, points, after, written)
            == T::writes_frame(&*b, pps, points, after, written),
        <Box<T> as FrameSwapBackend>::writes_ready_frame(&b, pps, points, after, written)
            == T::writes_ready_frame(&*b, pps, points, after, written),
{
}

} // verus!
