//! DAC backend traits and the wrapper that the scheduler drives.
//!
//! - [`DacBackend`]: common device lifecycle (connect, disconnect, shutter, stop)
//! - [`FifoBackend`]: queue-based DACs
//! - [`FrameSwapBackend`]: double-buffered frame DACs
//!
//! [`BackendKind`] holds either kind. Each trait names what its methods may do by spec
//! predicates over the backend before the call, the state after it and the result
//! (`connects`, `sets_shutter`, ...), which an implementation chooses as it likes; one that
//! chooses none of these predicates may do anything. What `dac_type`, `caps`, `estimator` and
//! `frame_capacity` return is named by a spec function each, so an implementation answers
//! alike as long as it does not change. So the contracts of [`BackendKind`] say exactly which
//! calls reach the device, in which order and with which arguments, whatever the device does
//! with them.
use vstd::prelude::*;

pub use crate::protocols::idn::IdnBackend;

use crate::abstract_state::AbstractState;
use crate::device::{DacCapabilities, DacType, OutputModel};
use crate::error::{Error, ErrorView};
use crate::point::LaserPoint;

verus! {

/// Write result from a backend point or frame submission.
#[derive(Debug, Clone, Copy, PartialEq, Eq, Structural)]
pub enum WriteOutcome {
    /// The data was accepted and written.
    Written,
    /// The device cannot accept more data right now.
    WouldBlock,
}

/// Estimate of how full a device-side queue is.
pub trait BufferEstimator {
    /// Estimated number of queued points at time `now_ns`, with output at `pps`.
    fn estimated_fullness(&self, now_ns: u64, pps: u32) -> u64;
}

/// Common device lifecycle of all backends.
pub trait DacBackend: Send + 'static {
    /// The state of the device and its connection, as far as its behaviour depends on it.
    open spec fn state(&self) -> AbstractState {
        arbitrary()
    }

    /// The DAC type of this backend.
    open spec fn kind_of_dac(&self) -> DacType {
        arbitrary()
    }

    /// The capabilities of the device, as they stand now.
    open spec fn capabilities(&self) -> DacCapabilities {
        arbitrary()
    }

    /// A `connect` in this state may lead to `after` with result `r`.
    open spec fn connects(&self, after: AbstractState, r: Result<(), Error>) -> bool {
        true
    }

    /// A `disconnect` in this state may lead to `after` with result `r`.
    open spec fn disconnects(&self, after: AbstractState, r: Result<(), Error>) -> bool {
        true
    }

    /// An `is_connected` in this state may report `r`.
    open spec fn reports_connected(&self, r: bool) -> bool {
        true
    }

    /// A `stop` in this state may lead to `after` with result `r`.
    open spec fn stops(&self, after: AbstractState, r: Result<(), Error>) -> bool {
        true
    }

    /// A `set_shutter(open)` in this state may lead to `after` with result `r`.
    open spec fn sets_shutter(&self, open: bool, after: AbstractState, r: Result<(), Error>) -> bool {
        true
    }

    /// Returns the DAC type for this backend.
    fn dac_type(&self) -> (r: DacType)
        ensures
            r == self.kind_of_dac(),
    ;

    /// Returns the device capabilities.
    ///
    /// The output model is a construction-time contract and should remain stable for the
    /// lifetime of the backend. Other limits may be refined by `connect`.
    fn caps(&self) -> (r: &DacCapabilities)
        ensures
            *r == self.capabilities(),
    ;

    /// Connect to the device.
    fn connect(&mut self) -> (r: Result<(), Error>)
        ensures
            old(self).connects(final(self).state(), r),
    ;

    /// Disconnect from the device.
    fn disconnect(&mut self) -> (r: Result<(), Error>)
        ensures
            old(self).disconnects(final(self).state(), r),
    ;

    /// Returns whether the device is connected.
    fn is_connected(&self) -> (r: bool)
        ensures
            self.reports_connected(r),
    ;

    /// Stop output (if supported by the device).
    fn stop(&mut self) -> (r: Result<(), Error>)
        ensures
            old(self).stops(final(self).state(), r),
    ;

    /// Open or close the shutter (if supported by the device).
    fn set_shutter(&mut self, open: bool) -> (r: Result<(), Error>)
        ensures
            old(self).sets_shutter(open, final(self).state(), r),
    ;
}

/// Backend of a queue-based DAC, which takes chunks of any size into a queue.
pub trait FifoBackend: DacBackend {
    /// The backend's estimator of how full the device queue is.
    type Estimator: BufferEstimator;

    /// The estimator, as it stands now.
    open spec fn current_estimator(&self) -> Self::Estimator {
        arbitrary()
    }

    /// A `try_write_points(pps, points)` in this state may lead to `after` with result `r`.
    open spec fn writes_points(
        &self,
        pps: u32,
        points: Seq<LaserPoint>,
        after: AbstractState,
        r: Result<WriteOutcome, Error>,
    ) -> bool {
        true
    }

    /// A `reset_device_buffer` in this state may lead to `after` with result `r`.
    open spec fn resets_buffer(&self, after: AbstractState, r: Result<(), Error>) -> bool {
        true
    }

    /// Attempt to write points at the given rate.
    ///
    /// Returns `WouldBlock` when the device cannot accept more data, `Written` when the
    /// points were accepted, and an error only for actual errors.
    fn try_write_points(&mut self, pps: u32, points: &[LaserPoint]) -> (r: Result<
        WriteOutcome,
        Error,
    >)
        ensures
            old(self).writes_points(pps, points@, final(self).state(), r),
    ;

    /// The protocol-owned estimator, for reading only.
    fn estimator(&self) -> (r: &Self::Estimator)
        ensures
            *r == self.current_estimator(),
    ;

    /// Clear the device-side queue and reset queue-depth bookkeeping.
    ///
    /// Called when re-arming. Devices that keep draining while disarmed empty their queue
    /// on their own; they have nothing to clear and return `Ok(())`.
    fn reset_device_buffer(&mut self) -> (r: Result<(), Error>)
        ensures
            old(self).resets_buffer(final(self).state(), r),
    ;
}

/// Backend of a double-buffered DAC, which swaps complete frames.
pub trait FrameSwapBackend: DacBackend {
    /// The most points that one frame may hold, as it stands now.
    open spec fn capacity(&self) -> usize {
        arbitrary()
    }

    /// An `is_ready_for_frame` in this state may lead to `after` with result `r`.
    open spec fn probes_ready(&self, after: AbstractState, r: bool) -> bool {
        true
    }

    /// A `write_frame(pps, points)` in this state may lead to `after` with result `r`.
    open spec fn writes_frame(
        &self,
        pps: u32,
        points: Seq<LaserPoint>,
        after: AbstractState,
        r: Result<WriteOutcome, Error>,
    ) -> bool {
        true
    }

    /// A `write_frame_after_ready(pps, points)` in this state may lead to `after` with
    /// result `r`.
    open spec fn writes_ready_frame(
        &self,
        pps: u32,
        points: Seq<LaserPoint>,
        after: AbstractState,
        r: Result<WriteOutcome, Error>,
    ) -> bool {
        true
    }

    /// Maximum number of points the device can accept in a single frame.
    fn frame_capacity(&self) -> (r: usize)
        ensures
            r == self.capacity(),
    ;

    /// Returns true if the device is ready to accept a new frame.
    fn is_ready_for_frame(&mut self) -> (r: bool)
        ensures
            old(self).probes_ready(final(self).state(), r),
    ;

    /// Write a complete frame at the given rate.
    ///
    /// The caller should probe readiness first, but the device may still return
    /// `WouldBlock`.
    fn write_frame(&mut self, pps: u32, points: &[LaserPoint]) -> (r: Result<WriteOutcome, Error>)
        ensures
            old(self).writes_frame(pps, points@, final(self).state(), r),
    ;

    /// Write one frame after `is_ready_for_frame` returned `true`.
    ///
    /// A successful readiness probe grants permission for exactly one call. The default does
    /// not use the permission: it writes as [`write_frame`](Self::write_frame) does, with
    /// whatever probe that needs.
    fn write_frame_after_ready(&mut self, pps: u32, points: &[LaserPoint]) -> (r: Result<
        WriteOutcome,
        Error,
    >)
        ensures
            old(self).writes_ready_frame(pps, points@, final(self).state(), r) || old(
                self,
            ).writes_frame(pps, points@, final(self).state(), r),
    {
        self.write_frame(pps, points)
    }
}

/// A boxed backend is a backend: every call goes to the value in the box.
impl<T: DacBackend + ?Sized> DacBackend for Box<T> {
    open spec fn state(&self) -> AbstractState {
        (**self).state()
    }

    open spec fn kind_of_dac(&self) -> DacType {
        (**self).kind_of_dac()
    }

    open spec fn capabilities(&self) -> DacCapabilities {
        (**self).capabilities()
    }

    open spec fn connects(&self, after: AbstractState, r: Result<(), Error>) -> bool {
        (**self).connects(after, r)
    }

    open spec fn disconnects(&self, after: AbstractState, r: Result<(), Error>) -> bool {
        (**self).disconnects(after, r)
    }

    open spec fn reports_connected(&self, r: bool) -> bool {
        (**self).reports_connected(r)
    }

    open spec fn stops(&self, after: AbstractState, r: Result<(), Error>) -> bool {
        (**self).stops(after, r)
    }

    open spec fn sets_shutter(&self, open: bool, after: AbstractState, r: Result<(), Error>) -> bool {
        (**self).sets_shutter(open, after, r)
    }

    fn dac_type(&self) -> (r: DacType) {
        (**self).dac_type()
    }

    fn caps(&self) -> (r: &DacCapabilities) {
        (**self).caps()
    }

    fn connect(&mut self) -> (r: Result<(), Error>) {
        (**self).connect()
    }

    fn disconnect(&mut self) -> (r: Result<(), Error>) {
        (**self).disconnect()
    }

    fn is_connected(&self) -> (r: bool) {
        (**self).is_connected()
    }

    fn stop(&mut self) -> (r: Result<(), Error>) {
        (**self).stop()
    }

    fn set_shutter(&mut self, open: bool) -> (r: Result<(), Error>) {
        (**self).set_shutter(open)
    }
}

impl<T: FifoBackend + ?Sized> FifoBackend for Box<T> {
    type Estimator = T::Estimator;

    open spec fn current_estimator(&self) -> Self::Estimator {
        (**self).current_estimator()
    }

    open spec fn writes_points(
        &self,
        pps: u32,
        points: Seq<LaserPoint>,
        after: AbstractState,
        r: Result<WriteOutcome, Error>,
    ) -> bool {
        (**self).writes_points(pps, points, after, r)
    }

    open spec fn resets_buffer(&self, after: AbstractState, r: Result<(), Error>) -> bool {
        (**self).resets_buffer(after, r)
    }

    fn try_write_points(&mut self, pps: u32, points: &[LaserPoint]) -> (r: Result<
        WriteOutcome,
        Error,
    >) {
        (**self).try_write_points(pps, points)
    }

    fn estimator(&self) -> (r: &Self::Estimator) {
        (**self).estimator()
    }

    fn reset_device_buffer(&mut self) -> (r: Result<(), Error>) {
        (**self).reset_device_buffer()
    }
}

impl<T: FrameSwapBackend + ?Sized> FrameSwapBackend for Box<T> {
    open spec fn capacity(&self) -> usize {
        (**self).capacity()
    }

    open spec fn probes_ready(&self, after: AbstractState, r: bool) -> bool {
        (**self).probes_ready(after, r)
    }

    open spec fn writes_frame(
        &self,
        pps: u32,
        points: Seq<LaserPoint>,
        after: AbstractState,
        r: Result<WriteOutcome, Error>,
    ) -> bool {
        (**self).writes_frame(pps, points, after, r)
    }

    open spec fn writes_ready_frame(
        &self,
        pps: u32,
        points: Seq<LaserPoint>,
        after: AbstractState,
        r: Result<WriteOutcome, Error>,
    ) -> bool {
        (**self).writes_ready_frame(pps, points, after, r)
    }

    fn frame_capacity(&self) -> (r: usize) {
        (**self).frame_capacity()
    }

    fn is_ready_for_frame(&mut self) -> (r: bool) {
        (**self).is_ready_for_frame()
    }

    fn write_frame(&mut self, pps: u32, points: &[LaserPoint]) -> (r: Result<
        WriteOutcome,
        Error,
    >) {
        (**self).write_frame(pps, points)
    }

    fn write_frame_after_ready(&mut self, pps: u32, points: &[LaserPoint]) -> (r: Result<
        WriteOutcome,
        Error,
    >) {
        (**self).write_frame_after_ready(pps, points)
    }
}

/// The backend behind a [`BackendKind`].
pub enum BackendVariant<F, S> {
    /// A queue-based device.
    Fifo(F),
    /// A frame-swap device.
    FrameSwap(S),
}

impl<F: FifoBackend, S: FrameSwapBackend> BackendVariant<F, S> {
    /// The capabilities that the device advertises.
    pub open spec fn capabilities(self) -> DacCapabilities {
        match self {
            BackendVariant::Fifo(b) => b.capabilities(),
            BackendVariant::FrameSwap(b) => b.capabilities(),
        }
    }

    /// The advertised output model belongs to the runtime kind.
    pub open spec fn model_agrees(self) -> bool {
        self.capabilities().output_model == OutputModel::UsbFrameSwap <==> self is FrameSwap
    }

    /// The error for an output model that does not belong to the runtime kind.
    pub open spec fn mismatch(self) -> ErrorView {
        ErrorView::InvalidConfig(self.mismatch_text())
    }

    /// The text of [`mismatch`](Self::mismatch).
    pub open spec fn mismatch_text(self) -> Seq<char> {
        "backend kind "@ + (if self is FrameSwap {
            "FrameSwap"@
        } else {
            "Fifo"@
        }) + " disagrees with output model "@ + self.capabilities().output_model.name_text()
    }

    /// A `connect` of the device may lead to `after` with result `r`.
    pub open spec fn connects(self, after: Self, r: Result<(), Error>) -> bool {
        match (self, after) {
            (BackendVariant::Fifo(b), BackendVariant::Fifo(a)) => b.connects(a.state(), r),
            (BackendVariant::FrameSwap(b), BackendVariant::FrameSwap(a)) => b.connects(a.state(), r),
            _ => false,
        }
    }

    /// A `disconnect` of the device may lead to `after` with result `r`.
    pub open spec fn disconnects(self, after: Self, r: Result<(), Error>) -> bool {
        match (self, after) {
            (BackendVariant::Fifo(b), BackendVariant::Fifo(a)) => b.disconnects(a.state(), r),
            (BackendVariant::FrameSwap(b), BackendVariant::FrameSwap(a)) => b.disconnects(a.state(), r),
            _ => false,
        }
    }

    /// An `is_connected` of the device may report `r`.
    pub open spec fn reports_connected(self, r: bool) -> bool {
        match self {
            BackendVariant::Fifo(b) => b.reports_connected(r),
            BackendVariant::FrameSwap(b) => b.reports_connected(r),
        }
    }

    /// A `stop` of the device may lead to `after` with result `r`.
    pub open spec fn stops(self, after: Self, r: Result<(), Error>) -> bool {
        match (self, after) {
            (BackendVariant::Fifo(b), BackendVariant::Fifo(a)) => b.stops(a.state(), r),
            (BackendVariant::FrameSwap(b), BackendVariant::FrameSwap(a)) => b.stops(a.state(), r),
            _ => false,
        }
    }

    /// A `set_shutter(open)` of the device may lead to `after` with result `r`.
    pub open spec fn sets_shutter(self, open: bool, after: Self, r: Result<(), Error>) -> bool {
        match (self, after) {
            (BackendVariant::Fifo(b), BackendVariant::Fifo(a)) => b.sets_shutter(open, a.state(), r),
            (BackendVariant::FrameSwap(b), BackendVariant::FrameSwap(a)) => b.sets_shutter(
                open,
                a.state(),
                r,
            ),
            _ => false,
        }
    }

    /// A whole connection attempt may lead to `after` with result `r`.
    ///
    /// A device whose output model disagrees is not touched. Otherwise it is connected
    /// once. If the model disagrees afterwards, the device is disconnected again and the
    /// attempt fails; the text then also carries a failure of that disconnect.
    pub open spec fn attempts_connection(self, after: Self, r: Result<(), Error>) -> bool {
        if self.model_agrees() {
            exists|mid: Self, connected: Result<(), Error>| #[trigger]
                self.connects(mid, connected) && match connected {
                    Err(_) => after == mid && r == connected,
                    Ok(_) => if mid.model_agrees() {
                        after == mid && r is Ok
                    } else {
                        exists|cleanup: Result<(), Error>| #[trigger]
                            mid.disconnects(after, cleanup) && r is Err && r->Err_0@
                                == mid.after_cleanup(cleanup)
                    },
                }
        } else {
            after == self && r is Err && r->Err_0@ == self.mismatch()
        }
    }

    /// The error of a connection whose output model came to disagree, given the result of
    /// disconnecting again.
    pub open spec fn after_cleanup(self, cleanup: Result<(), Error>) -> ErrorView {
        match cleanup {
            Ok(_) => self.mismatch(),
            Err(e) => ErrorView::InvalidConfig(
                self.mismatch_text()
                    + "; disconnect after invariant violation also failed: "@ + e@.text(),
            ),
        }
    }
}

/// A backend of either kind, for the scheduler.
///
/// Construction rejects a backend whose output model disagrees with its runtime kind, and
/// connection checks the agreement again. Runtime dispatch always follows the variant;
/// the capabilities are metadata.
pub struct BackendKind<F, S> {
    inner: BackendVariant<F, S>,
}

impl<F: FifoBackend, S: FrameSwapBackend> View for BackendKind<F, S> {
    type V = BackendVariant<F, S>;

    closed spec fn view(&self) -> BackendVariant<F, S> {
        self.inner
    }
}

impl<F: FifoBackend, S: FrameSwapBackend> BackendKind<F, S> {
    /// Wrap a FIFO backend, rejecting frame-swap capability metadata.
    pub fn fifo(backend: F) -> (r: Result<Self, Error>)
        ensures
            r is Ok <==> backend.capabilities().output_model != OutputModel::UsbFrameSwap,
            r matches Ok(k) ==> k@ == BackendVariant::<F, S>::Fifo(backend),
            r matches Err(e) ==> e@ == BackendVariant::<F, S>::Fifo(backend).mismatch(),
    {
        let backend = Self { inner: BackendVariant::Fifo(backend) };
        match backend.validate_output_model() {
            Ok(()) => Ok(backend),
            Err(e) => Err(e),
        }
    }

    /// Wrap a frame-swap backend, requiring frame-swap capability metadata.
    pub fn frame_swap(backend: S) -> (r: Result<Self, Error>)
        ensures
            r is Ok <==> backend.capabilities().output_model == OutputModel::UsbFrameSwap,
            r matches Ok(k) ==> k@ == BackendVariant::<F, S>::FrameSwap(backend),
            r matches Err(e) ==> e@ == BackendVariant::<F, S>::FrameSwap(backend).mismatch(),
    {
        let backend = Self { inner: BackendVariant::FrameSwap(backend) };
        match backend.validate_output_model() {
            Ok(()) => Ok(backend),
            Err(e) => Err(e),
        }
    }

    /// Verify that capability metadata agrees with the runtime backend kind.
    pub fn validate_output_model(&self) -> (r: Result<(), Error>)
        ensures
            r is Ok <==> self@.model_agrees(),
            r matches Err(e) ==> e@ == self@.mismatch(),
    {
        let model = self.caps().output_model;
        let caps_frame_swap = model == OutputModel::UsbFrameSwap;
        if caps_frame_swap == self.is_frame_swap() {
            return Ok(());
        }
        let kind = if self.is_frame_swap() {
            "FrameSwap"
        } else {
            "Fifo"
        };
        let mut text: String = "backend kind ".to_owned();
        text.append(kind);
        text.append(" disagrees with output model ");
        text.append(model.name());
        Err(Error::invalid_config(text))
    }

    /// Returns the DAC type.
    pub fn dac_type(&self) -> (r: DacType)
        ensures
            r == match self@ {
                BackendVariant::Fifo(b) => b.kind_of_dac(),
                BackendVariant::FrameSwap(b) => b.kind_of_dac(),
            },
    {
        match &self.inner {
            BackendVariant::Fifo(b) => b.dac_type(),
            BackendVariant::FrameSwap(b) => b.dac_type(),
        }
    }

    /// Returns the device capabilities.
    pub fn caps(&self) -> (r: &DacCapabilities)
        ensures
            *r == self@.capabilities(),
    {
        match &self.inner {
            BackendVariant::Fifo(b) => b.caps(),
            BackendVariant::FrameSwap(b) => b.caps(),
        }
    }

    /// Connect to the device and check again the metadata that may have changed while the
    /// backend initialized itself.
    pub fn connect(&mut self) -> (r: Result<(), Error>)
        ensures
            old(self)@.attempts_connection(final(self)@, r),
    {
        match self.validate_output_model() {
            Ok(()) => {},
            Err(e) => {
                return Err(e);
            },
        }
        let connected = match &mut self.inner {
            BackendVariant::Fifo(b) => b.connect(),
            BackendVariant::FrameSwap(b) => b.connect(),
        };
        let ghost mid = self@;
        assert(old(self)@.connects(mid, connected));
        if connected.is_err() {
            return connected;
        }
        match self.validate_output_model() {
            Ok(()) => Ok(()),
            Err(invariant_err) => {
                let cleanup = self.disconnect();
                assert(mid.disconnects(self@, cleanup));
                match cleanup {
                    Ok(()) => Err(invariant_err),
                    Err(cleanup_err) => {
                        let mut text: String = invariant_err.message().to_owned();
                        text.append("; disconnect after invariant violation also failed: ");
                        text.append(cleanup_err.message());
                        Err(Error::invalid_config(text))
                    },
                }
            },
        }
    }

    /// Disconnect from the device.
    pub fn disconnect(&mut self) -> (r: Result<(), Error>)
        ensures
            old(self)@.disconnects(final(self)@, r),
    {
        match &mut self.inner {
            BackendVariant::Fifo(b) => b.disconnect(),
            BackendVariant::FrameSwap(b) => b.disconnect(),
        }
    }

    /// Returns whether the device is connected.
    pub fn is_connected(&self) -> (r: bool)
        ensures
            self@.reports_connected(r),
    {
        match &self.inner {
            BackendVariant::Fifo(b) => b.is_connected(),
            BackendVariant::FrameSwap(b) => b.is_connected(),
        }
    }

    /// Stop output.
    pub fn stop(&mut self) -> (r: Result<(), Error>)
        ensures
            old(self)@.stops(final(self)@, r),
    {
        match &mut self.inner {
            BackendVariant::Fifo(b) => b.stop(),
            BackendVariant::FrameSwap(b) => b.stop(),
        }
    }

    /// Open or close the shutter.
    pub fn set_shutter(&mut self, open: bool) -> (r: Result<(), Error>)
        ensures
            old(self)@.sets_shutter(open, final(self)@, r),
    {
        match &mut self.inner {
            BackendVariant::Fifo(b) => b.set_shutter(open),
            BackendVariant::FrameSwap(b) => b.set_shutter(open),
        }
    }

    /// Best-effort safe teardown of a backend that cannot be handed back to its caller.
    /// Both commands are attempted, whatever the first one returns.
    pub fn close_and_disconnect(&mut self)
        ensures
            exists|closed: BackendVariant<F, S>, r1: Result<(), Error>, r2: Result<(), Error>|
                #![trigger old(self)@.sets_shutter(false, closed, r1), closed.disconnects(final(self)@, r2)]
                old(self)@.sets_shutter(false, closed, r1) && closed.disconnects(final(self)@, r2),
    {
        let r1 = self.set_shutter(false);
        let ghost closed = self@;
        let r2 = self.disconnect();
        assert(old(self)@.sets_shutter(false, closed, r1) && closed.disconnects(self@, r2));
    }

    /// Attempt a write: the points go to the queue of a FIFO device, and as a whole frame
    /// to a frame-swap device, which owns any readiness probe.
    pub fn try_write(&mut self, pps: u32, points: &[LaserPoint]) -> (r: Result<
        WriteOutcome,
        Error,
    >)
        ensures
            match (old(self)@, final(self)@) {
                (BackendVariant::Fifo(b), BackendVariant::Fifo(a)) => b.writes_points(
                    pps,
                    points@,
                    a.state(),
                    r,
                ),
                (BackendVariant::FrameSwap(b), BackendVariant::FrameSwap(a)) => b.writes_frame(
                    pps,
                    points@,
                    a.state(),
                    r,
                ),
                _ => false,
            },
    {
        match &mut self.inner {
            BackendVariant::Fifo(b) => b.try_write_points(pps, points),
            BackendVariant::FrameSwap(b) => b.write_frame(pps, points),
        }
    }

    /// Write a frame after a successful readiness probe. A FIFO device is not touched.
    pub fn write_frame_after_ready(&mut self, pps: u32, points: &[LaserPoint]) -> (r: Result<
        WriteOutcome,
        Error,
    >)
        ensures
            match (old(self)@, final(self)@) {
                (BackendVariant::FrameSwap(b), BackendVariant::FrameSwap(a)) => exists|m: &mut S|
                    *m == b && *final(m) == a && #[trigger] call_ensures(
                        S::write_frame_after_ready,
                        (m, pps, points),
                        r,
                    ),
                (BackendVariant::Fifo(b), BackendVariant::Fifo(a)) => a == b && r is Err
                    && r->Err_0@ == ErrorView::InvalidConfig(
                    "write_frame_after_ready called on a FIFO backend"@,
                ),
                _ => false,
            },
    {
        match &mut self.inner {
            BackendVariant::FrameSwap(b) => b.write_frame_after_ready(pps, points),
            BackendVariant::Fifo(_) => Err(
                Error::invalid_config(
                    "write_frame_after_ready called on a FIFO backend".to_owned(),
                ),
            ),
        }
    }

    /// The protocol-owned estimator of a FIFO backend. Frame-swap backends never queue
    /// points, so they have none.
    pub fn estimator(&self) -> (r: Option<&F::Estimator>)
        ensures
            match self@ {
                BackendVariant::Fifo(b) => r is Some && *r->0 == b.current_estimator(),
                BackendVariant::FrameSwap(_) => r is None,
            },
    {
        match &self.inner {
            BackendVariant::Fifo(b) => Some(b.estimator()),
            BackendVariant::FrameSwap(_) => None,
        }
    }

    /// Clear the device-side queue and reset queue-depth bookkeeping. A frame-swap device
    /// has no queue and is not touched.
    pub fn reset_device_buffer(&mut self) -> (r: Result<(), Error>)
        ensures
            match (old(self)@, final(self)@) {
                (BackendVariant::Fifo(b), BackendVariant::Fifo(a)) => b.resets_buffer(a.state(), r),
                (BackendVariant::FrameSwap(b), BackendVariant::FrameSwap(a)) => a == b && r is Ok,
                _ => false,
            },
    {
        match &mut self.inner {
            BackendVariant::Fifo(b) => b.reset_device_buffer(),
            BackendVariant::FrameSwap(_) => Ok(()),
        }
    }

    /// Returns `true` when the runtime object is a frame-swap backend.
    pub fn is_frame_swap(&self) -> (r: bool)
        ensures
            r == self@ is FrameSwap,
    {
        match &self.inner {
            BackendVariant::Fifo(_) => false,
            BackendVariant::FrameSwap(_) => true,
        }
    }

    /// Probe the readiness of a frame-swap backend. A FIFO device is not touched.
    pub fn is_ready_for_frame(&mut self) -> (r: Result<bool, Error>)
        ensures
            match (old(self)@, final(self)@) {
                (BackendVariant::FrameSwap(b), BackendVariant::FrameSwap(a)) => r is Ok
                    && b.probes_ready(a.state(), r->Ok_0),
                (BackendVariant::Fifo(b), BackendVariant::Fifo(a)) => a == b && r is Err
                    && r->Err_0@ == ErrorView::InvalidConfig(
                    "frame readiness queried on a FIFO backend"@,
                ),
                _ => false,
            },
    {
        match &mut self.inner {
            BackendVariant::FrameSwap(b) => Ok(b.is_ready_for_frame()),
            BackendVariant::Fifo(_) => Err(
                Error::invalid_config("frame readiness queried on a FIFO backend".to_owned()),
            ),
        }
    }

    /// Returns the frame capacity for frame-swap backends, or `None` for FIFO.
    pub fn frame_capacity(&self) -> (r: Option<usize>)
        ensures
            r == match self@ {
                BackendVariant::Fifo(_) => None::<usize>,
                BackendVariant::FrameSwap(b) => Some(b.capacity()),
            },
    {
        match &self.inner {
            BackendVariant::Fifo(_) => None,
            BackendVariant::FrameSwap(b) => Some(b.frame_capacity()),
        }
    }
}

/// However a connection attempt goes, the runtime kind stays what it was, and after a
/// successful one the advertised output model belongs to it. A device whose output model
/// disagreed beforehand is left untouched.
pub proof fn a_connection_keeps_the_kind<F: FifoBackend, S: FrameSwapBackend>(
    before: BackendVariant<F, S>,
    after: BackendVariant<F, S>,
    r: Result<(), Error>,
)
    requires
        before.attempts_connection(after, r),
    ensures
        before is FrameSwap <==> after is FrameSwap,
        r is Ok ==> before.model_agrees() && after.model_agrees(),
        !before.model_agrees() ==> after == before,
{
}

/// A connection whose output model came to disagree is never left open: the attempt fails,
/// and the device was told to disconnect after it was told to connect.
pub proof fn a_disagreeing_connection_is_undone<F: FifoBackend, S: FrameSwapBackend>(
    before: BackendVariant<F, S>,
    after: BackendVariant<F, S>,
    r: Result<(), Error>,
)
    requires
        before.attempts_connection(after, r),
        before.model_agrees(),
    ensures
        exists|mid: BackendVariant<F, S>, connected: Result<(), Error>|
            #![trigger before.connects(mid, connected)]
            {
                &&& before.connects(mid, connected)
                &&& r is Ok ==> after == mid && connected is Ok
                &&& r is Err && connected is Err ==> after == mid && r == connected
                &&& r is Err && connected is Ok ==> !mid.model_agrees() && exists|
                    cleanup: Result<(), Error>,
                |
                    mid.disconnects(after, cleanup)
            },
{
}

} // verus!
