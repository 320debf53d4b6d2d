use std::sync::atomic::{AtomicBool, Ordering};
use std::sync::Arc;

use laser_dac::backend::{
    BackendKind, BufferEstimator, DacBackend, FifoBackend, FrameSwapBackend, WriteOutcome,
};
use laser_dac::device::{DacCapabilities, DacType, OutputModel};
use laser_dac::error::Error;
use laser_dac::point::LaserPoint;

struct NoEstimate;

impl BufferEstimator for NoEstimate {
    fn estimated_fullness(&self, _now_ns: u64, _pps: u32) -> u64 {
        0
    }
}

type BoxedFifo = Box<dyn FifoBackend<Estimator = NoEstimate>>;
type BoxedFrameSwap = Box<dyn FrameSwapBackend>;
type Backend = BackendKind<BoxedFifo, BoxedFrameSwap>;

fn caps(output_model: OutputModel) -> DacCapabilities {
    DacCapabilities {
        pps_min: 1,
        pps_max: 100_000,
        max_points_per_chunk: 1_000,
        output_model,
    }
}

/// Stub FIFO backend with a configurable `OutputModel`.
struct StubFifo {
    caps: DacCapabilities,
    estimator: NoEstimate,
}

impl DacBackend for StubFifo {
    fn dac_type(&self) -> DacType {
        DacType::Custom("stub".into())
    }
    fn caps(&self) -> &DacCapabilities {
        &self.caps
    }
    fn connect(&mut self) -> Result<(), Error> {
        Ok(())
    }
    fn disconnect(&mut self) -> Result<(), Error> {
        Ok(())
    }
    fn is_connected(&self) -> bool {
        true
    }
    fn stop(&mut self) -> Result<(), Error> {
        Ok(())
    }
    fn set_shutter(&mut self, _open: bool) -> Result<(), Error> {
        Ok(())
    }
}

impl FifoBackend for StubFifo {
    type Estimator = NoEstimate;

    fn try_write_points(&mut self, _pps: u32, _points: &[LaserPoint]) -> Result<WriteOutcome, Error> {
        Ok(WriteOutcome::Written)
    }
    fn estimator(&self) -> &NoEstimate {
        &self.estimator
    }
    fn reset_device_buffer(&mut self) -> Result<(), Error> {
        Ok(())
    }
}

struct StubFrameSwap {
    caps: DacCapabilities,
}

impl DacBackend for StubFrameSwap {
    fn dac_type(&self) -> DacType {
        DacType::Custom("stub-fs".into())
    }
    fn caps(&self) -> &DacCapabilities {
        &self.caps
    }
    fn connect(&mut self) -> Result<(), Error> {
        Ok(())
    }
    fn disconnect(&mut self) -> Result<(), Error> {
        Ok(())
    }
    fn is_connected(&self) -> bool {
        true
    }
    fn stop(&mut self) -> Result<(), Error> {
        Ok(())
    }
    fn set_shutter(&mut self, _open: bool) -> Result<(), Error> {
        Ok(())
    }
}

impl FrameSwapBackend for StubFrameSwap {
    fn frame_capacity(&self) -> usize {
        4096
    }
    fn is_ready_for_frame(&mut self) -> bool {
        true
    }
    fn write_frame(&mut self, _pps: u32, _points: &[LaserPoint]) -> Result<WriteOutcome, Error> {
        Ok(WriteOutcome::Written)
    }
}

fn stub_fifo(model: OutputModel) -> BoxedFifo {
    Box::new(StubFifo {
        caps: caps(model),
        estimator: NoEstimate,
    })
}

fn stub_frame_swap(model: OutputModel) -> BoxedFrameSwap {
    Box::new(StubFrameSwap { caps: caps(model) })
}

#[test]
fn runtime_kind_is_derived_from_private_variant() {
    for model in [
        OutputModel::NetworkFifo,
        OutputModel::UdpTimed,
        OutputModel::BlockingFifo,
    ] {
        let backend = Backend::fifo(stub_fifo(model)).unwrap();
        assert!(!backend.is_frame_swap());
    }

    let backend = Backend::frame_swap(stub_frame_swap(OutputModel::UsbFrameSwap)).unwrap();
    assert!(backend.is_frame_swap());
}

struct MutatingFifo {
    caps: DacCapabilities,
    connected: bool,
    disconnected: Arc<AtomicBool>,
    fail_disconnect: bool,
    estimator: NoEstimate,
}

impl DacBackend for MutatingFifo {
    fn dac_type(&self) -> DacType {
        DacType::Custom("mutating-fifo".into())
    }
    fn caps(&self) -> &DacCapabilities {
        &self.caps
    }
    fn connect(&mut self) -> Result<(), Error> {
        self.connected = true;
        self.caps.output_model = OutputModel::UsbFrameSwap;
        Ok(())
    }
    fn disconnect(&mut self) -> Result<(), Error> {
        self.connected = false;
        self.disconnected.store(true, Ordering::SeqCst);
        if self.fail_disconnect {
            Err(Error::backend("cleanup failed".to_string()))
        } else {
            Ok(())
        }
    }
    fn is_connected(&self) -> bool {
        self.connected
    }
    fn stop(&mut self) -> Result<(), Error> {
        Ok(())
    }
    fn set_shutter(&mut self, _open: bool) -> Result<(), Error> {
        Ok(())
    }
}

impl FifoBackend for MutatingFifo {
    type Estimator = NoEstimate;

    fn try_write_points(&mut self, _pps: u32, _points: &[LaserPoint]) -> Result<WriteOutcome, Error> {
        Ok(WriteOutcome::Written)
    }
    fn estimator(&self) -> &NoEstimate {
        &self.estimator
    }
    fn reset_device_buffer(&mut self) -> Result<(), Error> {
        Ok(())
    }
}

#[test]
fn constructors_reject_kind_output_model_disagreement() {
    let err = match Backend::fifo(stub_fifo(OutputModel::UsbFrameSwap)) {
        Ok(_) => panic!("FIFO wrapper must reject UsbFrameSwap metadata"),
        Err(err) => err,
    };
    assert!(err.message().contains("Fifo"));
    assert!(err.message().contains("UsbFrameSwap"));

    let err = match Backend::frame_swap(stub_frame_swap(OutputModel::NetworkFifo)) {
        Ok(_) => panic!("frame-swap wrapper must reject FIFO metadata"),
        Err(err) => err,
    };
    assert!(err.message().contains("FrameSwap"));
    assert!(err.message().contains("NetworkFifo"));
}

#[test]
fn connect_revalidates_output_model_and_disconnects_on_disagreement() {
    let disconnected = Arc::new(AtomicBool::new(false));
    let mut backend = Backend::fifo(Box::new(MutatingFifo {
        caps: caps(OutputModel::NetworkFifo),
        connected: false,
        disconnected: disconnected.clone(),
        fail_disconnect: false,
        estimator: NoEstimate,
    }))
    .unwrap();

    let err = backend.connect().unwrap_err();
    assert!(err.message().contains("disagrees"));
    assert!(!backend.is_connected());
    assert!(disconnected.load(Ordering::SeqCst));
}

#[test]
fn connect_reports_cleanup_failure_after_invariant_violation() {
    let mut backend = Backend::fifo(Box::new(MutatingFifo {
        caps: caps(OutputModel::NetworkFifo),
        connected: false,
        disconnected: Arc::new(AtomicBool::new(false)),
        fail_disconnect: true,
        estimator: NoEstimate,
    }))
    .unwrap();

    let err = backend.connect().unwrap_err();
    assert!(err.message().contains("invariant violation"));
    assert!(err.message().contains("cleanup failed"));
}

#[test]
fn a_disagreement_names_the_kind_and_the_model() {
    let err = match Backend::fifo(stub_fifo(OutputModel::UsbFrameSwap)) {
        Ok(_) => panic!("FIFO wrapper must reject UsbFrameSwap metadata"),
        Err(err) => err,
    };
    assert_eq!(
        err.message(),
        "backend kind Fifo disagrees with output model UsbFrameSwap"
    );
    let err = match Backend::frame_swap(stub_frame_swap(OutputModel::BlockingFifo)) {
        Ok(_) => panic!("frame-swap wrapper must reject FIFO metadata"),
        Err(err) => err,
    };
    assert!(matches!(err, Error::InvalidConfig(_)));
    assert_eq!(
        err.message(),
        "backend kind FrameSwap disagrees with output model BlockingFifo"
    );
}

#[test]
fn a_failed_cleanup_is_reported_with_the_disagreement() {
    let mut backend = Backend::fifo(Box::new(MutatingFifo {
        caps: caps(OutputModel::UdpTimed),
        connected: false,
        disconnected: Arc::new(AtomicBool::new(false)),
        fail_disconnect: true,
        estimator: NoEstimate,
    }))
    .unwrap();
    assert_eq!(
        backend.connect().unwrap_err().message(),
        "backend kind Fifo disagrees with output model UsbFrameSwap; disconnect after invariant \
         violation also failed: cleanup failed"
    );
    // The model still disagrees, so the device is not touched again.
    assert_eq!(
        backend.connect().unwrap_err().message(),
        "backend kind Fifo disagrees with output model UsbFrameSwap"
    );
    assert!(!backend.is_frame_swap());
}

#[test]
fn frame_operations_belong_to_frame_swap_backends() {
    let mut fifo = Backend::fifo(stub_fifo(OutputModel::NetworkFifo)).unwrap();
    assert_eq!(fifo.frame_capacity(), None);
    assert!(fifo.estimator().is_some());
    assert_eq!(fifo.try_write(1_000, &[]).unwrap(), WriteOutcome::Written);
    assert_eq!(
        fifo.is_ready_for_frame().unwrap_err().message(),
        "frame readiness queried on a FIFO backend"
    );
    assert_eq!(
        fifo.write_frame_after_ready(1_000, &[]).unwrap_err().message(),
        "write_frame_after_ready called on a FIFO backend"
    );
    assert!(fifo.reset_device_buffer().is_ok());
    assert!(fifo.stop().is_ok());
    assert!(matches!(fifo.dac_type(), DacType::Custom(name) if name == "stub"));

    let mut frames = Backend::frame_swap(stub_frame_swap(OutputModel::UsbFrameSwap)).unwrap();
    assert_eq!(frames.frame_capacity(), Some(4096));
    assert!(frames.estimator().is_none());
    assert!(frames.is_ready_for_frame().unwrap());
    assert_eq!(
        frames.write_frame_after_ready(1_000, &[]).unwrap(),
        WriteOutcome::Written
    );
    assert_eq!(frames.try_write(1_000, &[]).unwrap(), WriteOutcome::Written);
    assert!(frames.reset_device_buffer().is_ok());
    assert!(frames.validate_output_model().is_ok());
    assert!(matches!(frames.dac_type(), DacType::Custom(name) if name == "stub-fs"));
    assert_eq!(frames.caps().max_points_per_chunk, 1_000);
}

#[test]
fn teardown_disconnects_whatever_closing_returns() {
    let disconnected = Arc::new(AtomicBool::new(false));
    let mut backend = Backend::fifo(Box::new(MutatingFifo {
        caps: caps(OutputModel::NetworkFifo),
        connected: true,
        disconnected: disconnected.clone(),
        fail_disconnect: true,
        estimator: NoEstimate,
    }))
    .unwrap();
    backend.close_and_disconnect();
    assert!(disconnected.load(Ordering::SeqCst));
    assert!(!backend.is_connected());
}

/// A frame-swap device whose plain write is never ready, and whose ready write is.
struct PermitOnly {
    caps: DacCapabilities,
}

impl DacBackend for PermitOnly {
    fn dac_type(&self) -> DacType {
        DacType::Helios
    }
    fn caps(&self) -> &DacCapabilities {
        &self.caps
    }
    fn connect(&mut self) -> Result<(), Error> {
        Ok(())
    }
    fn disconnect(&mut self) -> Result<(), Error> {
        Ok(())
    }
    fn is_connected(&self) -> bool {
        true
    }
    fn stop(&mut self) -> Result<(), Error> {
        Ok(())
    }
    fn set_shutter(&mut self, _open: bool) -> Result<(), Error> {
        Ok(())
    }
}

impl FrameSwapBackend for PermitOnly {
    fn frame_capacity(&self) -> usize {
        1
    }
    fn is_ready_for_frame(&mut self) -> bool {
        true
    }
    fn write_frame(&mut self, _pps: u32, _points: &[LaserPoint]) -> Result<WriteOutcome, Error> {
        Ok(WriteOutcome::WouldBlock)
    }
    fn write_frame_after_ready(
        &mut self,
        _pps: u32,
        _points: &[LaserPoint],
    ) -> Result<WriteOutcome, Error> {
        Ok(WriteOutcome::Written)
    }
}

#[test]
fn a_ready_write_reaches_the_device_through_a_box() {
    let mut backend = Backend::frame_swap(Box::new(PermitOnly {
        caps: caps(OutputModel::UsbFrameSwap),
    }))
    .unwrap();
    assert_eq!(
        backend.try_write(1_000, &[]).unwrap(),
        WriteOutcome::WouldBlock
    );
    assert_eq!(
        backend.write_frame_after_ready(1_000, &[]).unwrap(),
        WriteOutcome::Written
    );
}
