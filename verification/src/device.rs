//! Device types, output models and capabilities.
use vstd::prelude::*;

verus! {

/// How a device takes its points.
#[derive(Debug, Clone, Copy, PartialEq, Eq, Structural)]
pub enum OutputModel {
    /// A queue on the far side of a network connection.
    NetworkFifo,
    /// Timestamped datagrams.
    UdpTimed,
    /// A queue whose writes block and which does not drain while output is off.
    BlockingFifo,
    /// A double-buffered device that swaps whole frames.
    UsbFrameSwap,
}

impl OutputModel {
    /// The name of the model, as it stands in messages.
    pub open spec fn name_text(self) -> Seq<char> {
        match self {
            OutputModel::NetworkFifo => "NetworkFifo"@,
            OutputModel::UdpTimed => "UdpTimed"@,
            OutputModel::BlockingFifo => "BlockingFifo"@,
            OutputModel::UsbFrameSwap => "UsbFrameSwap"@,
        }
    }

    /// The name of the model, as it stands in messages.
    pub fn name(self) -> (r: &'static str)
        ensures
            r@ == self.name_text(),
    {
        match self {
            OutputModel::NetworkFifo => "NetworkFifo",
            OutputModel::UdpTimed => "UdpTimed",
            OutputModel::BlockingFifo => "BlockingFifo",
            OutputModel::UsbFrameSwap => "UsbFrameSwap",
        }
    }
}

/// The kind of a DAC.
#[derive(Debug, Clone)]
pub enum DacType {
    Helios,
    EtherDream,
    Idn,
    LaserCubeNetwork,
    LaserCubeUsb,
    Oscilloscope,
    Avb,
    /// A device that the library does not know by itself.
    Custom(String),
}

/// What a device can do.
#[derive(Debug, Clone, Copy)]
pub struct DacCapabilities {
    /// Lowest supported rate, in points per second.
    pub pps_min: u32,
    /// Highest supported rate, in points per second.
    pub pps_max: u32,
    /// Most points that one chunk may hold.
    pub max_points_per_chunk: usize,
    /// How the device takes its points.
    pub output_model: OutputModel,
}

} // verus!
