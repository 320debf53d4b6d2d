//! IDN (ILDA Digital Network) backend: chunk building and the decisions around its stream
//! and its worker.
use vstd::prelude::*;

use super::chunk::{
    max_points_per_chunk_for, ChunkPoints, ChunkView, PointFormat, PointsView, QueuedChunk,
    WorkerCommand,
};
use super::pool::{ChunkBufferPool, PoolView};
use crate::backend::WriteOutcome;
use crate::device::{DacCapabilities, DacType, OutputModel};
use crate::error::{Error, ErrorView};
use crate::point::{LaserPoint, PointExtended, PointXyrgbHighRes, PointXyrgbi};

verus! {

/// Commands that may wait between the backend and its worker.
pub const IDN_WORKER_QUEUE_CAPACITY: usize = 8;

/// How long, in milliseconds, to wait for a ping response while connecting.
pub const CONNECT_PING_TIMEOUT_MS: u64 = 300;

/// Further pings while connecting, after the first one.
pub const CONNECT_PING_RETRIES: u32 = 2;

/// What an IDN service offers.
#[derive(Debug, Clone, Copy, PartialEq, Eq, Structural)]
pub enum ServiceType {
    /// Laser projector output.
    LaserProjector,
    /// Audio output.
    Audio,
    /// DMX512 output.
    Dmx512,
    /// Another service, with its type number.
    Unknown(u8),
}

/// An IDN server, as discovery found it.
#[derive(Debug)]
pub struct ServerInfo {
    pub unit_id: [u8; 16],
    pub hostname: String,
    /// Protocol version, major and minor.
    pub protocol_version: (u8, u8),
    pub status: u8,
}

impl ServerInfo {
    /// The description of a server.
    pub fn new(
        unit_id: [u8; 16],
        hostname: String,
        protocol_version: (u8, u8),
        status: u8,
    ) -> (r: ServerInfo)
        ensures
            r == (ServerInfo { unit_id, hostname, protocol_version, status }),
    {
        ServerInfo { unit_id, hostname, protocol_version, status }
    }
}

/// A service of an IDN server.
#[derive(Debug)]
pub struct ServiceInfo {
    pub service_id: u8,
    pub service_type: ServiceType,
    pub name: String,
    pub flags: u8,
    pub relay_number: u8,
}

/// The capabilities of an IDN device that streams in the given format.
pub open spec fn capabilities_for(format: PointFormat) -> DacCapabilities {
    DacCapabilities {
        pps_min: 1,
        pps_max: 100_000,
        max_points_per_chunk: super::chunk::points_per_datagram(format) as usize,
        output_model: OutputModel::UdpTimed,
    }
}

/// The capabilities of an IDN device that streams in the default format.
pub fn default_capabilities() -> (r: DacCapabilities)
    ensures
        r == capabilities_for(PointFormat::Xyrgbi),
{
    DacCapabilities {
        pps_min: 1,
        pps_max: 100_000,
        max_points_per_chunk: max_points_per_chunk_for(PointFormat::Xyrgbi),
        output_model: OutputModel::UdpTimed,
    }
}

/// The rate in the supported range that is nearest to `pps`; never zero.
pub open spec fn clamped_rate(pps: u32, caps: DacCapabilities) -> u32 {
    let floor = if caps.pps_min > 1 {
        caps.pps_min
    } else {
        1
    };
    if pps < floor {
        floor
    } else if pps > caps.pps_max {
        caps.pps_max
    } else {
        pps
    }
}

/// Points in a wire format.
pub open spec fn converted(points: Seq<LaserPoint>, format: PointFormat) -> PointsView {
    match format {
        PointFormat::Xyrgbi => PointsView::Xyrgbi(points.map_values(|p: LaserPoint| p.xyrgbi)),
        PointFormat::XyrgbHighRes => PointsView::HighRes(
            points.map_values(|p: LaserPoint| p.high_res),
        ),
        PointFormat::Extended => PointsView::Extended(
            points.map_values(|p: LaserPoint| p.extended),
        ),
    }
}

fn fill_xyrgbi(buf: &mut Vec<PointXyrgbi>, points: &[LaserPoint])
    requires
        old(buf)@.len() == 0,
    ensures
        final(buf)@ == points@.map_values(|p: LaserPoint| p.xyrgbi),
{
    let mut i: usize = 0;
    while i < points.len()
        invariant
            i <= points@.len(),
            buf@ == points@.take(i as int).map_values(|p: LaserPoint| p.xyrgbi),
        decreases points@.len() - i,
    {
        buf.push(points[i].xyrgbi);
        i = i + 1;
        assert(buf@ =~= points@.take(i as int).map_values(|p: LaserPoint| p.xyrgbi));
    }
    assert(points@.take(i as int) =~= points@);
}

fn fill_high_res(buf: &mut Vec<PointXyrgbHighRes>, points: &[LaserPoint])
    requires
        old(buf)@.len() == 0,
    ensures
        final(buf)@ == points@.map_values(|p: LaserPoint| p.high_res),
{
    let mut i: usize = 0;
    while i < points.len()
        invariant
            i <= points@.len(),
            buf@ == points@.take(i as int).map_values(|p: LaserPoint| p.high_res),
        decreases points@.len() - i,
    {
        buf.push(points[i].high_res);
        i = i + 1;
        assert(buf@ =~= points@.take(i as int).map_values(|p: LaserPoint| p.high_res));
    }
    assert(points@.take(i as int) =~= points@);
}

fn fill_extended(buf: &mut Vec<PointExtended>, points: &[LaserPoint])
    requires
        old(buf)@.len() == 0,
    ensures
        final(buf)@ == points@.map_values(|p: LaserPoint| p.extended),
{
    let mut i: usize = 0;
    while i < points.len()
        invariant
            i <= points@.len(),
            buf@ == points@.take(i as int).map_values(|p: LaserPoint| p.extended),
        decreases points@.len() - i,
    {
        buf.push(points[i].extended);
        i = i + 1;
        assert(buf@ =~= points@.take(i as int).map_values(|p: LaserPoint| p.extended));
    }
    assert(points@.take(i as int) =~= points@);
}

/// The outcome of handing a command to the worker without waiting.
#[derive(Debug, Clone, Copy, PartialEq, Eq, Structural)]
pub enum SendOutcome {
    /// The worker will get it.
    Sent,
    /// Too many commands wait already.
    Full,
    /// The worker is gone.
    Disconnected,
}

/// What an operation on the backend asks its caller to do.
#[derive(Debug, Clone, Copy, PartialEq, Eq, Structural)]
pub enum LinkAction {
    /// Tell the worker to drop what waits and to blank the output. The worker may be gone.
    SendStop,
    /// Tell the worker to end. It may be gone.
    SendShutdown,
    /// Wait for the worker thread to end, and forget it.
    JoinWorker,
    /// Reset the buffer estimator.
    ResetEstimator,
}

/// Mathematical view of an [`IdnBackend`].
#[verifier::ext_equal]
pub struct IdnView {
    pub server: ServerInfo,
    pub service: ServiceInfo,
    pub caps: DacCapabilities,
    /// The selected format, with which the next stream is opened.
    pub selected: PointFormat,
    /// The format in use: that of the live stream, or else the selected one.
    pub format: PointFormat,
    /// Whether a worker was started and not joined since.
    pub running: bool,
    /// The spare conversion buffers.
    pub pool: PoolView,
}

impl IdnView {
    /// The backend with another format in use.
    pub open spec fn using(self, format: PointFormat) -> IdnView {
        IdnView { format, caps: capabilities_for(format), ..self }
    }

    /// The backend after a format was selected. A live stream keeps its format.
    pub open spec fn after_select(self, format: PointFormat) -> IdnView {
        let selected = IdnView { selected: format, ..self };
        if self.running {
            selected
        } else {
            selected.using(format)
        }
    }

    /// The backend after a stream was opened in the given format and its worker started.
    pub open spec fn after_connect(self, format: PointFormat) -> IdnView {
        IdnView { running: true, ..self.using(format) }
    }

    /// The backend after its worker was given up.
    pub open spec fn after_disconnect(self) -> IdnView {
        IdnView { running: false, ..self.using(self.selected) }
    }

    /// The chunk for these points at this rate.
    pub open spec fn chunk(self, pps: u32, points: Seq<LaserPoint>) -> ChunkView {
        ChunkView { pps: clamped_rate(pps, self.caps), points: converted(points, self.format) }
    }

    /// Why points cannot be written; `worker_alive` is what the worker of a running backend
    /// last made known.
    pub open spec fn refusal(self, worker_alive: bool) -> Option<ErrorView> {
        if !self.running {
            Some(ErrorView::Disconnected("Not connected"@))
        } else if !worker_alive {
            Some(ErrorView::Disconnected("IDN sender thread disconnected"@))
        } else {
            None
        }
    }

    /// What a disconnect asks for.
    pub open spec fn disconnect_actions(self) -> Seq<LinkAction> {
        if self.running {
            seq![LinkAction::SendShutdown, LinkAction::JoinWorker, LinkAction::ResetEstimator]
        } else {
            seq![LinkAction::ResetEstimator]
        }
    }

    /// What a stop asks for.
    pub open spec fn stop_actions(self) -> Seq<LinkAction> {
        if self.running {
            seq![LinkAction::SendStop, LinkAction::ResetEstimator]
        } else {
            seq![LinkAction::ResetEstimator]
        }
    }
}

/// IDN DAC backend (ILDA Digital Network).
///
/// The stream, the worker thread and the buffer estimator are the caller's; the backend
/// decides what is done with them.
pub struct IdnBackend {
    server: ServerInfo,
    service: ServiceInfo,
    running: bool,
    caps: DacCapabilities,
    pool: ChunkBufferPool,
    point_format: PointFormat,
    /// Format of the live stream; the selected one while there is none.
    stream_format: PointFormat,
}

impl View for IdnBackend {
    type V = IdnView;

    closed spec fn view(&self) -> IdnView {
        IdnView {
            server: self.server,
            service: self.service,
            caps: self.caps,
            selected: self.point_format,
            format: self.stream_format,
            running: self.running,
            pool: self.pool@,
        }
    }
}

impl IdnBackend {
    /// The pool is in order, the capabilities are those of the format in use, and without a
    /// stream that is the selected one.
    pub closed spec fn wf(&self) -> bool {
        &&& self.pool.wf()
        &&& self.caps == capabilities_for(self.stream_format)
        &&& !self.running ==> self.stream_format == self.point_format
    }

    /// What [`wf`](Self::wf) says of the view.
    pub proof fn lemma_wf(&self)
        requires
            self.wf(),
        ensures
            self@.caps == capabilities_for(self@.format),
            !self@.running ==> self@.format == self@.selected,
    {
    }

    fn use_format(&mut self, format: PointFormat)
        requires
            old(self)@.caps == capabilities_for(old(self)@.format),
        ensures
            final(self)@ == old(self)@.using(format),
            final(self).pool == old(self).pool,
    {
        self.stream_format = format;
        self.caps.max_points_per_chunk = max_points_per_chunk_for(format);
    }

    /// A backend for a service, in the default format and not connected.
    pub fn new(server: ServerInfo, service: ServiceInfo) -> (r: Self)
        ensures
            r.wf(),
            r@ == (IdnView {
                server,
                service,
                caps: capabilities_for(PointFormat::Xyrgbi),
                selected: PointFormat::Xyrgbi,
                format: PointFormat::Xyrgbi,
                running: false,
                pool: PoolView::empty(),
            }),
    {
        IdnBackend {
            server,
            service,
            running: false,
            caps: default_capabilities(),
            pool: ChunkBufferPool::new(),
            point_format: PointFormat::Xyrgbi,
            stream_format: PointFormat::Xyrgbi,
        }
    }

    /// Select the wire point format for streaming.
    ///
    /// The default is [`PointFormat::Xyrgbi`], which every receiver understands. The other
    /// formats carry 16-bit colour, in larger samples and so in more packets per frame. A
    /// change on a live connection has no effect until the next connect: chunks and
    /// capabilities stay those of the format that the stream was opened with.
    pub fn set_point_format(&mut self, format: PointFormat)
        requires
            old(self).wf(),
        ensures
            final(self).wf(),
            final(self)@ == old(self)@.after_select(format),
    {
        self.point_format = format;
        if !self.running {
            self.use_format(format);
        }
    }

    /// The currently selected wire point format.
    pub fn point_format(&self) -> (r: PointFormat)
        ensures
            r == self@.selected,
    {
        self.point_format
    }

    /// The DAC type of this backend.
    pub fn dac_type(&self) -> (r: DacType)
        ensures
            r == DacType::Idn,
    {
        DacType::Idn
    }

    /// The capabilities of the device, for the format in use.
    pub fn caps(&self) -> (r: &DacCapabilities)
        ensures
            *r == self@.caps,
    {
        &self.caps
    }

    /// The server that this backend talks to.
    pub fn server(&self) -> (r: &ServerInfo)
        ensures
            *r == self@.server,
    {
        &self.server
    }

    /// The service that this backend talks to.
    pub fn service(&self) -> (r: &ServiceInfo)
        ensures
            *r == self@.service,
    {
        &self.service
    }

    /// Convert points into the wire format in use, in a pooled buffer if there is one, at
    /// a rate within the device's range.
    pub fn build_chunk(&mut self, pps: u32, points: &[LaserPoint]) -> (r: QueuedChunk)
        requires
            old(self).wf(),
        ensures
            final(self).wf(),
            r@ == old(self)@.chunk(pps, points@),
            final(self)@ == (IdnView {
                pool: old(self)@.pool.after_take(old(self)@.format),
                ..old(self)@
            }),
    {
        let floor: u32 = if self.caps.pps_min > 1 {
            self.caps.pps_min
        } else {
            1
        };
        let rate: u32 = if pps < floor {
            floor
        } else if pps > self.caps.pps_max {
            self.caps.pps_max
        } else {
            pps
        };
        let chunk_points = match self.stream_format {
            PointFormat::Xyrgbi => {
                let mut buf = self.pool.take_xyrgbi();
                fill_xyrgbi(&mut buf, points);
                ChunkPoints::Xyrgbi(buf)
            },
            PointFormat::XyrgbHighRes => {
                let mut buf = self.pool.take_high_res();
                fill_high_res(&mut buf, points);
                ChunkPoints::HighRes(buf)
            },
            PointFormat::Extended => {
                let mut buf = self.pool.take_extended();
                fill_extended(&mut buf, points);
                ChunkPoints::Extended(buf)
            },
        };
        QueuedChunk { pps: rate, points: chunk_points }
    }

    /// Take back the buffer of a chunk that was sent.
    pub fn recycle(&mut self, points: &mut ChunkPoints)
        requires
            old(self).wf(),
        ensures
            final(self).wf(),
            final(self)@ == (IdnView { pool: final(self)@.pool, ..old(self)@ }),
            old(self)@.pool.recycles(old(points)@.format(), final(self)@.pool),
            match *old(points) {
                ChunkPoints::Xyrgbi(v) => exists|m: &mut Vec<PointXyrgbi>|
                    *m == v && #[trigger] call_ensures(Vec::<PointXyrgbi>::clear, (m,), ())
                        && final(self)@.pool == old(self)@.pool.after_recycle(
                        PointFormat::Xyrgbi,
                        ChunkPoints::Xyrgbi(*final(m)),
                    ),
                ChunkPoints::HighRes(v) => exists|m: &mut Vec<PointXyrgbHighRes>|
                    *m == v && #[trigger] call_ensures(Vec::<PointXyrgbHighRes>::clear, (m,), ())
                        && final(self)@.pool == old(self)@.pool.after_recycle(
                        PointFormat::XyrgbHighRes,
                        ChunkPoints::HighRes(*final(m)),
                    ),
                ChunkPoints::Extended(v) => exists|m: &mut Vec<PointExtended>|
                    *m == v && #[trigger] call_ensures(Vec::<PointExtended>::clear, (m,), ())
                        && final(self)@.pool == old(self)@.pool.after_recycle(
                        PointFormat::Extended,
                        ChunkPoints::Extended(*final(m)),
                    ),
            },
            final(points)@ == PointsView::none(old(points)@.format()),
    {
        self.pool.recycle(points);
    }

    /// Begin to connect. A backend with a worker is connected already.
    pub fn connect(&self) -> (r: Connecting)
        ensures
            r@ == ConnectView::start(self@),
    {
        Connecting {
            stage: if self.running {
                ConnectStage::Connected
            } else {
                ConnectStage::Opening
            },
            failure: None,
            service_id: self.service.service_id,
            format: if self.running {
                self.stream_format
            } else {
                self.point_format
            },
        }
    }

    /// Note how connecting ended, and report it. From now on, chunks go out in the format
    /// that the stream was opened with.
    pub fn connected(&mut self, attempt: Connecting) -> (r: Result<(), Error>)
        requires
            old(self).wf(),
            attempt@.stage.is_over(),
        ensures
            match r {
                Ok(()) => attempt@.stage is Connected && final(self)@ == old(self)@.after_connect(
                    attempt@.format,
                ),
                Err(e) => attempt@.stage is Failed && e@ == attempt@.failure() && final(self)@
                    == old(self)@,
            },
            final(self).wf(),
    {
        match attempt.stage {
            ConnectStage::Connected => {
                self.use_format(attempt.format);
                self.running = true;
                Ok(())
            },
            _ => match attempt.failure {
                Some(message) => Err(Error::backend(message)),
                None => Err(Error::disconnected("IDN server did not respond to ping at connect")),
            },
        }
    }

    /// Disconnect. The actions are to be performed in order; none of them can fail the call.
    pub fn disconnect(&mut self) -> (r: Vec<LinkAction>)
        requires
            old(self).wf(),
        ensures
            r@ == old(self)@.disconnect_actions(),
            final(self)@ == old(self)@.after_disconnect(),
            final(self).wf(),
    {
        let mut actions = Vec::new();
        if self.running {
            actions.push(LinkAction::SendShutdown);
            actions.push(LinkAction::JoinWorker);
        }
        actions.push(LinkAction::ResetEstimator);
        self.running = false;
        self.use_format(self.point_format);
        assert(actions@ =~= old(self)@.disconnect_actions());
        actions
    }

    /// Whether the device is connected, where `worker_alive` is what the worker of a running
    /// backend last made known.
    pub fn is_connected(&self, worker_alive: bool) -> (r: bool)
        ensures
            r == (self@.running && worker_alive),
    {
        self.running && worker_alive
    }

    /// Stop output. The actions are to be performed in order; none of them can fail the
    /// call.
    pub fn stop(&self) -> (r: Vec<LinkAction>)
        ensures
            r@ == self@.stop_actions(),
    {
        let mut actions = Vec::new();
        if self.running {
            actions.push(LinkAction::SendStop);
        }
        actions.push(LinkAction::ResetEstimator);
        assert(actions@ =~= self@.stop_actions());
        actions
    }

    /// Make the command that writes points, to be handed to the worker without waiting.
    /// `worker_alive` is what the worker of a running backend last made known.
    pub fn begin_write(&mut self, worker_alive: bool, pps: u32, points: &[LaserPoint]) -> (r:
        Result<WorkerCommand, Error>)
        requires
            old(self).wf(),
        ensures
            final(self).wf(),
            match r {
                Ok(command) => old(self)@.refusal(worker_alive) is None
                    && command is Chunk && command->Chunk_0@ == old(self)@.chunk(pps, points@)
                    && final(self)@ == (IdnView {
                    pool: old(self)@.pool.after_take(old(self)@.format),
                    ..old(self)@
                }),
                Err(e) => old(self)@.refusal(worker_alive) == Some(e@) && final(self)@
                    == old(self)@,
            },
    {
        if !self.running {
            return Err(Error::disconnected("Not connected"));
        }
        if !worker_alive {
            return Err(Error::disconnected("IDN sender thread disconnected"));
        }
        Ok(WorkerCommand::Chunk(self.build_chunk(pps, points)))
    }
}

/// What the buffer estimator is to record of a write.
#[derive(Debug, Clone, Copy, PartialEq, Eq, Structural)]
pub struct SendRecord {
    pub points: u64,
    /// The rate as it was asked for.
    pub pps: u32,
}

/// What becomes of a write of `count` points at `pps` once its command was handed over: the
/// result, and what the estimator is to record.
pub fn finish_write(outcome: SendOutcome, pps: u32, count: usize) -> (r: (
    Result<WriteOutcome, Error>,
    Option<SendRecord>,
))
    ensures
        match r.0 {
            Ok(written) => match outcome {
                SendOutcome::Sent => written == WriteOutcome::Written,
                SendOutcome::Full => written == WriteOutcome::WouldBlock,
                SendOutcome::Disconnected => false,
            },
            Err(e) => outcome == SendOutcome::Disconnected && e@ == ErrorView::Disconnected(
                "IDN sender thread disconnected"@,
            ),
        },
        r.1 == if outcome == SendOutcome::Sent {
            Some(SendRecord { points: count as u64, pps })
        } else {
            None
        },
{
    match outcome {
        SendOutcome::Sent => (
            Ok(WriteOutcome::Written),
            Some(SendRecord { points: count as u64, pps }),
        ),
        SendOutcome::Full => (Ok(WriteOutcome::WouldBlock), None),
        SendOutcome::Disconnected => (
            Err(Error::disconnected("IDN sender thread disconnected")),
            None,
        ),
    }
}

/// Where an attempt to connect stands.
#[derive(Debug, Clone, Copy, PartialEq, Eq, Structural)]
pub enum ConnectStage {
    /// The stream is to be opened.
    Opening,
    /// The device is to be pinged, after that many pings without an answer.
    Pinging(u32),
    /// The device answered, and the estimator is to be reset for the new session.
    Resetting,
    /// The worker is to be started.
    Starting,
    /// The backend is connected.
    Connected,
    /// The attempt failed.
    Failed,
}

impl ConnectStage {
    /// Whether the attempt has come to its end.
    pub open spec fn is_over(self) -> bool {
        self == ConnectStage::Connected || self == ConnectStage::Failed
    }
}

/// What the caller performs next to connect.
#[derive(Debug, Clone, Copy, PartialEq, Eq, Structural)]
pub enum ConnectAction {
    /// Open a stream to the service in wave mode, with this point format.
    OpenStream(u8, PointFormat),
    /// Ping the device and wait that many milliseconds for the response.
    Ping(u64),
    /// Reset the buffer estimator.
    ResetEstimator,
    /// Start a worker with room for that many commands, for this point format.
    StartWorker(usize, PointFormat),
}

/// What came of an action.
#[derive(Debug)]
pub enum ConnectReply {
    /// The stream was opened.
    Opened,
    /// The stream could not be opened, with what the network stack said.
    Refused(String),
    /// Whether the ping was answered.
    Answered(bool),
    /// The action was performed.
    Done,
}

/// Mathematical view of a [`Connecting`].
#[verifier::ext_equal]
pub struct ConnectView {
    pub stage: ConnectStage,
    /// Why the stream could not be opened.
    pub refused: Option<Seq<char>>,
    pub service_id: u8,
    pub format: PointFormat,
}

impl ConnectView {
    /// The start of an attempt. A backend with a worker is connected already.
    pub open spec fn start(backend: IdnView) -> Self {
        ConnectView {
            stage: if backend.running {
                ConnectStage::Connected
            } else {
                ConnectStage::Opening
            },
            refused: None,
            service_id: backend.service.service_id,
            format: if backend.running {
                backend.format
            } else {
                backend.selected
            },
        }
    }

    /// The action to perform next.
    pub open spec fn action(self) -> Option<ConnectAction> {
        match self.stage {
            ConnectStage::Opening => Some(ConnectAction::OpenStream(self.service_id, self.format)),
            ConnectStage::Pinging(_) => Some(ConnectAction::Ping(CONNECT_PING_TIMEOUT_MS)),
            ConnectStage::Resetting => Some(ConnectAction::ResetEstimator),
            ConnectStage::Starting => Some(
                ConnectAction::StartWorker(IDN_WORKER_QUEUE_CAPACITY, self.format),
            ),
            ConnectStage::Connected | ConnectStage::Failed => None,
        }
    }

    /// Whether `reply` answers the next action.
    pub open spec fn expects(self, reply: ConnectReply) -> bool {
        match self.stage {
            ConnectStage::Opening => reply is Opened || reply is Refused,
            ConnectStage::Pinging(_) => reply is Answered,
            ConnectStage::Resetting | ConnectStage::Starting => reply is Done,
            ConnectStage::Connected | ConnectStage::Failed => false,
        }
    }

    /// The state after `reply`; one that does not answer the next action changes nothing.
    pub open spec fn next(self, reply: ConnectReply) -> Self {
        if !self.expects(reply) {
            self
        } else {
            match (self.stage, reply) {
                (ConnectStage::Opening, ConnectReply::Refused(message)) => ConnectView {
                    stage: ConnectStage::Failed,
                    refused: Some(message@),
                    ..self
                },
                (ConnectStage::Opening, _) => ConnectView {
                    stage: ConnectStage::Pinging(0),
                    ..self
                },
                // A plain UDP connect always succeeds, so only an answer shows that the
                // device is there.
                (ConnectStage::Pinging(missed), ConnectReply::Answered(answered)) => ConnectView {
                    stage: if answered {
                        ConnectStage::Resetting
                    } else if missed < CONNECT_PING_RETRIES {
                        ConnectStage::Pinging((missed + 1) as u32)
                    } else {
                        ConnectStage::Failed
                    },
                    ..self
                },
                (ConnectStage::Resetting, _) => ConnectView {
                    stage: ConnectStage::Starting,
                    ..self
                },
                _ => ConnectView { stage: ConnectStage::Connected, ..self },
            }
        }
    }

    /// The state after a series of replies.
    pub open spec fn run(self, replies: Seq<ConnectReply>) -> Self
        decreases replies.len(),
    {
        if replies.len() == 0 {
            self
        } else {
            self.run(replies.drop_last()).next(replies.last())
        }
    }

    /// The error of a failed attempt.
    pub open spec fn failure(self) -> ErrorView {
        match self.refused {
            Some(message) => ErrorView::Backend(message),
            None => ErrorView::Disconnected("IDN server did not respond to ping at connect"@),
        }
    }
}

/// An attempt to connect.
pub struct Connecting {
    stage: ConnectStage,
    failure: Option<String>,
    service_id: u8,
    format: PointFormat,
}

impl View for Connecting {
    type V = ConnectView;

    closed spec fn view(&self) -> ConnectView {
        ConnectView {
            stage: self.stage,
            refused: match self.failure {
                Some(message) => Some(message@),
                None => None,
            },
            service_id: self.service_id,
            format: self.format,
        }
    }
}

impl Connecting {
    /// The action to perform next, or `None` once the attempt is over.
    pub fn next_action(&self) -> (r: Option<ConnectAction>)
        ensures
            r == self@.action(),
    {
        match self.stage {
            ConnectStage::Opening => Some(ConnectAction::OpenStream(self.service_id, self.format)),
            ConnectStage::Pinging(_) => Some(ConnectAction::Ping(CONNECT_PING_TIMEOUT_MS)),
            ConnectStage::Resetting => Some(ConnectAction::ResetEstimator),
            ConnectStage::Starting => Some(
                ConnectAction::StartWorker(IDN_WORKER_QUEUE_CAPACITY, self.format),
            ),
            ConnectStage::Connected | ConnectStage::Failed => None,
        }
    }

    /// Where the attempt stands.
    pub fn stage(&self) -> (r: ConnectStage)
        ensures
            r == self@.stage,
    {
        self.stage
    }

    /// Hand back the reply to the next action. A reply that does not answer it is refused
    /// and changes nothing.
    pub fn complete(&mut self, reply: ConnectReply) -> (accepted: bool)
        ensures
            final(self)@ == old(self)@.next(reply),
            accepted == old(self)@.expects(reply),
    {
        match (self.stage, reply) {
            (ConnectStage::Opening, ConnectReply::Opened) => {
                self.stage = ConnectStage::Pinging(0);
            },
            (ConnectStage::Opening, ConnectReply::Refused(message)) => {
                self.stage = ConnectStage::Failed;
                self.failure = Some(message);
            },
            (ConnectStage::Pinging(missed), ConnectReply::Answered(answered)) => {
                self.stage = if answered {
                    ConnectStage::Resetting
                } else if missed < CONNECT_PING_RETRIES {
                    ConnectStage::Pinging(missed + 1)
                } else {
                    ConnectStage::Failed
                };
            },
            (ConnectStage::Resetting, ConnectReply::Done) => {
                self.stage = ConnectStage::Starting;
            },
            (ConnectStage::Starting, ConnectReply::Done) => {
                self.stage = ConnectStage::Connected;
            },
            _ => {
                return false;
            },
        }
        true
    }
}

/// A rate that goes to the worker is never zero, never above the device's maximum and, if it
/// lies in the range, the one that was asked for.
pub proof fn a_built_rate_is_supported(backend: IdnBackend, pps: u32, points: Seq<LaserPoint>)
    requires
        backend.wf(),
    ensures
        1 <= backend@.chunk(pps, points).pps,
        backend@.caps.pps_min <= backend@.chunk(pps, points).pps <= backend@.caps.pps_max,
        backend@.caps.pps_min <= pps <= backend@.caps.pps_max ==> backend@.chunk(pps, points).pps
            == pps,
{
}

/// A chunk holds one point for each point that was written, in the format in use.
pub proof fn a_built_chunk_holds_every_point(backend: IdnView, pps: u32, points: Seq<LaserPoint>)
    ensures
        backend.chunk(pps, points).points.count() == points.len(),
        backend.chunk(pps, points).points.format() == backend.format,
{
}

/// Selecting a format on a live connection changes neither the chunks nor the capabilities;
/// the next connection takes it up, and so does a backend that is not connected.
pub proof fn a_live_stream_keeps_its_format(
    backend: IdnView,
    format: PointFormat,
    pps: u32,
    points: Seq<LaserPoint>,
)
    ensures
        backend.running ==> backend.after_select(format).chunk(pps, points) == backend.chunk(
            pps,
            points,
        ) && backend.after_select(format).caps == backend.caps,
        !backend.running ==> backend.after_select(format).chunk(pps, points).points == converted(
            points,
            format,
        ),
        ({
            let again = backend.after_select(format).after_disconnect();
            &&& ConnectView::start(again).format == format
            &&& again.after_connect(ConnectView::start(again).format).chunk(pps, points).points
                == converted(points, format)
        }),
{
}

/// An attempt keeps the format it began with.
pub proof fn an_attempt_keeps_its_format(backend: IdnView, replies: Seq<ConnectReply>)
    ensures
        ConnectView::start(backend).run(replies).format == ConnectView::start(backend).format,
    decreases replies.len(),
{
    if replies.len() > 0 {
        an_attempt_keeps_its_format(backend, replies.drop_last());
    }
}

/// What a series of replies says of the pings: how many went unanswered.
pub open spec fn unanswered(replies: Seq<ConnectReply>) -> nat
    decreases replies.len(),
{
    if replies.len() == 0 {
        0
    } else {
        unanswered(replies.drop_last()) + if replies.last() == ConnectReply::Answered(false) {
            1nat
        } else {
            0nat
        }
    }
}

/// Whether some ping was answered.
pub open spec fn some_answer(replies: Seq<ConnectReply>) -> bool {
    exists|i: int| 0 <= i < replies.len() && #[trigger] replies[i] == ConnectReply::Answered(true)
}

/// A backend without a worker connects only to a device that answered a ping, and gives up
/// on a device whose stream was opened only after every ping went unanswered.
pub proof fn connecting_needs_an_answer(backend: IdnView, replies: Seq<ConnectReply>)
    requires
        !backend.running,
    ensures
        ({
            let attempt = ConnectView::start(backend).run(replies);
            &&& attempt.stage == ConnectStage::Connected ==> some_answer(replies)
            &&& attempt.stage == ConnectStage::Failed && attempt.refused is None ==> unanswered(
                replies,
            ) >= CONNECT_PING_RETRIES + 1
        }),
{
    lemma_connecting(backend, replies);
}

proof fn lemma_connecting(backend: IdnView, replies: Seq<ConnectReply>)
    requires
        !backend.running,
    ensures
        ({
            let attempt = ConnectView::start(backend).run(replies);
            &&& attempt.stage matches ConnectStage::Pinging(missed) ==> unanswered(replies)
                >= missed
            &&& attempt.stage == ConnectStage::Failed && attempt.refused is None ==> unanswered(
                replies,
            ) >= CONNECT_PING_RETRIES + 1
            &&& attempt.stage == ConnectStage::Resetting || attempt.stage == ConnectStage::Starting
                || attempt.stage == ConnectStage::Connected ==> some_answer(replies)
            &&& attempt.refused is Some ==> attempt.stage == ConnectStage::Failed
        }),
    decreases replies.len(),
{
    if replies.len() > 0 {
        let earlier = replies.drop_last();
        lemma_connecting(backend, earlier);
        let before = ConnectView::start(backend).run(earlier);
        if some_answer(earlier) {
            let i = choose|i: int|
                0 <= i < earlier.len() && #[trigger] earlier[i] == ConnectReply::Answered(true);
            assert(replies[i] == earlier[i]);
        }
        if before.stage is Pinging && replies.last() == ConnectReply::Answered(true) {
            assert(replies[replies.len() - 1] == ConnectReply::Answered(true));
        }
    }
}

/// A connected backend that connects again asks for nothing and stays as it is.
pub proof fn connecting_twice_changes_nothing(backend: IdnView)
    requires
        backend.running,
    ensures
        ConnectView::start(backend).action() is None,
        ConnectView::start(backend).stage == ConnectStage::Connected,
{
}

} // verus!
