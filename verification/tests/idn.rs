use std::collections::VecDeque;
use std::sync::mpsc;

use laser_dac::backend::WriteOutcome;
use laser_dac::device::OutputModel;
use laser_dac::point::{LaserPoint, PointExtended, PointXyrgbHighRes, PointXyrgbi};
use laser_dac::protocols::idn::backend::{
    finish_write, ConnectAction, ConnectReply, ConnectStage, LinkAction, SendOutcome, SendRecord,
    ServerInfo, ServiceInfo, ServiceType,
};
use laser_dac::protocols::idn::chunk::{
    blank_chunk, handle_worker_command, max_points_per_chunk_for, ChunkPoints, PointFormat,
    QueuedChunk, WorkerCommand,
};
use laser_dac::protocols::idn::pool::ChunkBufferPool;
use laser_dac::protocols::idn::stream::{perform_on_stream, WorkerStream};
use laser_dac::protocols::idn::worker::{
    liveness_check_due, Worker, WorkerAction, WorkerReply, ACK_CHECK_INTERVAL_NS,
    MAX_CONSECUTIVE_ACK_MISSES,
};
use laser_dac::protocols::idn::{default_capabilities, IdnBackend};

fn test_chunk(pps: u32, point_count: usize) -> QueuedChunk {
    QueuedChunk {
        pps,
        points: ChunkPoints::Xyrgbi(vec![PointXyrgbi::new(0, 0, 0, 0, 0, 0); point_count]),
    }
}

#[test]
fn handle_worker_command_stop_replaces_backlog_with_blank() {
    let mut queue = VecDeque::new();

    assert!(handle_worker_command(
        WorkerCommand::Chunk(test_chunk(30_000, 179)),
        &mut queue,
        30_000,
        PointFormat::Xyrgbi,
    ));
    assert!(handle_worker_command(
        WorkerCommand::Chunk(test_chunk(30_000, 179)),
        &mut queue,
        30_000,
        PointFormat::Xyrgbi,
    ));

    assert!(handle_worker_command(
        WorkerCommand::Stop,
        &mut queue,
        30_000,
        PointFormat::Xyrgbi,
    ));
    assert_eq!(queue.len(), 1);
    assert_eq!(queue.front().unwrap().points.len(), 10);

    assert!(!handle_worker_command(
        WorkerCommand::Shutdown,
        &mut queue,
        30_000,
        PointFormat::Xyrgbi,
    ));
    assert_eq!(queue.len(), 1);
}

/// A stream that counts writes and answers probes or not.
struct FakeStream {
    scan_speed: u32,
    writes: usize,
    write_sizes: Vec<usize>,
    pings: usize,
    ack_ok: bool,
    needs_keepalive: bool,
    keepalives: usize,
    clock_ns: u64,
    clock_step_ns: u64,
    closed: bool,
}

impl FakeStream {
    fn new() -> Self {
        Self {
            scan_speed: 30_000,
            writes: 0,
            write_sizes: Vec::new(),
            pings: 0,
            ack_ok: true,
            needs_keepalive: false,
            keepalives: 0,
            clock_ns: 0,
            clock_step_ns: 0,
            closed: false,
        }
    }
}

impl WorkerStream for FakeStream {
    fn scan_speed(&self) -> u32 {
        self.scan_speed
    }

    fn set_scan_speed(&mut self, pps: u32) {
        self.scan_speed = pps;
    }

    fn needs_keepalive(&self) -> bool {
        self.needs_keepalive
    }

    fn send_keepalive(&mut self) -> bool {
        self.keepalives += 1;
        self.keepalives < 3
    }

    fn write_frame(&mut self, points: &ChunkPoints) -> bool {
        self.writes += 1;
        self.write_sizes.push(points.len());
        true
    }

    fn write_frame_with_ack(&mut self, points: &ChunkPoints, timeout_ms: u64) -> bool {
        assert_eq!(timeout_ms, 100);
        self.writes += 1;
        self.write_sizes.push(points.len());
        self.ack_ok
    }

    fn ping(&mut self, timeout_ms: u64) -> bool {
        assert_eq!(timeout_ms, 100);
        self.pings += 1;
        self.ack_ok
    }

    fn close(&mut self) {
        self.closed = true;
    }
}

/// Run a worker on a channel until it ends. A wait for a command ends at once.
fn worker_loop(
    stream: &mut FakeStream,
    rx: &mpsc::Receiver<WorkerCommand>,
    connected: &mut bool,
    point_format: PointFormat,
    pool: &mut ChunkBufferPool,
) -> Vec<WorkerAction> {
    worker_loop_with(stream, rx, connected, point_format, pool, &mut |_| {})
}

/// The same, with something to do before each wait.
fn worker_loop_with(
    stream: &mut FakeStream,
    rx: &mpsc::Receiver<WorkerCommand>,
    connected: &mut bool,
    point_format: PointFormat,
    pool: &mut ChunkBufferPool,
    before_wait: &mut dyn FnMut(&FakeStream),
) -> Vec<WorkerAction> {
    let mut worker = Worker::new(stream.scan_speed(), point_format);
    let mut actions = Vec::new();
    while let Some(action) = worker.next_action() {
        actions.push(action);
        assert!(actions.len() < 10_000);
        if action == WorkerAction::ReceiveTimeout {
            before_wait(stream);
        }
        let reply = match action {
            WorkerAction::TryReceive | WorkerAction::ReceiveTimeout => match rx.try_recv() {
                Ok(command) => WorkerReply::Received(command),
                Err(mpsc::TryRecvError::Empty) => WorkerReply::Empty,
                Err(mpsc::TryRecvError::Disconnected) => WorkerReply::Hangup,
            },
            WorkerAction::ReadClock => {
                stream.clock_ns += stream.clock_step_ns;
                WorkerReply::Clock(stream.clock_ns)
            }
            WorkerAction::Recycle => {
                let mut points = worker.recycle().unwrap();
                pool.recycle(&mut points);
                continue;
            }
            WorkerAction::MarkDisconnected => {
                assert!(!stream.closed);
                *connected = false;
                WorkerReply::Done
            }
            _ => perform_on_stream(&worker, stream).unwrap(),
        };
        assert!(worker.complete(reply));
    }
    assert!(stream.closed);
    assert!(perform_on_stream(&worker, stream).is_none());
    actions
}

#[test]
fn worker_loop_bursts_backlog_without_realtime_delay() {
    let mut stream = FakeStream::new();
    let (tx, rx) = mpsc::sync_channel(4);
    let mut connected = true;

    tx.send(WorkerCommand::Chunk(test_chunk(1_000, 179)))
        .unwrap();
    tx.send(WorkerCommand::Chunk(test_chunk(1_000, 179)))
        .unwrap();

    // The first wait comes after the backlog; the worker is then told to end.
    let mut count = 0;
    let actions = worker_loop_with(
        &mut stream,
        &rx,
        &mut connected,
        PointFormat::Xyrgbi,
        &mut ChunkBufferPool::new(),
        &mut |stream| {
            count = stream.writes;
            tx.send(WorkerCommand::Shutdown).unwrap();
        },
    );

    assert_eq!(
        count, 2,
        "worker should drain backlog immediately to build timestamp lead"
    );
    assert!(!connected);
    assert_eq!(
        actions
            .iter()
            .filter(|action| **action == WorkerAction::ReceiveTimeout)
            .count(),
        1
    );
    assert_eq!(stream.write_sizes, vec![179, 179]);
    assert_eq!(stream.scan_speed, 1_000);
}

#[test]
fn worker_disconnects_after_consecutive_ack_misses() {
    let mut stream = FakeStream::new();
    // A dead device: ACK/ping probes never succeed.
    stream.ack_ok = false;
    let (tx, rx) = mpsc::sync_channel(16);
    let mut connected = true;

    for _ in 0..10 {
        let _ = tx.send(WorkerCommand::Chunk(test_chunk(30_000, 20)));
    }
    let actions = worker_loop(
        &mut stream,
        &rx,
        &mut connected,
        PointFormat::Xyrgbi,
        &mut ChunkBufferPool::new(),
    );

    assert!(
        !connected,
        "worker should mark disconnected after consecutive ACK misses"
    );
    assert!(
        stream.writes >= MAX_CONSECUTIVE_ACK_MISSES as usize,
        "worker should have attempted the frames before giving up"
    );
    assert_eq!(stream.writes, 4);
    assert_eq!(
        actions[actions.len() - 2..].to_vec(),
        vec![WorkerAction::MarkDisconnected, WorkerAction::CloseStream]
    );
    drop(tx);
}

#[test]
fn an_idle_worker_pings_and_gives_up_on_a_dead_device() {
    let mut stream = FakeStream::new();
    stream.ack_ok = false;
    let (tx, rx) = mpsc::sync_channel(1);
    let mut connected = true;
    worker_loop(
        &mut stream,
        &rx,
        &mut connected,
        PointFormat::Xyrgbi,
        &mut ChunkBufferPool::new(),
    );
    assert_eq!(stream.pings, 4);
    assert_eq!(stream.writes, 0);
    assert!(!connected);
    drop(tx);
}

#[test]
fn a_failed_keepalive_ends_the_worker() {
    let mut stream = FakeStream::new();
    stream.needs_keepalive = true;
    let (tx, rx) = mpsc::sync_channel(1);
    let mut connected = true;
    let actions = worker_loop(
        &mut stream,
        &rx,
        &mut connected,
        PointFormat::Xyrgbi,
        &mut ChunkBufferPool::new(),
    );
    assert_eq!(stream.keepalives, 3);
    assert_eq!(stream.pings, 1);
    assert!(actions.contains(&WorkerAction::NeedsKeepalive));
    assert!(!connected);
    drop(tx);
}

#[test]
fn chunks_are_sent_in_order_and_a_stop_sends_a_blank() {
    let mut stream = FakeStream::new();
    let (tx, rx) = mpsc::sync_channel(8);
    let mut connected = true;
    let mut pool = ChunkBufferPool::new();
    tx.send(WorkerCommand::Chunk(test_chunk(1_000, 1))).unwrap();
    tx.send(WorkerCommand::Stop).unwrap();
    tx.send(WorkerCommand::Chunk(test_chunk(2_000, 2))).unwrap();
    tx.send(WorkerCommand::Chunk(test_chunk(3_000, 3))).unwrap();
    drop(tx);
    let mut worker = Worker::new(30_000, PointFormat::Xyrgbi);
    let mut sent = Vec::new();
    let mut speeds = Vec::new();
    let mut acks = 0;
    loop {
        let reply = match worker.next_action().unwrap() {
            WorkerAction::TryReceive => match rx.try_recv() {
                Ok(command) => WorkerReply::Received(command),
                Err(_) => WorkerReply::Empty,
            },
            WorkerAction::ReceiveTimeout => break,
            WorkerAction::SetScanSpeed(pps) => {
                speeds.push(pps);
                WorkerReply::Done
            }
            WorkerAction::ReadClock => WorkerReply::Clock(7),
            WorkerAction::WriteFrame => {
                sent.push(worker.current_points().unwrap().len());
                WorkerReply::Outcome(true)
            }
            WorkerAction::WriteFrameWithAck(_) => {
                acks += 1;
                sent.push(worker.current_points().unwrap().len());
                WorkerReply::Outcome(true)
            }
            WorkerAction::Recycle => {
                let mut points = worker.recycle().unwrap();
                pool.recycle(&mut points);
                assert_eq!(points.len(), 0);
                assert!(worker.recycle().is_none());
                continue;
            }
            other => panic!("unexpected {:?}", other),
        };
        assert!(worker.complete(reply));
    }
    assert_eq!(sent, vec![10, 2, 3]);
    // The blank goes out at the rate that the stream had.
    assert_eq!(speeds, vec![30_000, 2_000, 3_000]);
    // Only the first send probes the device within the interval.
    assert_eq!(acks, 1);

    let actions = worker_loop(&mut stream, &rx, &mut connected, PointFormat::Xyrgbi, &mut pool);
    assert_eq!(actions.len(), 3);
}

#[test]
fn a_failed_plain_send_ends_the_worker() {
    let mut worker = Worker::new(30_000, PointFormat::Xyrgbi);
    let mut send = |worker: &mut Worker, now_ns: u64, ok: bool| {
        assert!(worker.complete(WorkerReply::Received(WorkerCommand::Chunk(test_chunk(500, 5)))));
        assert!(worker.complete(WorkerReply::Empty));
        assert!(worker.complete(WorkerReply::Done));
        assert!(worker.complete(WorkerReply::Clock(now_ns)));
        let probed = matches!(
            worker.next_action(),
            Some(WorkerAction::WriteFrameWithAck(_))
        );
        assert!(worker.complete(WorkerReply::Outcome(ok)));
        probed
    };
    assert!(send(&mut worker, 10, true));
    assert!(worker.complete(WorkerReply::Done));
    assert!(!send(&mut worker, 10 + ACK_CHECK_INTERVAL_NS - 1, false));
    assert_eq!(worker.next_action(), Some(WorkerAction::MarkDisconnected));
    assert!(worker.current_points().is_none());
    assert!(!worker.complete(WorkerReply::Empty));
    assert!(worker.complete(WorkerReply::Done));
    assert!(worker.complete(WorkerReply::Done));
    assert_eq!(worker.next_action(), None);
    assert!(!worker.complete(WorkerReply::Done));
}

#[test]
fn a_liveness_check_is_due_first_after_misses_and_once_per_interval() {
    assert!(liveness_check_due(None, 0, 0));
    assert!(liveness_check_due(Some(5), 1, 5));
    assert!(!liveness_check_due(Some(5), 0, 5));
    assert!(!liveness_check_due(Some(5), 0, 500_000_004));
    assert!(liveness_check_due(Some(5), 0, 500_000_005));
    // A clock that went back.
    assert!(!liveness_check_due(Some(u64::MAX), 0, 0));
}

fn test_backend() -> IdnBackend {
    let server = ServerInfo::new([0u8; 16], "test".to_string(), (1, 0), 0);
    let service = ServiceInfo {
        service_id: 0,
        service_type: ServiceType::LaserProjector,
        name: "test".to_string(),
        flags: 0,
        relay_number: 0,
    };
    IdnBackend::new(server, service)
}

fn point(x: i16) -> LaserPoint {
    LaserPoint {
        xyrgbi: PointXyrgbi::new(x, 0, 1, 2, 3, 4),
        high_res: PointXyrgbHighRes {
            x,
            y: 0,
            r: 0x101,
            g: 0x202,
            b: 0x303,
        },
        extended: PointExtended {
            x,
            i: 0x404,
            ..PointExtended::default()
        },
    }
}

fn blanked() -> LaserPoint {
    LaserPoint {
        xyrgbi: PointXyrgbi::default(),
        high_res: PointXyrgbHighRes::default(),
        extended: PointExtended::default(),
    }
}

#[test]
fn build_chunk_clamps_pps_to_device_maximum() {
    let mut backend = test_backend();
    let pps_max = default_capabilities().pps_max;
    assert_eq!(pps_max, 100_000);

    for requested in [u32::MAX, pps_max + 1, 1_000_000] {
        let chunk = backend.build_chunk(requested, &[blanked()]);
        assert_eq!(
            chunk.pps, pps_max,
            "requested {requested} must clamp to pps_max"
        );
    }

    let in_range = backend.build_chunk(30_000, &[blanked()]);
    assert_eq!(in_range.pps, 30_000);
}

#[test]
fn build_chunk_clamps_below_device_minimum() {
    let mut backend = test_backend();
    let caps = default_capabilities();
    assert_eq!(caps.pps_min, 1);

    for requested in [0, u32::MAX] {
        let chunk = backend.build_chunk(requested, &[blanked()]);
        // Zero clamps up to pps_min; u32::MAX still clamps down to pps_max.
        let expected = requested.clamp(caps.pps_min.max(1), caps.pps_max);
        assert_eq!(
            chunk.pps,
            expected,
            "requested {requested} must clamp into [{}, {}]",
            caps.pps_min.max(1),
            caps.pps_max
        );
    }
}

#[test]
fn chunk_buffer_pool_recycles_capacity() {
    let mut pool = ChunkBufferPool::new();

    let mut buf = pool.take_xyrgbi();
    assert_eq!(buf.capacity(), 0, "empty pool hands out fresh buffers");
    buf.extend((0..179).map(|_| PointXyrgbi::new(0, 0, 0, 0, 0, 0)));

    // Simulate the worker returning a sent chunk's buffer.
    let mut chunk_points = ChunkPoints::Xyrgbi(buf);
    pool.recycle(&mut chunk_points);
    assert_eq!(chunk_points.len(), 0);

    let recycled = pool.take_xyrgbi();
    assert_eq!(recycled.len(), 0);
    assert_eq!(recycled.capacity(), 179, "capacity must survive recycling");
}

#[test]
fn the_pool_keeps_formats_apart_and_drops_what_is_too_much() {
    let mut pool = ChunkBufferPool::new();
    for n in 0..20 {
        let mut points = ChunkPoints::HighRes(Vec::with_capacity(100 + n));
        pool.recycle(&mut points);
    }
    assert_eq!(pool.take_xyrgbi().capacity(), 0);
    assert_eq!(pool.take_extended().capacity(), 0);
    for n in 0..16 {
        assert_eq!(pool.take_high_res().capacity(), 100 + n);
    }
    assert_eq!(pool.take_high_res().capacity(), 0);

    let mut points = ChunkPoints::Extended(Vec::with_capacity(7));
    pool.recycle(&mut points);
    assert_eq!(pool.take_extended().capacity(), 7);
}

#[test]
fn a_chunk_is_built_in_the_selected_format() {
    let mut backend = test_backend();
    assert_eq!(backend.point_format(), PointFormat::Xyrgbi);
    assert_eq!(backend.caps().max_points_per_chunk, 179);
    assert_eq!(backend.caps().output_model, OutputModel::UdpTimed);
    let points = [point(1), point(-2)];
    match backend.build_chunk(1_000, &points).points {
        ChunkPoints::Xyrgbi(v) => assert_eq!(v, vec![points[0].xyrgbi, points[1].xyrgbi]),
        other => panic!("unexpected {:?}", other),
    }

    backend.set_point_format(PointFormat::XyrgbHighRes);
    assert_eq!(backend.caps().max_points_per_chunk, 143);
    match backend.build_chunk(1_000, &points).points {
        ChunkPoints::HighRes(v) => assert_eq!(v, vec![points[0].high_res, points[1].high_res]),
        other => panic!("unexpected {:?}", other),
    }

    backend.set_point_format(PointFormat::Extended);
    assert_eq!(backend.point_format(), PointFormat::Extended);
    assert_eq!(backend.caps().max_points_per_chunk, 71);
    match backend.build_chunk(1_000, &points).points {
        ChunkPoints::Extended(v) => assert_eq!(v, vec![points[0].extended, points[1].extended]),
        other => panic!("unexpected {:?}", other),
    }
}

#[test]
fn a_backend_reuses_recycled_buffers() {
    let mut backend = test_backend();
    let mut points = ChunkPoints::Xyrgbi(Vec::with_capacity(500));
    backend.recycle(&mut points);
    match backend.build_chunk(1_000, &[point(1)]).points {
        ChunkPoints::Xyrgbi(v) => {
            assert_eq!(v.len(), 1);
            assert_eq!(v.capacity(), 500);
        }
        other => panic!("unexpected {:?}", other),
    }
}

#[test]
fn points_per_chunk_follow_the_sample_size() {
    assert_eq!(max_points_per_chunk_for(PointFormat::Xyrgbi), 179);
    assert_eq!(max_points_per_chunk_for(PointFormat::XyrgbHighRes), 143);
    assert_eq!(max_points_per_chunk_for(PointFormat::Extended), 71);
}

#[test]
fn a_blank_chunk_holds_ten_dark_points() {
    let chunk = blank_chunk(5, PointFormat::Extended);
    assert_eq!(chunk.pps, 5);
    match chunk.points {
        ChunkPoints::Extended(v) => assert_eq!(v, vec![PointExtended::default(); 10]),
        other => panic!("unexpected {:?}", other),
    }
    match blank_chunk(5, PointFormat::XyrgbHighRes).points {
        ChunkPoints::HighRes(v) => assert_eq!(v, vec![PointXyrgbHighRes::default(); 10]),
        other => panic!("unexpected {:?}", other),
    }
}

/// Connect a backend whose device answers the `answers`-th ping.
fn connect(backend: &mut IdnBackend, answers: Option<usize>) -> (Vec<ConnectAction>, Option<String>) {
    let mut attempt = backend.connect();
    let mut actions = Vec::new();
    let mut pings = 0;
    while let Some(action) = attempt.next_action() {
        actions.push(action);
        let reply = match action {
            ConnectAction::OpenStream(_, _) => ConnectReply::Opened,
            ConnectAction::Ping(_) => {
                pings += 1;
                ConnectReply::Answered(answers == Some(pings))
            }
            ConnectAction::ResetEstimator | ConnectAction::StartWorker(_, _) => ConnectReply::Done,
        };
        assert!(attempt.complete(reply));
    }
    let failure = match backend.connected(attempt) {
        Ok(()) => None,
        Err(e) => Some(e.message().to_string()),
    };
    (actions, failure)
}

#[test]
fn connecting_pings_until_the_device_answers() {
    let mut backend = test_backend();
    backend.set_point_format(PointFormat::Extended);
    let (actions, failure) = connect(&mut backend, Some(3));
    assert_eq!(failure, None);
    assert_eq!(
        actions,
        vec![
            ConnectAction::OpenStream(0, PointFormat::Extended),
            ConnectAction::Ping(300),
            ConnectAction::Ping(300),
            ConnectAction::Ping(300),
            ConnectAction::ResetEstimator,
            ConnectAction::StartWorker(8, PointFormat::Extended),
        ]
    );
    assert!(backend.is_connected(true));
    assert!(!backend.is_connected(false));

    // A backend with a worker is connected already.
    let (actions, failure) = connect(&mut backend, None);
    assert!(actions.is_empty());
    assert_eq!(failure, None);
}

#[test]
fn connecting_fails_without_an_answer() {
    let mut backend = test_backend();
    let (actions, failure) = connect(&mut backend, None);
    assert_eq!(actions.len(), 4);
    assert_eq!(
        failure.as_deref(),
        Some("IDN server did not respond to ping at connect")
    );
    assert!(!backend.is_connected(true));
}

#[test]
fn connecting_reports_why_the_stream_was_refused() {
    let mut backend = test_backend();
    let mut attempt = backend.connect();
    assert!(!attempt.complete(ConnectReply::Done));
    assert!(attempt.complete(ConnectReply::Refused("no route".to_string())));
    assert_eq!(attempt.stage(), ConnectStage::Failed);
    let err = backend.connected(attempt).unwrap_err();
    assert_eq!(err.message(), "no route");
    assert!(!backend.is_connected(true));
}

#[test]
fn stopping_and_disconnecting_concern_a_running_worker_only() {
    let mut backend = test_backend();
    assert_eq!(backend.stop(), vec![LinkAction::ResetEstimator]);
    assert_eq!(backend.disconnect(), vec![LinkAction::ResetEstimator]);
    connect(&mut backend, Some(1));
    assert_eq!(
        backend.stop(),
        vec![LinkAction::SendStop, LinkAction::ResetEstimator]
    );
    assert!(backend.is_connected(true));
    assert_eq!(
        backend.disconnect(),
        vec![
            LinkAction::SendShutdown,
            LinkAction::JoinWorker,
            LinkAction::ResetEstimator
        ]
    );
    assert!(!backend.is_connected(true));
}

#[test]
fn writing_needs_a_live_worker() {
    let mut backend = test_backend();
    let points = [point(1)];
    assert_eq!(
        backend.begin_write(true, 1_000, &points).unwrap_err().message(),
        "Not connected"
    );
    connect(&mut backend, Some(1));
    assert_eq!(
        backend.begin_write(false, 1_000, &points).unwrap_err().message(),
        "IDN sender thread disconnected"
    );
    match backend.begin_write(true, 200_000, &points).unwrap() {
        WorkerCommand::Chunk(chunk) => {
            assert_eq!(chunk.pps, 100_000);
            assert_eq!(chunk.points.len(), 1);
        }
        other => panic!("unexpected {:?}", other),
    }
}

#[test]
fn a_write_reports_what_became_of_its_command() {
    let (result, record) = finish_write(SendOutcome::Sent, 200_000, 3);
    assert_eq!(result.unwrap(), WriteOutcome::Written);
    assert_eq!(
        record,
        Some(SendRecord {
            points: 3,
            pps: 200_000
        })
    );
    let (result, record) = finish_write(SendOutcome::Full, 1_000, 3);
    assert_eq!(result.unwrap(), WriteOutcome::WouldBlock);
    assert_eq!(record, None);
    let (result, record) = finish_write(SendOutcome::Disconnected, 1_000, 3);
    assert_eq!(
        result.unwrap_err().message(),
        "IDN sender thread disconnected"
    );
    assert_eq!(record, None);
}

#[test]
fn a_live_device_is_probed_once_per_interval() {
    let mut stream = FakeStream::new();
    let mut worker = Worker::new(30_000, PointFormat::Xyrgbi);
    for _ in 0..21 {
        assert!(worker.complete(WorkerReply::Received(WorkerCommand::Chunk(test_chunk(2_000, 3)))));
    }
    // Each send comes a tenth of the interval after the one before.
    let mut probed = Vec::new();
    while let Some(action) = worker.next_action() {
        let reply = match action {
            WorkerAction::TryReceive => WorkerReply::Empty,
            WorkerAction::ReceiveTimeout => break,
            WorkerAction::ReadClock => {
                stream.clock_ns += ACK_CHECK_INTERVAL_NS / 10;
                WorkerReply::Clock(stream.clock_ns)
            }
            WorkerAction::Recycle => WorkerReply::Done,
            _ => {
                if let WorkerAction::WriteFrameWithAck(_) = action {
                    probed.push(stream.writes);
                }
                perform_on_stream(&worker, &mut stream).unwrap()
            }
        };
        assert!(worker.complete(reply));
    }
    assert_eq!(probed, vec![0, 10, 20]);
    assert_eq!(stream.write_sizes, vec![3; 21]);
    assert_eq!(stream.scan_speed, 2_000);
}

#[test]
fn a_format_selected_on_a_live_connection_waits_for_the_next_connect() {
    let mut backend = test_backend();
    connect(&mut backend, Some(1));
    backend.set_point_format(PointFormat::Extended);
    assert_eq!(backend.point_format(), PointFormat::Extended);
    assert_eq!(backend.caps().max_points_per_chunk, 179);
    assert!(matches!(
        backend.build_chunk(1_000, &[point(1)]).points,
        ChunkPoints::Xyrgbi(_)
    ));
    // A connect that finds the worker running changes nothing.
    connect(&mut backend, None);
    assert!(matches!(
        backend.build_chunk(1_000, &[point(1)]).points,
        ChunkPoints::Xyrgbi(_)
    ));

    backend.disconnect();
    assert_eq!(backend.caps().max_points_per_chunk, 71);
    let (actions, _) = connect(&mut backend, Some(1));
    assert_eq!(
        actions[0],
        ConnectAction::OpenStream(0, PointFormat::Extended)
    );
    assert!(matches!(
        backend.build_chunk(1_000, &[point(1)]).points,
        ChunkPoints::Extended(_)
    ));
}

#[test]
fn after_a_stop_only_the_blank_and_later_chunks_go_out() {
    let mut stream = FakeStream::new();
    let (tx, rx) = mpsc::sync_channel(8);
    let mut connected = true;
    let mut stage = 0;
    tx.send(WorkerCommand::Chunk(test_chunk(1_000, 1))).unwrap();
    worker_loop_with(
        &mut stream,
        &rx,
        &mut connected,
        PointFormat::Xyrgbi,
        &mut ChunkBufferPool::new(),
        &mut |_| {
            stage += 1;
            if stage == 1 {
                tx.send(WorkerCommand::Chunk(test_chunk(1_000, 2))).unwrap();
                tx.send(WorkerCommand::Stop).unwrap();
                tx.send(WorkerCommand::Chunk(test_chunk(1_000, 3))).unwrap();
            } else {
                tx.send(WorkerCommand::Shutdown).unwrap();
            }
        },
    );
    assert_eq!(stream.write_sizes, vec![1, 10, 3]);
}
