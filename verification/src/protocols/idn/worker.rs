//! The worker that sends queued chunks and watches that the device is alive.
//!
//! A [`Worker`] names the next action; the caller performs it on the command channel, the
//! clock or the stream, and hands back the reply.
use std::collections::VecDeque;

use vstd::prelude::*;

use super::chunk::{
    handle_worker_command, ChunkPoints, ChunkView, PointFormat, QueuedChunk,
    WorkerCommand,
};

verus! {

/// How often, in nanoseconds, a send is upgraded to an acknowledged one, or a ping is sent
/// while idle.
pub const ACK_CHECK_INTERVAL_NS: u64 = 500_000_000;

/// How long, in milliseconds, to wait for an acknowledgment or a ping response.
pub const ACK_TIMEOUT_MS: u64 = 100;

/// Misses in a row after which the device counts as dead.
pub const MAX_CONSECUTIVE_ACK_MISSES: u32 = 4;

/// Whether a probe is due: after a miss at every opportunity, so that a dead device is
/// noticed quickly; otherwise at most once per interval. A clock that went back has not
/// moved on.
pub open spec fn check_due(last_ack_check: Option<u64>, misses: u32, now_ns: u64) -> bool {
    misses > 0 || match last_ack_check {
        None => true,
        Some(t) => now_ns - t >= ACK_CHECK_INTERVAL_NS,
    }
}

/// Whether a liveness check is due at `now_ns`.
pub fn liveness_check_due(last_ack_check: Option<u64>, misses: u32, now_ns: u64) -> (r: bool)
    ensures
        r == check_due(last_ack_check, misses, now_ns),
{
    misses > 0 || match last_ack_check {
        None => true,
        Some(t) => now_ns >= t && now_ns - t >= ACK_CHECK_INTERVAL_NS,
    }
}

/// Where a worker stands.
#[derive(Debug, Clone, Copy, PartialEq, Eq, Structural)]
pub enum WorkerPhase {
    /// Takes the commands that have come in.
    Draining,
    /// Is to set the rate for the current chunk.
    SettingSpeed,
    /// Is to learn whether the current chunk is to probe the device.
    TimingSend,
    /// Is to send the current chunk.
    Sending,
    /// Is to send the current chunk and wait for the acknowledgment.
    Acknowledging,
    /// Is to give the buffer of the current chunk back.
    Recycling,
    /// Waits for a command, for as long as the stream needs no keepalive.
    Waiting,
    /// Is to learn whether the stream needs a keepalive.
    AskingKeepalive,
    /// Is to send a keepalive.
    KeepingAlive,
    /// Is to learn whether a ping is due.
    TimingPing,
    /// Is to ping the device.
    Pinging,
    /// Is to mark the backend disconnected.
    Marking,
    /// Is to close the stream.
    Closing,
    /// Has ended.
    Over,
}

/// What the caller of a [`Worker`] performs next.
#[derive(Debug, Clone, Copy, PartialEq, Eq, Structural)]
pub enum WorkerAction {
    /// Take a command from the channel without waiting.
    TryReceive,
    /// Take a command from the channel, waiting at most for the keepalive interval.
    ReceiveTimeout,
    /// Set the rate of the stream.
    SetScanSpeed(u32),
    /// Read the clock.
    ReadClock,
    /// Send the current chunk.
    WriteFrame,
    /// Send the current chunk and wait that many milliseconds for the acknowledgment.
    WriteFrameWithAck(u64),
    /// Give the buffer of the current chunk back to the pool.
    Recycle,
    /// Ask whether the stream needs a keepalive.
    NeedsKeepalive,
    /// Send a keepalive.
    SendKeepalive,
    /// Ping the device and wait that many milliseconds for the response.
    Ping(u64),
    /// Mark the backend disconnected.
    MarkDisconnected,
    /// Close the stream.
    CloseStream,
}

/// What came of an action.
#[derive(Debug)]
pub enum WorkerReply {
    /// A command came.
    Received(WorkerCommand),
    /// No command is there yet, or none came in time.
    Empty,
    /// The other end of the channel is gone.
    Hangup,
    /// The clock reads this many nanoseconds.
    Clock(u64),
    /// The answer to a question, or whether a send or a probe succeeded.
    Outcome(bool),
    /// The action was performed.
    Done,
}

impl WorkerPhase {
    /// The action of a phase, where the rate of the current chunk is `pps`.
    pub open spec fn action(self, pps: u32) -> Option<WorkerAction> {
        match self {
            WorkerPhase::Draining => Some(WorkerAction::TryReceive),
            WorkerPhase::SettingSpeed => Some(WorkerAction::SetScanSpeed(pps)),
            WorkerPhase::TimingSend => Some(WorkerAction::ReadClock),
            WorkerPhase::Sending => Some(WorkerAction::WriteFrame),
            WorkerPhase::Acknowledging => Some(WorkerAction::WriteFrameWithAck(ACK_TIMEOUT_MS)),
            WorkerPhase::Recycling => Some(WorkerAction::Recycle),
            WorkerPhase::Waiting => Some(WorkerAction::ReceiveTimeout),
            WorkerPhase::AskingKeepalive => Some(WorkerAction::NeedsKeepalive),
            WorkerPhase::KeepingAlive => Some(WorkerAction::SendKeepalive),
            WorkerPhase::TimingPing => Some(WorkerAction::ReadClock),
            WorkerPhase::Pinging => Some(WorkerAction::Ping(ACK_TIMEOUT_MS)),
            WorkerPhase::Marking => Some(WorkerAction::MarkDisconnected),
            WorkerPhase::Closing => Some(WorkerAction::CloseStream),
            WorkerPhase::Over => None,
        }
    }

    /// Whether `reply` answers the action of this phase.
    pub open spec fn expects(self, reply: WorkerReply) -> bool {
        match self {
            WorkerPhase::Draining | WorkerPhase::Waiting => reply is Received || reply is Empty
                || reply is Hangup,
            WorkerPhase::TimingSend | WorkerPhase::TimingPing => reply is Clock,
            WorkerPhase::Sending
            | WorkerPhase::Acknowledging
            | WorkerPhase::AskingKeepalive
            | WorkerPhase::KeepingAlive
            | WorkerPhase::Pinging => reply is Outcome,
            WorkerPhase::SettingSpeed
            | WorkerPhase::Recycling
            | WorkerPhase::Marking
            | WorkerPhase::Closing => reply is Done,
            WorkerPhase::Over => false,
        }
    }

    /// Whether a chunk is being sent.
    pub open spec fn sends(self) -> bool {
        self == WorkerPhase::SettingSpeed || self == WorkerPhase::TimingSend || self
            == WorkerPhase::Sending || self == WorkerPhase::Acknowledging || self
            == WorkerPhase::Recycling
    }

    /// Whether the worker has nothing to send and waits for commands.
    pub open spec fn idles(self) -> bool {
        self == WorkerPhase::Waiting || self == WorkerPhase::AskingKeepalive || self
            == WorkerPhase::KeepingAlive || self == WorkerPhase::TimingPing || self
            == WorkerPhase::Pinging
    }

    /// Whether the worker has given up or was told to end.
    pub open spec fn ends(self) -> bool {
        self == WorkerPhase::Marking || self == WorkerPhase::Closing || self == WorkerPhase::Over
    }
}

/// Mathematical view of a [`Worker`].
#[verifier::ext_equal]
pub struct WorkerView {
    pub phase: WorkerPhase,
    /// The chunks that wait, the next one first.
    pub waiting: Seq<ChunkView>,
    /// The chunk that is being sent.
    pub current: Option<ChunkView>,
    /// The rate of the last chunk, or of the stream before the first.
    pub last_pps: u32,
    /// When the device was last probed.
    pub last_ack_check: Option<u64>,
    /// Probes without an answer since the last one with an answer.
    pub misses: u32,
    pub format: PointFormat,
}

impl WorkerView {
    /// A worker that starts.
    pub open spec fn start(scan_speed: u32, format: PointFormat) -> Self {
        WorkerView {
            phase: WorkerPhase::Draining,
            waiting: Seq::empty(),
            current: None,
            last_pps: scan_speed,
            last_ack_check: None,
            misses: 0,
            format,
        }
    }

    /// A chunk is current just while it is being sent; the worker idles only when nothing
    /// waits; while it runs, it has not missed too often.
    pub open spec fn wf(self) -> bool {
        &&& self.phase.sends() <==> self.current is Some
        &&& self.current matches Some(chunk) ==> chunk.pps == self.last_pps
        &&& self.phase.idles() ==> self.waiting.len() == 0
        &&& self.misses <= MAX_CONSECUTIVE_ACK_MISSES
        &&& !self.phase.ends() ==> self.misses < MAX_CONSECUTIVE_ACK_MISSES
    }

    /// The action to perform next.
    pub open spec fn action(self) -> Option<WorkerAction> {
        self.phase.action(self.last_pps)
    }

    /// The state in another phase.
    pub open spec fn at(self, phase: WorkerPhase) -> Self {
        WorkerView { phase, ..self }
    }

    /// The state in which the worker ends; a chunk that was not sent is dropped.
    pub open spec fn ending(self) -> Self {
        WorkerView { phase: WorkerPhase::Marking, current: None, ..self }
    }

    /// The state after a command.
    pub open spec fn commanded(self, command: WorkerCommand) -> Self {
        match super::chunk::after_command(self.waiting, command, self.last_pps, self.format) {
            Some(waiting) => WorkerView { phase: WorkerPhase::Draining, waiting, ..self },
            None => self.ending(),
        }
    }

    /// The state after the channel was found empty: the next chunk, or waiting for one.
    pub open spec fn drained(self) -> Self {
        if self.waiting.len() > 0 {
            WorkerView {
                phase: WorkerPhase::SettingSpeed,
                waiting: self.waiting.drop_first(),
                current: Some(self.waiting[0]),
                last_pps: self.waiting[0].pps,
                ..self
            }
        } else {
            self.at(WorkerPhase::Waiting)
        }
    }

    /// The state after the clock was read: a probe if one is due.
    pub open spec fn timed(self, now_ns: u64, probe: WorkerPhase, otherwise: WorkerPhase) -> Self {
        if check_due(self.last_ack_check, self.misses, now_ns) {
            WorkerView { phase: probe, last_ack_check: Some(now_ns), ..self }
        } else {
            self.at(otherwise)
        }
    }

    /// The state after a probe: too many misses in a row end the worker.
    pub open spec fn probed(self, answered: bool, next: WorkerPhase) -> Self {
        if answered {
            WorkerView { phase: next, misses: 0, ..self }
        } else if self.misses + 1 >= MAX_CONSECUTIVE_ACK_MISSES {
            WorkerView { misses: (self.misses + 1) as u32, ..self.ending() }
        } else {
            WorkerView { phase: next, misses: (self.misses + 1) as u32, ..self }
        }
    }

    /// The state after `reply`; one that does not answer the action changes nothing.
    pub open spec fn next(self, reply: WorkerReply) -> Self {
        if !self.phase.expects(reply) {
            self
        } else {
            match (self.phase, reply) {
                (
                    WorkerPhase::Draining | WorkerPhase::Waiting,
                    WorkerReply::Received(command),
                ) => self.commanded(command),
                (WorkerPhase::Draining | WorkerPhase::Waiting, WorkerReply::Hangup) => self.ending(),
                (WorkerPhase::Draining, _) => self.drained(),
                (WorkerPhase::Waiting, _) => self.at(WorkerPhase::AskingKeepalive),
                (WorkerPhase::SettingSpeed, _) => self.at(WorkerPhase::TimingSend),
                (WorkerPhase::TimingSend, WorkerReply::Clock(now_ns)) => self.timed(
                    now_ns,
                    WorkerPhase::Acknowledging,
                    WorkerPhase::Sending,
                ),
                (WorkerPhase::Sending, WorkerReply::Outcome(sent)) => if sent {
                    self.at(WorkerPhase::Recycling)
                } else {
                    self.ending()
                },
                (WorkerPhase::Acknowledging, WorkerReply::Outcome(answered)) => self.probed(
                    answered,
                    WorkerPhase::Recycling,
                ),
                (WorkerPhase::Recycling, _) => WorkerView {
                    phase: WorkerPhase::Draining,
                    current: None,
                    ..self
                },
                (WorkerPhase::AskingKeepalive, WorkerReply::Outcome(needed)) => if needed {
                    self.at(WorkerPhase::KeepingAlive)
                } else {
                    self.at(WorkerPhase::TimingPing)
                },
                (WorkerPhase::KeepingAlive, WorkerReply::Outcome(sent)) => if sent {
                    self.at(WorkerPhase::TimingPing)
                } else {
                    self.ending()
                },
                (WorkerPhase::TimingPing, WorkerReply::Clock(now_ns)) => self.timed(
                    now_ns,
                    WorkerPhase::Pinging,
                    WorkerPhase::Draining,
                ),
                (WorkerPhase::Pinging, WorkerReply::Outcome(answered)) => self.probed(
                    answered,
                    WorkerPhase::Draining,
                ),
                (WorkerPhase::Marking, _) => self.at(WorkerPhase::Closing),
                (WorkerPhase::Closing, _) => self.at(WorkerPhase::Over),
                _ => self,
            }
        }
    }

    /// The state after a series of replies.
    pub open spec fn run(self, replies: Seq<WorkerReply>) -> Self
        decreases replies.len(),
    {
        if replies.len() == 0 {
            self
        } else {
            self.run(replies.drop_last()).next(replies.last())
        }
    }
}

/// The decisions of the worker.
pub struct Worker {
    phase: WorkerPhase,
    queue: VecDeque<QueuedChunk>,
    current: Option<QueuedChunk>,
    last_pps: u32,
    last_ack_check: Option<u64>,
    misses: u32,
    format: PointFormat,
}

impl View for Worker {
    type V = WorkerView;

    closed spec fn view(&self) -> WorkerView {
        WorkerView {
            phase: self.phase,
            waiting: super::chunk::chunk_views(self.queue@),
            current: match self.current {
                Some(chunk) => Some(chunk@),
                None => None,
            },
            last_pps: self.last_pps,
            last_ack_check: self.last_ack_check,
            misses: self.misses,
            format: self.format,
        }
    }
}

impl Worker {
    /// A worker for a stream whose rate is `scan_speed`.
    pub fn new(scan_speed: u32, format: PointFormat) -> (r: Self)
        ensures
            r@ == WorkerView::start(scan_speed, format),
            r@.wf(),
    {
        let r = Worker {
            phase: WorkerPhase::Draining,
            queue: VecDeque::new(),
            current: None,
            last_pps: scan_speed,
            last_ack_check: None,
            misses: 0,
            format,
        };
        assert(r@ =~= WorkerView::start(scan_speed, format));
        r
    }

    /// The action to perform next, or `None` once the worker has ended.
    pub fn next_action(&self) -> (r: Option<WorkerAction>)
        ensures
            r == self@.action(),
    {
        match self.phase {
            WorkerPhase::Draining => Some(WorkerAction::TryReceive),
            WorkerPhase::SettingSpeed => Some(WorkerAction::SetScanSpeed(self.last_pps)),
            WorkerPhase::TimingSend => Some(WorkerAction::ReadClock),
            WorkerPhase::Sending => Some(WorkerAction::WriteFrame),
            WorkerPhase::Acknowledging => Some(WorkerAction::WriteFrameWithAck(ACK_TIMEOUT_MS)),
            WorkerPhase::Recycling => Some(WorkerAction::Recycle),
            WorkerPhase::Waiting => Some(WorkerAction::ReceiveTimeout),
            WorkerPhase::AskingKeepalive => Some(WorkerAction::NeedsKeepalive),
            WorkerPhase::KeepingAlive => Some(WorkerAction::SendKeepalive),
            WorkerPhase::TimingPing => Some(WorkerAction::ReadClock),
            WorkerPhase::Pinging => Some(WorkerAction::Ping(ACK_TIMEOUT_MS)),
            WorkerPhase::Marking => Some(WorkerAction::MarkDisconnected),
            WorkerPhase::Closing => Some(WorkerAction::CloseStream),
            WorkerPhase::Over => None,
        }
    }

    /// The points of the chunk that is being sent.
    pub fn current_points(&self) -> (r: Option<&ChunkPoints>)
        ensures
            match (r, self@.current) {
                (Some(points), Some(chunk)) => points@ == chunk.points,
                (None, None) => true,
                _ => false,
            },
    {
        match &self.current {
            Some(chunk) => Some(&chunk.points),
            None => None,
        }
    }

    /// The number of chunks that wait.
    pub fn queued(&self) -> (r: usize)
        ensures
            r == self@.waiting.len(),
    {
        self.queue.len()
    }

    /// Probes without an answer since the last one with an answer.
    pub fn misses(&self) -> (r: u32)
        ensures
            r == self@.misses,
    {
        self.misses
    }

    fn finish(&mut self)
        ensures
            final(self)@ == old(self)@.ending(),
    {
        self.phase = WorkerPhase::Marking;
        self.current = None;
        assert(self@ =~= old(self)@.ending());
    }

    fn go(&mut self, phase: WorkerPhase)
        ensures
            final(self)@ == old(self)@.at(phase),
    {
        self.phase = phase;
        assert(self@ =~= old(self)@.at(phase));
    }

    fn take_command(&mut self, command: WorkerCommand)
        ensures
            final(self)@ == old(self)@.commanded(command),
    {
        let goes_on = handle_worker_command(command, &mut self.queue, self.last_pps, self.format);
        if goes_on {
            self.phase = WorkerPhase::Draining;
            assert(self@ =~= old(self)@.commanded(command));
        } else {
            self.finish();
            assert(self@ =~= old(self)@.commanded(command));
        }
    }

    fn take_chunk(&mut self)
        ensures
            final(self)@ == old(self)@.drained(),
    {
        match self.queue.pop_front() {
            Some(chunk) => {
                self.last_pps = chunk.pps;
                self.current = Some(chunk);
                self.phase = WorkerPhase::SettingSpeed;
            },
            None => {
                self.phase = WorkerPhase::Waiting;
            },
        }
        assert(self@ =~= old(self)@.drained());
    }

    fn consider_probe(&mut self, now_ns: u64, probe: WorkerPhase, otherwise: WorkerPhase)
        ensures
            final(self)@ == old(self)@.timed(now_ns, probe, otherwise),
    {
        if liveness_check_due(self.last_ack_check, self.misses, now_ns) {
            self.last_ack_check = Some(now_ns);
            self.phase = probe;
        } else {
            self.phase = otherwise;
        }
        assert(self@ =~= old(self)@.timed(now_ns, probe, otherwise));
    }

    fn count_probe(&mut self, answered: bool, then_phase: WorkerPhase)
        requires
            old(self)@.misses < MAX_CONSECUTIVE_ACK_MISSES,
        ensures
            final(self)@ == old(self)@.probed(answered, then_phase),
    {
        if answered {
            self.misses = 0;
            self.phase = then_phase;
        } else {
            self.misses = self.misses + 1;
            if self.misses >= MAX_CONSECUTIVE_ACK_MISSES {
                self.finish();
            } else {
                self.phase = then_phase;
            }
        }
        assert(self@ =~= old(self)@.probed(answered, then_phase));
    }

    /// Hand back the reply to the next action. A reply that does not answer it is refused
    /// and changes nothing.
    pub fn complete(&mut self, reply: WorkerReply) -> (accepted: bool)
        requires
            old(self)@.wf(),
        ensures
            final(self)@ == old(self)@.next(reply),
            final(self)@.wf(),
            accepted == old(self)@.phase.expects(reply),
    {
        match (self.phase, reply) {
            (WorkerPhase::Draining, WorkerReply::Received(command))
            | (WorkerPhase::Waiting, WorkerReply::Received(command)) => self.take_command(command),
            (WorkerPhase::Draining, WorkerReply::Hangup)
            | (WorkerPhase::Waiting, WorkerReply::Hangup) => self.finish(),
            (WorkerPhase::Draining, WorkerReply::Empty) => self.take_chunk(),
            (WorkerPhase::Waiting, WorkerReply::Empty) => self.go(WorkerPhase::AskingKeepalive),
            (WorkerPhase::SettingSpeed, WorkerReply::Done) => self.go(WorkerPhase::TimingSend),
            (WorkerPhase::TimingSend, WorkerReply::Clock(now_ns)) => self.consider_probe(
                now_ns,
                WorkerPhase::Acknowledging,
                WorkerPhase::Sending,
            ),
            (WorkerPhase::Sending, WorkerReply::Outcome(sent)) => {
                if sent {
                    self.go(WorkerPhase::Recycling);
                } else {
                    self.finish();
                }
            },
            (WorkerPhase::Acknowledging, WorkerReply::Outcome(answered)) => self.count_probe(
                answered,
                WorkerPhase::Recycling,
            ),
            (WorkerPhase::Recycling, WorkerReply::Done) => {
                let _ = self.recycle();
            },
            (WorkerPhase::AskingKeepalive, WorkerReply::Outcome(needed)) => {
                if needed {
                    self.go(WorkerPhase::KeepingAlive);
                } else {
                    self.go(WorkerPhase::TimingPing);
                }
            },
            (WorkerPhase::KeepingAlive, WorkerReply::Outcome(sent)) => {
                if sent {
                    self.go(WorkerPhase::TimingPing);
                } else {
                    self.finish();
                }
            },
            (WorkerPhase::TimingPing, WorkerReply::Clock(now_ns)) => self.consider_probe(
                now_ns,
                WorkerPhase::Pinging,
                WorkerPhase::Draining,
            ),
            (WorkerPhase::Pinging, WorkerReply::Outcome(answered)) => self.count_probe(
                answered,
                WorkerPhase::Draining,
            ),
            (WorkerPhase::Marking, WorkerReply::Done) => self.go(WorkerPhase::Closing),
            (WorkerPhase::Closing, WorkerReply::Done) => self.go(WorkerPhase::Over),
            _ => {
                return false;
            },
        }
        true
    }

    /// Hand over the points of the chunk that was sent, in answer to
    /// [`WorkerAction::Recycle`].
    pub fn recycle(&mut self) -> (r: Option<ChunkPoints>)
        requires
            old(self)@.wf(),
        ensures
            final(self)@.wf(),
            old(self)@.phase == WorkerPhase::Recycling ==> r is Some && r->Some_0@
                == old(self)@.current->Some_0.points && final(self)@ == old(self)@.next(
                WorkerReply::Done,
            ),
            old(self)@.phase != WorkerPhase::Recycling ==> r is None && final(self)@ == old(self)@,
    {
        if self.phase != WorkerPhase::Recycling {
            return None;
        }
        self.phase = WorkerPhase::Draining;
        let sent = self.current.take();
        assert(self@ =~= old(self)@.next(WorkerReply::Done));
        match sent {
            Some(chunk) => Some(chunk.points),
            None => None,
        }
    }
}

} // verus!
