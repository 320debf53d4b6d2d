//! The stream that a worker sends on.
use vstd::prelude::*;

use super::chunk::{ChunkPoints, PointsView};
use super::worker::{Worker, WorkerAction, WorkerReply};
use crate::abstract_state::AbstractState;

verus! {

/// A call that changes a stream, with its arguments and its result.
pub enum StreamCall {
    SetScanSpeed(u32),
    SendKeepalive(bool),
    WriteFrame(PointsView, bool),
    WriteFrameWithAck(PointsView, u64, bool),
    Ping(u64, bool),
    Close,
}

/// What a worker needs of a stream. Timeouts are in milliseconds.
///
/// `does` and `reports_need` name what the methods may do; an implementation chooses them
/// as it likes.
pub trait WorkerStream {
    /// The state of the stream.
    open spec fn state(&self) -> AbstractState {
        arbitrary()
    }

    /// The rate of the stream, as it stands now.
    open spec fn speed(&self) -> u32 {
        arbitrary()
    }

    /// A call in this state may lead to `after`.
    open spec fn does(&self, call: StreamCall, after: AbstractState) -> bool {
        true
    }

    /// A `needs_keepalive` in this state may report `r`.
    open spec fn reports_need(&self, r: bool) -> bool {
        true
    }

    /// The rate of the stream.
    fn scan_speed(&self) -> (r: u32)
        ensures
            r == self.speed(),
    ;

    /// Set the rate.
    fn set_scan_speed(&mut self, pps: u32)
        ensures
            old(self).does(StreamCall::SetScanSpeed(pps), final(self).state()),
    ;

    /// Whether the connection would lapse without a keepalive.
    fn needs_keepalive(&self) -> (r: bool)
        ensures
            self.reports_need(r),
    ;

    /// Send a keepalive and report whether that succeeded.
    fn send_keepalive(&mut self) -> (sent: bool)
        ensures
            old(self).does(StreamCall::SendKeepalive(sent), final(self).state()),
    ;

    /// Send a frame and report whether that succeeded.
    fn write_frame(&mut self, points: &ChunkPoints) -> (sent: bool)
        ensures
            old(self).does(StreamCall::WriteFrame(points@, sent), final(self).state()),
    ;

    /// Send a frame that asks for an acknowledgment, and report whether it came in time.
    fn write_frame_with_ack(&mut self, points: &ChunkPoints, timeout_ms: u64) -> (answered: bool)
        ensures
            old(self).does(
                StreamCall::WriteFrameWithAck(points@, timeout_ms, answered),
                final(self).state(),
            ),
    ;

    /// Send a ping and report whether a response came in time.
    fn ping(&mut self, timeout_ms: u64) -> (answered: bool)
        ensures
            old(self).does(StreamCall::Ping(timeout_ms, answered), final(self).state()),
    ;

    /// Close the stream.
    fn close(&mut self)
        ensures
            old(self).does(StreamCall::Close, final(self).state()),
    ;
}

/// The call that an action makes to the stream, where `points` are being sent and `r` is
/// what came back.
pub open spec fn stream_call(action: WorkerAction, points: PointsView, r: bool) -> Option<
    StreamCall,
> {
    match action {
        WorkerAction::SetScanSpeed(pps) => Some(StreamCall::SetScanSpeed(pps)),
        WorkerAction::WriteFrame => Some(StreamCall::WriteFrame(points, r)),
        WorkerAction::WriteFrameWithAck(timeout_ms) => Some(
            StreamCall::WriteFrameWithAck(points, timeout_ms, r),
        ),
        WorkerAction::SendKeepalive => Some(StreamCall::SendKeepalive(r)),
        WorkerAction::Ping(timeout_ms) => Some(StreamCall::Ping(timeout_ms, r)),
        WorkerAction::CloseStream => Some(StreamCall::Close),
        _ => None,
    }
}

/// Whether the reply to an action says what came back.
pub open spec fn has_outcome(action: WorkerAction) -> bool {
    match action {
        WorkerAction::WriteFrame
        | WorkerAction::WriteFrameWithAck(_)
        | WorkerAction::SendKeepalive
        | WorkerAction::Ping(_)
        | WorkerAction::NeedsKeepalive => true,
        _ => false,
    }
}

/// Perform the next action of a worker if it concerns the stream, and reply to it. All
/// others are left to the caller.
pub fn perform_on_stream<S: WorkerStream>(worker: &Worker, stream: &mut S) -> (reply: Option<
    WorkerReply,
>)
    requires
        worker@.wf(),
    ensures
        match worker@.action() {
            Some(WorkerAction::NeedsKeepalive) => *final(stream) == *old(stream) && reply is Some
                && reply->Some_0 is Outcome && old(stream).reports_need(reply->Some_0->Outcome_0),
            Some(action) => match stream_call(
                action,
                worker@.current->Some_0.points,
                reply->Some_0->Outcome_0,
            ) {
                Some(call) => old(stream).does(call, final(stream).state()) && reply is Some && (
                if has_outcome(action) {
                    reply->Some_0 is Outcome
                } else {
                    reply->Some_0 is Done
                }),
                None => *final(stream) == *old(stream) && reply is None,
            },
            None => *final(stream) == *old(stream) && reply is None,
        },
        reply is Some ==> worker@.phase.expects(reply->Some_0),
{
    let action = match worker.next_action() {
        Some(action) => action,
        None => {
            return None;
        },
    };
    match action {
        WorkerAction::SetScanSpeed(pps) => {
            stream.set_scan_speed(pps);
            Some(WorkerReply::Done)
        },
        WorkerAction::WriteFrame => match worker.current_points() {
            Some(points) => {
                let sent: bool = stream.write_frame(points);
                Some(WorkerReply::Outcome(sent))
            },
            None => None,
        },
        WorkerAction::WriteFrameWithAck(timeout_ms) => match worker.current_points() {
            Some(points) => {
                let answered: bool = stream.write_frame_with_ack(points, timeout_ms);
                Some(WorkerReply::Outcome(answered))
            },
            None => None,
        },
        WorkerAction::NeedsKeepalive => {
            let needed: bool = stream.needs_keepalive();
            Some(WorkerReply::Outcome(needed))
        },
        WorkerAction::SendKeepalive => {
            let sent: bool = stream.send_keepalive();
            Some(WorkerReply::Outcome(sent))
        },
        WorkerAction::Ping(timeout_ms) => {
            let answered: bool = stream.ping(timeout_ms);
            Some(WorkerReply::Outcome(answered))
        },
        WorkerAction::CloseStream => {
            stream.close();
            Some(WorkerReply::Done)
        },
        _ => None,
    }
}

} // verus!
