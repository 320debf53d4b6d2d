//! What the actions of a worker do to its stream, told call by call.
use vstd::prelude::*;

use super::stream::{perform_on_stream, StreamCall, WorkerStream};
use super::worker::{Worker, WorkerAction, WorkerReply};

verus! {

/// Law: each action of a worker that concerns its stream is one call on it, with the rate, the
/// points or the timeout that the worker names, and the reply tells what the call said. All
/// other actions leave the stream alone and get no reply.
pub proof fn actions_reach_the_stream<S: WorkerStream>(
    worker: Worker,
    stream: &mut S,
    reply: Option<WorkerReply>,
)
    requires
        worker@.wf(),
        call_ensures(perform_on_stream::<S>, (&worker, stream), reply),
    ensures
        match worker@.action() {
            Some(WorkerAction::SetScanSpeed(pps)) => reply == Some(WorkerReply::Done) && old(stream).does(StreamCall::SetScanSpeed(pps), final(stream).state()),
            Some(WorkerAction::WriteFrame) => worker@.current is Some && (reply == Some(
                WorkerReply::Outcome(true),
            ) || reply == Some(WorkerReply::Outcome(false))) && old(stream).does(
                StreamCall::WriteFrame(
                    worker@.current->Some_0.points,
                    reply == Some(WorkerReply::Outcome(true)),
                ),
                final(stream).state(),
            ),
            Some(WorkerAction::WriteFrameWithAck(ms)) => worker@.current is Some && (reply == Some(
                WorkerReply::Outcome(true),
            ) || reply == Some(WorkerReply::Outcome(false))) && old(stream).does(
                StreamCall::WriteFrameWithAck(
                    worker@.current->Some_0.points,
                    ms,
                    reply == Some(WorkerReply::Outcome(true)),
                ),
                final(stream).state(),
            ),
            Some(WorkerAction::SendKeepalive) => (reply == Some(WorkerReply::Outcome(true))
                || reply == Some(WorkerReply::Outcome(false))) && old(stream).does(
                StreamCall::SendKeepalive(reply == Some(WorkerReply::Outcome(true))),
                final(stream).state(),
            ),
            Some(WorkerAction::Ping(ms)) => (reply == Some(WorkerReply::Outcome(true)) || reply
                == Some(WorkerReply::Outcome(false))) && old(stream).does(
                StreamCall::Ping(ms, reply == Some(WorkerReply::Outcome(true))),
                final(stream).state(),
            ),
            Some(WorkerAction::NeedsKeepalive) => (reply == Some(WorkerReply::Outcome(true))
                || reply == Some(WorkerReply::Outcome(false))) && old(stream).reports_need(
                reply == Some(WorkerReply::Outcome(true)),
            ) && *final(stream) == *old(stream),
            Some(WorkerAction::CloseStream) => reply == Some(WorkerReply::Done) && old(stream).does(
                StreamCall::Close,
                final(stream).state(),
            ),
            _ => reply is None && *final(stream) == *old(stream),
        },
{
}

} // verus!
