//! The scheduler loop that frame sessions and streams share.
//!
//! Keeps the cross-mode rules in one place: stop requests, shutter transitions, reconnect,
//! and the end of the content source. [`Driver`] decides; its caller performs each
//! [`DriverAction`] on the backend, the content source, the output adapter and the session
//! control, and hands back a [`DriverReply`].
use std::collections::VecDeque;

use vstd::prelude::*;

use super::transition::{
    shutter_after, ShutterState, ShutterTransition, TransitionAction, TransitionOutcome,
    TransitionReply, TransitionView,
};
use crate::error::Error;
use crate::session::{DesiredState, SessionExit};

verus! {

/// What one step of the output adapter led to.
#[derive(Clone, Copy, Debug, PartialEq, Eq, Structural)]
pub enum StepOutcome {
    Continue,
    /// The desired state changed while the adapter waited.
    StateChanged,
    /// A stop was requested.
    Stopped,
    /// The device is gone.
    Disconnected,
}

/// What the caller of a [`Driver`] performs next.
#[derive(Clone, Copy, Debug, PartialEq, Eq)]
pub enum DriverAction {
    /// Select the output adapter for the backend: a frame-swap one, or not.
    SelectAdapter { frame_swap: bool },
    /// Record loop activity in the metrics.
    MarkLoopActivity,
    /// Read whether a stop was requested.
    ReadStopRequested,
    /// Read the rate from the session control.
    ReadPps,
    /// Hand the current color delay to the content source.
    ForwardColorDelay,
    /// Take the frame from the pending slot, if there is one, and submit it.
    SubmitPendingFrame,
    /// Read whether the backend is connected.
    ReadConnected,
    /// Drain the control messages and report whether one asked to stop.
    DrainControl,
    /// Perform an action of the shutter transition pass.
    Transition(TransitionAction),
    /// Read whether output is desired.
    ReadArmed,
    /// Let the output adapter take one step.
    Step { pps: u32, armed: bool },
    /// Read whether the content source has ended.
    ReadEnded,
    /// Take the error with which the content source stopped, if there is one.
    TakeStopError,
    /// Command the shutter of the backend.
    SetShutter(bool),
    /// Let the output adapter drain and blank the device.
    DrainAndBlank { pps: u32, armed: bool },
    /// Record in the metrics whether the device is connected.
    SetConnectedMetric(bool),
    /// Look for the device again, with retries. The backoff depends on when the last
    /// reconnect completed.
    FindBackend { last_reconnect_ns: Option<u64> },
    /// Replace the rate range of the session control by the one of the new backend.
    UpdatePpsBounds { min: u32, max: u32 },
    /// Close the shutter of the new backend and disconnect it.
    DiscardCandidate,
    /// Put the new backend in the place of the lost one.
    InstallCandidate,
    /// Read the clock.
    ReadClock,
    /// Tell the content source about the new backend.
    SourceReconnected,
    /// Hand the frame capacity of the new backend to the content source.
    SetFrameCapacity,
    /// Tell the output adapter about the new backend.
    AdapterReconnected,
    /// Call the user's reconnect callback.
    NotifyReconnected,
}

/// What came of an action.
#[derive(Debug)]
pub enum DriverReply {
    /// The action was performed.
    Done,
    /// The answer to a question, or whether a request was accepted.
    Flag(bool),
    /// The rate that was read.
    Rate(u32),
    /// The reply to an action of the transition pass.
    Transition(TransitionReply),
    /// The outcome of an adapter step, and the shutter state that it left.
    Stepped(StepOutcome, ShutterState),
    /// Whether the backend accepted the command.
    Command(bool),
    /// The error that came up, if one did.
    Failure(Option<Error>),
    /// A new backend was found; its rate range.
    Found { min: u32, max: u32 },
    /// No new backend was found.
    NotFound(SessionExit),
    /// The time, in nanoseconds.
    Now(u64),
}

/// How a run ends.
#[derive(Debug)]
pub enum DriverEnd {
    /// The session ended.
    Session(SessionExit),
    /// The session failed.
    Failed(Error),
}

impl DriverAction {
    /// Whether `reply` is an answer to this action.
    pub open spec fn answered_by(self, reply: DriverReply) -> bool {
        match self {
            DriverAction::SelectAdapter { .. } => reply is Failure,
            DriverAction::ReadStopRequested => reply is Flag,
            DriverAction::ReadPps => reply is Rate,
            DriverAction::ReadConnected => reply is Flag,
            DriverAction::DrainControl => reply is Flag,
            DriverAction::Transition(action) => reply is Transition && action.answered_by(
                reply->Transition_0,
            ),
            DriverAction::ReadArmed => reply is Flag,
            DriverAction::Step { .. } => reply is Stepped,
            DriverAction::ReadEnded => reply is Flag,
            DriverAction::TakeStopError => reply is Failure,
            DriverAction::SetShutter(_) => reply is Command,
            DriverAction::FindBackend { .. } => reply is Found || reply is NotFound,
            DriverAction::UpdatePpsBounds { .. } => reply is Flag,
            DriverAction::ReadClock => reply is Now,
            _ => reply is Done,
        }
    }
}

/// What a driver is started with.
#[derive(Clone, Copy, Debug)]
pub struct DriverConfig {
    /// The content source makes frames for a frame-swap device.
    pub frame_source: bool,
    /// Reconnection is enabled.
    pub reconnects: bool,
    /// There is a slot in which frames may be pending.
    pub has_frame_slot: bool,
}

/// The state of a driver.
#[verifier::ext_equal]
pub struct DriverView {
    pub config: DriverConfig,
    /// The actions that are still due, the next one first; empty during a pass.
    pub pending: Seq<DriverAction>,
    /// The transition pass that is under way.
    pub pass: Option<TransitionView>,
    /// What is known of the shutter.
    pub shutter: ShutterState,
    /// The desired state that was last brought in line.
    pub handled: DesiredState,
    /// The rate that was read in this iteration.
    pub pps: u32,
    /// Whether output was desired when last read.
    pub armed: bool,
    /// When the last reconnect completed.
    pub last_reconnect_ns: Option<u64>,
    /// How the run ends, once that is decided.
    pub end: Option<DriverEnd>,
}

impl DriverView {
    /// The start of a run. The shutter is closed before the loop is entered.
    pub open spec fn start(config: DriverConfig) -> Self {
        DriverView {
            config,
            pending: seq![DriverAction::SelectAdapter { frame_swap: config.frame_source }],
            pass: None,
            shutter: ShutterState::Closed,
            handled: DesiredState::of(0, false),
            pps: 0,
            armed: false,
            last_reconnect_ns: None,
            end: None,
        }
    }

    /// Nothing is left to do.
    pub open spec fn is_over(self) -> bool {
        self.pass is None && self.pending.len() == 0
    }

    /// The next action.
    pub open spec fn next_action(self) -> Option<DriverAction> {
        match self.pass {
            Some(pass) => if pass.pending.len() > 0 {
                Some(DriverAction::Transition(pass.pending[0]))
            } else {
                None
            },
            None => if self.pending.len() > 0 {
                Some(self.pending[0])
            } else {
                None
            },
        }
    }

    /// Whether `reply` answers the next action.
    pub open spec fn expects(self, reply: DriverReply) -> bool {
        match self.pass {
            Some(pass) => reply is Transition && pass.expects(reply->Transition_0),
            None => self.pending.len() > 0 && !(self.pending[0] is Transition)
                && self.pending[0].answered_by(reply),
        }
    }

    /// A fresh iteration, which starts with a look at the stop request.
    pub open spec fn iterating(self) -> Self {
        DriverView {
            pending: seq![DriverAction::MarkLoopActivity, DriverAction::ReadStopRequested],
            ..self
        }
    }

    /// A stop: the shutter is commanded to close, whatever is known of it.
    pub open spec fn stopping(self) -> Self {
        DriverView {
            pending: seq![DriverAction::SetShutter(false)],
            end: Some(DriverEnd::Session(SessionExit::Stopped)),
            ..self
        }
    }

    /// The device is gone: look for it again, if that is enabled.
    pub open spec fn reconnecting(self) -> Self {
        if self.config.reconnects {
            DriverView {
                pending: seq![
                    DriverAction::SetConnectedMetric(false),
                    DriverAction::FindBackend { last_reconnect_ns: self.last_reconnect_ns },
                ],
                ..self
            }
        } else {
            DriverView {
                pending: seq![],
                end: Some(DriverEnd::Session(SessionExit::Disconnected)),
                ..self
            }
        }
    }

    /// The state after a transition pass that ended in `pass`.
    pub open spec fn after_pass(self, pass: TransitionView) -> Self {
        let settled = DriverView {
            pass: None,
            handled: pass.handled,
            shutter: pass.shutter,
            ..self
        };
        match pass.outcome {
            TransitionOutcome::Continue => DriverView {
                pending: seq![DriverAction::ReadArmed],
                ..settled
            },
            TransitionOutcome::Disconnected => settled.reconnecting(),
        }
    }

    /// The actions of an iteration between the look at the rate and the look at the
    /// connection.
    pub open spec fn feeding(self) -> Seq<DriverAction> {
        seq![DriverAction::ForwardColorDelay] + (if self.config.has_frame_slot {
            seq![DriverAction::SubmitPendingFrame]
        } else {
            seq![]
        }) + seq![DriverAction::ReadConnected]
    }

    /// The actions that complete a reconnect, and the start of the next iteration.
    pub open spec fn rejoining(self) -> Seq<DriverAction> {
        seq![DriverAction::SetConnectedMetric(true), DriverAction::SourceReconnected] + (
        if self.config.frame_source {
            seq![DriverAction::SetFrameCapacity]
        } else {
            seq![]
        }) + seq![
            DriverAction::AdapterReconnected,
            DriverAction::NotifyReconnected,
            DriverAction::MarkLoopActivity,
            DriverAction::ReadStopRequested,
        ]
    }

    /// The state after `reply`; one that does not answer the next action changes nothing.
    pub open spec fn next(self, reply: DriverReply) -> Self {
        if !self.expects(reply) {
            self
        } else {
            match (self.pass, reply) {
                (Some(pass), DriverReply::Transition(inner)) => if pass.next(inner).pending.len()
                    > 0 {
                    DriverView { pass: Some(pass.next(inner)), ..self }
                } else {
                    self.after_pass(pass.next(inner))
                },
                _ => self.next_outside_pass(reply),
            }
        }
    }

    /// The state after `reply` answered the next action, outside a transition pass.
    pub open spec fn next_outside_pass(self, reply: DriverReply) -> Self {
        match (self.pending[0], reply) {
            (DriverAction::SelectAdapter { .. }, DriverReply::Failure(failure)) => match failure {
                None => self.iterating(),
                Some(error) => DriverView {
                    pending: seq![],
                    end: Some(DriverEnd::Failed(error)),
                    ..self
                },
            },
            (DriverAction::ReadStopRequested, DriverReply::Flag(requested)) => if requested {
                self.stopping()
            } else {
                DriverView { pending: seq![DriverAction::ReadPps], ..self }
            },
            (DriverAction::ReadPps, DriverReply::Rate(pps)) => DriverView {
                pps,
                pending: self.feeding(),
                ..self
            },
            (DriverAction::ReadConnected, DriverReply::Flag(connected)) => if connected {
                DriverView { pending: seq![DriverAction::DrainControl], ..self }
            } else {
                self.reconnecting()
            },
            (DriverAction::DrainControl, DriverReply::Flag(stop)) => if stop {
                self.stopping()
            } else {
                DriverView {
                    pending: seq![],
                    pass: Some(TransitionView::start(self.handled, self.shutter, self.pps)),
                    ..self
                }
            },
            (DriverAction::ReadArmed, DriverReply::Flag(armed)) => DriverView {
                armed,
                pending: seq![DriverAction::Step { pps: self.pps, armed }],
                ..self
            },
            (
                DriverAction::Step { .. },
                DriverReply::Stepped(outcome, shutter),
            ) => DriverView { shutter, ..self }.after_step(outcome),
            (DriverAction::ReadEnded, DriverReply::Flag(ended)) => if ended {
                DriverView { pending: seq![DriverAction::TakeStopError], ..self }
            } else {
                self.iterating()
            },
            (DriverAction::TakeStopError, DriverReply::Failure(failure)) => match failure {
                // An abrupt error exit closes the shutter like a stop does.
                Some(error) => DriverView {
                    pending: seq![DriverAction::SetShutter(false)],
                    end: Some(DriverEnd::Failed(error)),
                    ..self
                },
                None => DriverView {
                    pending: seq![DriverAction::DrainAndBlank { pps: self.pps, armed: self.armed }],
                    end: Some(DriverEnd::Session(SessionExit::ProducerEnded)),
                    ..self
                },
            },
            (DriverAction::SetShutter(open), DriverReply::Command(accepted)) => DriverView {
                shutter: super::transition::shutter_after_spec(open, accepted),
                pending: self.pending.drop_first(),
                ..self
            },
            (DriverAction::FindBackend { .. }, DriverReply::Found { min, max }) => DriverView {
                pending: seq![DriverAction::UpdatePpsBounds { min, max }],
                ..self
            },
            (DriverAction::FindBackend { .. }, DriverReply::NotFound(exit)) => DriverView {
                pending: seq![],
                end: Some(DriverEnd::Session(exit)),
                ..self
            },
            (DriverAction::UpdatePpsBounds { .. }, DriverReply::Flag(accepted)) => if accepted {
                // A new backend starts closed and disarmed, so an arm that was already
                // requested still runs the whole preparation.
                DriverView {
                    shutter: ShutterState::Closed,
                    handled: DesiredState::of(0, false),
                    pending: seq![DriverAction::InstallCandidate, DriverAction::ReadClock],
                    ..self
                }
            } else {
                // The rate may have changed since the new backend was validated.
                DriverView {
                    pending: seq![DriverAction::DiscardCandidate],
                    end: Some(DriverEnd::Session(SessionExit::Disconnected)),
                    ..self
                }
            },
            (DriverAction::ReadClock, DriverReply::Now(now)) => DriverView {
                last_reconnect_ns: Some(now),
                pending: self.rejoining(),
                ..self
            },
            _ => DriverView { pending: self.pending.drop_first(), ..self },
        }
    }

    /// The state after an adapter step. A frame source never ends.
    pub open spec fn after_step(self, outcome: StepOutcome) -> Self {
        match outcome {
            StepOutcome::Stopped => self.stopping(),
            StepOutcome::Disconnected => self.reconnecting(),
            _ => if self.config.frame_source {
                self.iterating()
            } else {
                DriverView { pending: seq![DriverAction::ReadEnded], ..self }
            },
        }
    }

    /// The state after a series of replies.
    pub open spec fn run(self, replies: Seq<DriverReply>) -> Self
        decreases replies.len(),
    {
        if replies.len() == 0 {
            self
        } else {
            self.run(replies.drop_last()).next(replies.last())
        }
    }

    /// The actions that a series of replies answers, with their replies, in order.
    pub open spec fn performed(self, replies: Seq<DriverReply>) -> Seq<(DriverAction, DriverReply)>
        decreases replies.len(),
    {
        if replies.len() == 0 {
            seq![]
        } else {
            let before = self.run(replies.drop_last());
            let so_far = self.performed(replies.drop_last());
            if before.expects(replies.last()) {
                so_far.push((before.next_action()->0, replies.last()))
            } else {
                so_far
            }
        }
    }
}

/// The decisions of the scheduler loop.
pub struct Driver {
    config: DriverConfig,
    pending: VecDeque<DriverAction>,
    pass: Option<ShutterTransition>,
    shutter: ShutterState,
    handled: DesiredState,
    pps: u32,
    armed: bool,
    last_reconnect_ns: Option<u64>,
    end: Option<DriverEnd>,
}

impl View for Driver {
    type V = DriverView;

    closed spec fn view(&self) -> DriverView {
        DriverView {
            config: self.config,
            pending: self.pending@,
            pass: match self.pass {
                Some(pass) => Some(pass@),
                None => None,
            },
            shutter: self.shutter,
            handled: self.handled,
            pps: self.pps,
            armed: self.armed,
            last_reconnect_ns: self.last_reconnect_ns,
            end: self.end,
        }
    }
}

fn script_of(action: DriverAction) -> (script: VecDeque<DriverAction>)
    ensures
        script@ == seq![action],
{
    let mut script = VecDeque::new();
    script.push_back(action);
    script
}

impl Driver {
    /// Start a run.
    pub fn new(config: DriverConfig) -> (r: Self)
        ensures
            r@ == DriverView::start(config),
    {
        let r = Driver {
            config,
            pending: script_of(DriverAction::SelectAdapter { frame_swap: config.frame_source }),
            pass: None,
            shutter: ShutterState::Closed,
            handled: DesiredState::initial(),
            pps: 0,
            armed: false,
            last_reconnect_ns: None,
            end: None,
        };
        assert(r@ =~= DriverView::start(config));
        r
    }

    /// The action to perform next, or `None` once the run is over.
    pub fn next_action(&self) -> (r: Option<DriverAction>)
        ensures
            r == self@.next_action(),
    {
        match &self.pass {
            Some(pass) => match pass.next_action() {
                Some(action) => Some(DriverAction::Transition(action)),
                None => None,
            },
            None => if self.pending.len() > 0 {
                Some(self.pending[0])
            } else {
                None
            },
        }
    }

    fn iterate(&mut self)
        ensures
            final(self)@ == old(self)@.iterating(),
    {
        let mut script = VecDeque::new();
        script.push_back(DriverAction::MarkLoopActivity);
        script.push_back(DriverAction::ReadStopRequested);
        self.pending = script;
        assert(self@ =~= old(self)@.iterating());
    }

    fn stop_and_close_shutter(&mut self)
        ensures
            final(self)@ == old(self)@.stopping(),
    {
        self.pending = script_of(DriverAction::SetShutter(false));
        self.end = Some(DriverEnd::Session(SessionExit::Stopped));
        assert(self@ =~= old(self)@.stopping());
    }

    fn reconnect(&mut self)
        ensures
            final(self)@ == old(self)@.reconnecting(),
    {
        let mut script = VecDeque::new();
        if self.config.reconnects {
            script.push_back(DriverAction::SetConnectedMetric(false));
            script.push_back(
                DriverAction::FindBackend { last_reconnect_ns: self.last_reconnect_ns },
            );
        } else {
            self.end = Some(DriverEnd::Session(SessionExit::Disconnected));
        }
        self.pending = script;
        assert(self@ =~= old(self)@.reconnecting());
    }

    /// Hand back the reply to the next action. A reply that does not answer it is refused
    /// and changes nothing.
    pub fn complete(&mut self, reply: DriverReply) -> (accepted: bool)
        ensures
            final(self)@ == old(self)@.next(reply),
            accepted == old(self)@.expects(reply),
    {
        match &self.pass {
            Some(_) => self.complete_in_pass(reply),
            None => if self.pending.len() > 0 {
                self.complete_outside_pass(reply)
            } else {
                false
            },
        }
    }

    fn complete_in_pass(&mut self, reply: DriverReply) -> (accepted: bool)
        requires
            old(self)@.pass is Some,
        ensures
            final(self)@ == old(self)@.next(reply),
            accepted == old(self)@.expects(reply),
    {
        let inner = match reply {
            DriverReply::Transition(inner) => inner,
            _ => {
                return false;
            },
        };
        let mut taken: Option<ShutterTransition> = None;
        std::mem::swap(&mut self.pass, &mut taken);
        let accepted = match taken {
            Some(pass) => {
                let mut pass = pass;
                let accepted = pass.complete(inner);
                if !accepted || pass.next_action().is_some() {
                    self.pass = Some(pass);
                } else {
                    self.handled = pass.handled();
                    self.shutter = pass.shutter();
                    match pass.outcome() {
                        TransitionOutcome::Continue => {
                            self.pending = script_of(DriverAction::ReadArmed);
                        },
                        TransitionOutcome::Disconnected => self.reconnect(),
                    }
                }
                accepted
            },
            None => false,
        };
        assert(self@ =~= old(self)@.next(reply));
        accepted
    }

    fn complete_outside_pass(&mut self, reply: DriverReply) -> (accepted: bool)
        requires
            old(self)@.pass is None,
            old(self)@.pending.len() > 0,
        ensures
            final(self)@ == old(self)@.next(reply),
            accepted == old(self)@.expects(reply),
    {
        match self.pending[0] {
            DriverAction::SelectAdapter { .. }
            | DriverAction::ReadStopRequested
            | DriverAction::ReadPps
            | DriverAction::ReadConnected
            | DriverAction::DrainControl => self.complete_look(reply),
            DriverAction::ReadArmed
            | DriverAction::Step { .. }
            | DriverAction::ReadEnded
            | DriverAction::TakeStopError
            | DriverAction::SetShutter(_) => self.complete_output(reply),
            DriverAction::FindBackend { .. }
            | DriverAction::UpdatePpsBounds { .. }
            | DriverAction::ReadClock => self.complete_reconnect(reply),
            DriverAction::Transition(_) => false,
            _ => match reply {
                DriverReply::Done => {
                    let _ = self.pending.pop_front();
                    assert(self@ =~= old(self)@.next(reply));
                    true
                },
                _ => false,
            },
        }
    }

    /// The looks at the start of an iteration.
    fn complete_look(&mut self, reply: DriverReply) -> (accepted: bool)
        requires
            old(self)@.pass is None,
            old(self)@.pending.len() > 0,
            old(self)@.pending[0] is SelectAdapter
                || old(self)@.pending[0] is ReadStopRequested
                || old(self)@.pending[0] is ReadPps
                || old(self)@.pending[0] is ReadConnected
                || old(self)@.pending[0] is DrainControl,
        ensures
            final(self)@ == old(self)@.next(reply),
            accepted == old(self)@.expects(reply),
    {
        let action = self.pending[0];
        match (action, reply) {
            (DriverAction::SelectAdapter { .. }, DriverReply::Failure(failure)) => {
                match failure {
                    None => self.iterate(),
                    Some(error) => {
                        self.pending = VecDeque::new();
                        self.end = Some(DriverEnd::Failed(error));
                    },
                }
            },
            (DriverAction::ReadStopRequested, DriverReply::Flag(requested)) => {
                if requested {
                    self.stop_and_close_shutter();
                } else {
                    self.pending = script_of(DriverAction::ReadPps);
                }
            },
            (DriverAction::ReadPps, DriverReply::Rate(pps)) => {
                self.pps = pps;
                let mut script = script_of(DriverAction::ForwardColorDelay);
                if self.config.has_frame_slot {
                    script.push_back(DriverAction::SubmitPendingFrame);
                }
                script.push_back(DriverAction::ReadConnected);
                self.pending = script;
            },
            (DriverAction::ReadConnected, DriverReply::Flag(connected)) => {
                if connected {
                    self.pending = script_of(DriverAction::DrainControl);
                } else {
                    self.reconnect();
                }
            },
            (DriverAction::DrainControl, DriverReply::Flag(stop)) => {
                if stop {
                    self.stop_and_close_shutter();
                } else {
                    self.pending = VecDeque::new();
                    self.pass = Some(ShutterTransition::new(self.handled, self.shutter, self.pps));
                }
            },
            _ => {
                return false;
            },
        }
        assert(self@ =~= old(self)@.next(reply));
        true
    }

    /// The output step of an iteration, and the ways out of the loop.
    fn complete_output(&mut self, reply: DriverReply) -> (accepted: bool)
        requires
            old(self)@.pass is None,
            old(self)@.pending.len() > 0,
            old(self)@.pending[0] is ReadArmed
                || old(self)@.pending[0] is Step
                || old(self)@.pending[0] is ReadEnded
                || old(self)@.pending[0] is TakeStopError
                || old(self)@.pending[0] is SetShutter,
        ensures
            final(self)@ == old(self)@.next(reply),
            accepted == old(self)@.expects(reply),
    {
        let action = self.pending[0];
        match (action, reply) {
            (DriverAction::ReadArmed, DriverReply::Flag(armed)) => {
                self.armed = armed;
                self.pending = script_of(DriverAction::Step { pps: self.pps, armed });
            },
            (DriverAction::Step { .. }, DriverReply::Stepped(outcome, shutter)) => {
                self.shutter = shutter;
                match outcome {
                    StepOutcome::Stopped => self.stop_and_close_shutter(),
                    StepOutcome::Disconnected => self.reconnect(),
                    StepOutcome::Continue | StepOutcome::StateChanged => {
                        if self.config.frame_source {
                            self.iterate();
                        } else {
                            self.pending = script_of(DriverAction::ReadEnded);
                        }
                    },
                }
            },
            (DriverAction::ReadEnded, DriverReply::Flag(ended)) => {
                if ended {
                    self.pending = script_of(DriverAction::TakeStopError);
                } else {
                    self.iterate();
                }
            },
            (DriverAction::TakeStopError, DriverReply::Failure(failure)) => {
                match failure {
                    Some(error) => {
                        self.pending = script_of(DriverAction::SetShutter(false));
                        self.end = Some(DriverEnd::Failed(error));
                    },
                    None => {
                        self.pending = script_of(
                            DriverAction::DrainAndBlank { pps: self.pps, armed: self.armed },
                        );
                        self.end = Some(DriverEnd::Session(SessionExit::ProducerEnded));
                    },
                }
            },
            (DriverAction::SetShutter(open), DriverReply::Command(accepted)) => {
                self.shutter = shutter_after(open, accepted);
                let _ = self.pending.pop_front();
            },
            _ => {
                return false;
            },
        }
        assert(self@ =~= old(self)@.next(reply));
        true
    }

    /// The decisions of a reconnect.
    fn complete_reconnect(&mut self, reply: DriverReply) -> (accepted: bool)
        requires
            old(self)@.pass is None,
            old(self)@.pending.len() > 0,
            old(self)@.pending[0] is FindBackend
                || old(self)@.pending[0] is UpdatePpsBounds
                || old(self)@.pending[0] is ReadClock,
        ensures
            final(self)@ == old(self)@.next(reply),
            accepted == old(self)@.expects(reply),
    {
        let action = self.pending[0];
        match (action, reply) {
            (DriverAction::FindBackend { .. }, DriverReply::Found { min, max }) => {
                self.pending = script_of(DriverAction::UpdatePpsBounds { min, max });
            },
            (DriverAction::FindBackend { .. }, DriverReply::NotFound(exit)) => {
                self.pending = VecDeque::new();
                self.end = Some(DriverEnd::Session(exit));
            },
            (DriverAction::UpdatePpsBounds { .. }, DriverReply::Flag(accepted)) => {
                if accepted {
                    self.shutter = ShutterState::Closed;
                    self.handled = DesiredState::initial();
                    let mut script = script_of(DriverAction::InstallCandidate);
                    script.push_back(DriverAction::ReadClock);
                    self.pending = script;
                } else {
                    self.pending = script_of(DriverAction::DiscardCandidate);
                    self.end = Some(DriverEnd::Session(SessionExit::Disconnected));
                }
            },
            (DriverAction::ReadClock, DriverReply::Now(now)) => {
                self.last_reconnect_ns = Some(now);
                let mut script = script_of(DriverAction::SetConnectedMetric(true));
                script.push_back(DriverAction::SourceReconnected);
                if self.config.frame_source {
                    script.push_back(DriverAction::SetFrameCapacity);
                }
                script.push_back(DriverAction::AdapterReconnected);
                script.push_back(DriverAction::NotifyReconnected);
                script.push_back(DriverAction::MarkLoopActivity);
                script.push_back(DriverAction::ReadStopRequested);
                self.pending = script;
            },
            _ => {
                return false;
            },
        }
        assert(self@ =~= old(self)@.next(reply));
        true
    }

    /// What is known of the shutter.
    pub fn shutter(&self) -> (r: ShutterState)
        ensures
            r == self@.shutter,
    {
        self.shutter
    }

    /// The result of the run, once it is over.
    pub fn into_result(self) -> (r: Option<Result<SessionExit, Error>>)
        ensures
            r == if self@.is_over() {
                match self@.end {
                    Some(DriverEnd::Session(exit)) => Some(Ok::<SessionExit, Error>(exit)),
                    Some(DriverEnd::Failed(error)) => Some(Err(error)),
                    None => None,
                }
            } else {
                None
            },
    {
        if self.pass.is_some() || self.pending.len() > 0 {
            return None;
        }
        match self.end {
            Some(DriverEnd::Session(exit)) => Some(Ok(exit)),
            Some(DriverEnd::Failed(error)) => Some(Err(error)),
            None => None,
        }
    }
}

} // verus!
