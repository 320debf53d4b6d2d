//! Arm and disarm transitions of the shutter.
//!
//! One [`ShutterTransition`] is one pass: it reads the desired state, cleans up after a
//! disarm, prepares for an arm, and commands the shutter. The desired state may change
//! while the pass runs, so it is read again at each [`CheckPoint`].
use std::collections::VecDeque;

use vstd::prelude::*;

use crate::session::DesiredState;

verus! {

/// What is known of the hardware shutter.
#[derive(Clone, Copy, Debug, PartialEq, Eq, Structural)]
pub enum ShutterState {
    /// The last command closed it and succeeded.
    Closed,
    /// The last command opened it and succeeded.
    Open,
    /// The last command failed, so it may be open or closed.
    Unknown,
}

/// Why the output filter is reset.
#[derive(Clone, Copy, Debug, PartialEq, Eq, Structural)]
pub enum OutputResetReason {
    Arm,
    Disarm,
}

/// How a transition pass ended.
#[derive(Clone, Copy, Debug, PartialEq, Eq, Structural)]
pub enum TransitionOutcome {
    /// The loop goes on.
    Continue,
    /// The device was disconnected because it could not be prepared.
    Disconnected,
}

/// The points of a pass at which the desired state is read.
#[derive(Clone, Copy, Debug, PartialEq, Eq, Structural)]
pub enum CheckPoint {
    /// At the start of the pass.
    Entry,
    /// After the clean-up that a disarm needs.
    AfterFalling,
    /// Before the shutter may be opened.
    BeforeOpen,
    /// After the shutter was opened, or found open.
    AfterOpen,
}

/// What the caller of a [`ShutterTransition`] performs next.
#[derive(Clone, Copy, Debug, PartialEq, Eq, Structural)]
pub enum TransitionAction {
    /// Read the desired state from the session control.
    ReadDesired(CheckPoint),
    /// Command the shutter of the backend.
    SetShutter(bool),
    /// Discard the output that the content source retains.
    DiscardCached,
    /// Tell the output adapter that output starts (`true`) or ends (`false`).
    AdapterStateChange(bool),
    /// Tell the content source that output ends.
    SourceDisarm,
    /// Reset the output filter of the content source.
    ResetOutputFilter(OutputResetReason),
    /// Prime the content source with startup blanking for this rate.
    ArmStartupBlank(u32),
    /// Clear the device-side queue of the backend.
    ResetDeviceBuffer,
    /// Disconnect the backend; its result does not matter.
    DisconnectBackend,
}

/// What came of an action.
#[derive(Clone, Copy, Debug, PartialEq, Eq, Structural)]
pub enum TransitionReply {
    /// The action was performed.
    Done,
    /// The desired state that was read.
    Desired(DesiredState),
    /// Whether the backend accepted the command.
    Command(bool),
}

impl TransitionAction {
    /// Whether `reply` is an answer to this action.
    pub open spec fn answered_by(self, reply: TransitionReply) -> bool {
        match self {
            TransitionAction::ReadDesired(_) => reply is Desired,
            TransitionAction::SetShutter(_) => reply is Command,
            TransitionAction::ResetDeviceBuffer => reply is Command,
            _ => reply is Done,
        }
    }
}

/// The state of the shutter after a command.
pub open spec fn shutter_after_spec(open: bool, accepted: bool) -> ShutterState {
    if !accepted {
        ShutterState::Unknown
    } else if open {
        ShutterState::Open
    } else {
        ShutterState::Closed
    }
}

/// The state of the shutter after a command.
pub fn shutter_after(open: bool, accepted: bool) -> (r: ShutterState)
    ensures
        r == shutter_after_spec(open, accepted),
{
    if !accepted {
        ShutterState::Unknown
    } else if open {
        ShutterState::Open
    } else {
        ShutterState::Closed
    }
}

/// A close command, unless the shutter is known to be closed; always, if forced.
pub open spec fn command_close_spec(shutter: ShutterState, force: bool) -> Seq<TransitionAction> {
    if force || shutter != ShutterState::Closed {
        seq![TransitionAction::SetShutter(false)]
    } else {
        seq![]
    }
}

/// The clean-up after a disarm: close first, then drop and reset retained output.
pub open spec fn falling(shutter: ShutterState) -> Seq<TransitionAction> {
    command_close_spec(shutter, false) + falling_tail()
}

/// The part of [`falling`] that follows the close command.
pub open spec fn falling_tail() -> Seq<TransitionAction> {
    seq![
        TransitionAction::DiscardCached,
        TransitionAction::AdapterStateChange(false),
        TransitionAction::SourceDisarm,
        TransitionAction::ResetOutputFilter(OutputResetReason::Disarm),
        TransitionAction::ReadDesired(CheckPoint::AfterFalling),
    ]
}

/// The preparation for output at rate `pps`.
pub open spec fn rising(pps: u32) -> Seq<TransitionAction> {
    seq![
        TransitionAction::DiscardCached,
        TransitionAction::AdapterStateChange(true),
        TransitionAction::ArmStartupBlank(pps),
        TransitionAction::ResetOutputFilter(OutputResetReason::Arm),
        TransitionAction::ResetDeviceBuffer,
    ]
}

/// What remains when nothing has to be cleaned up or prepared: look once more before
/// opening, or see to it that the shutter is closed.
pub open spec fn settling(desired: DesiredState, shutter: ShutterState) -> Seq<TransitionAction> {
    if desired.armed() {
        seq![TransitionAction::ReadDesired(CheckPoint::BeforeOpen)]
    } else {
        command_close_spec(shutter, false)
    }
}

/// Open the shutter, unless it is known to be open, and look once more.
pub open spec fn opening(shutter: ShutterState) -> Seq<TransitionAction> {
    if shutter == ShutterState::Open {
        seq![TransitionAction::ReadDesired(CheckPoint::AfterOpen)]
    } else {
        seq![
            TransitionAction::SetShutter(true),
            TransitionAction::ReadDesired(CheckPoint::AfterOpen),
        ]
    }
}

/// What follows the first look: a change that ends disarmed, or that starts from an armed
/// state, needs the clean-up first, even if it ends armed.
pub open spec fn entering(
    handled: DesiredState,
    desired: DesiredState,
    shutter: ShutterState,
    pps: u32,
) -> Seq<TransitionAction> {
    if desired == handled {
        settling(desired, shutter)
    } else if handled.armed() || !desired.armed() {
        falling(shutter)
    } else {
        rising(pps)
    }
}

/// The state of a pass.
#[verifier::ext_equal]
pub struct TransitionView {
    /// The actions that are still due, the next one first.
    pub pending: Seq<TransitionAction>,
    /// The desired state that the hardware and the source were last brought in line with.
    pub handled: DesiredState,
    /// What is known of the shutter.
    pub shutter: ShutterState,
    /// The desired state that this pass works towards.
    pub desired: DesiredState,
    /// The rate of the session.
    pub pps: u32,
    /// How the pass ends.
    pub outcome: TransitionOutcome,
}

impl TransitionView {
    /// The start of a pass.
    pub open spec fn start(handled: DesiredState, shutter: ShutterState, pps: u32) -> Self {
        TransitionView {
            pending: seq![TransitionAction::ReadDesired(CheckPoint::Entry)],
            handled,
            shutter,
            desired: handled,
            pps,
            outcome: TransitionOutcome::Continue,
        }
    }

    /// Whether `reply` answers the next action.
    pub open spec fn expects(self, reply: TransitionReply) -> bool {
        self.pending.len() > 0 && self.pending[0].answered_by(reply)
    }

    /// The state after `reply`; one that does not answer the next action changes nothing.
    pub open spec fn next(self, reply: TransitionReply) -> Self {
        if !self.expects(reply) {
            self
        } else {
            match (self.pending[0], reply) {
                (
                    TransitionAction::ReadDesired(at),
                    TransitionReply::Desired(seen),
                ) => self.next_seen(at, seen),
                (
                    TransitionAction::SetShutter(open),
                    TransitionReply::Command(accepted),
                ) => TransitionView {
                    shutter: shutter_after_spec(open, accepted),
                    pending: self.pending.drop_first(),
                    ..self
                },
                (TransitionAction::ResetDeviceBuffer, TransitionReply::Command(accepted)) => if accepted {
                    TransitionView {
                        handled: self.desired,
                        pending: seq![TransitionAction::ReadDesired(CheckPoint::BeforeOpen)],
                        ..self
                    }
                } else {
                    TransitionView {
                        outcome: TransitionOutcome::Disconnected,
                        pending: seq![
                            TransitionAction::SetShutter(false),
                            TransitionAction::DisconnectBackend,
                        ],
                        ..self
                    }
                },
                _ => TransitionView { pending: self.pending.drop_first(), ..self },
            }
        }
    }

    /// The state after the desired state was read at a check point.
    pub open spec fn next_seen(self, at: CheckPoint, seen: DesiredState) -> Self {
        match at {
            CheckPoint::Entry => TransitionView {
                desired: seen,
                pending: entering(self.handled, seen, self.shutter, self.pps),
                ..self
            },
            // A change during the clean-up is left to a fresh pass.
            CheckPoint::AfterFalling => TransitionView {
                handled: self.desired,
                pending: if seen != self.desired {
                    seq![]
                } else if self.desired.armed() {
                    rising(self.pps)
                } else {
                    settling(self.desired, self.shutter)
                },
                ..self
            },
            CheckPoint::BeforeOpen => TransitionView {
                pending: if seen == self.desired {
                    opening(self.shutter)
                } else {
                    seq![]
                },
                ..self
            },
            // A failed open cannot prove that the hardware stayed closed, so a change is
            // answered by a close command either way.
            CheckPoint::AfterOpen => TransitionView {
                pending: if seen == self.desired {
                    seq![]
                } else {
                    command_close_spec(self.shutter, true)
                },
                ..self
            },
        }
    }

    /// The state after a series of replies.
    pub open spec fn run(self, replies: Seq<TransitionReply>) -> Self
        decreases replies.len(),
    {
        if replies.len() == 0 {
            self
        } else {
            self.run(replies.drop_last()).next(replies.last())
        }
    }

    /// The actions that a series of replies answers, with their replies, in order.
    pub open spec fn performed(self, replies: Seq<TransitionReply>) -> Seq<
        (TransitionAction, TransitionReply),
    >
        decreases replies.len(),
    {
        if replies.len() == 0 {
            seq![]
        } else {
            let before = self.run(replies.drop_last());
            let so_far = self.performed(replies.drop_last());
            if before.expects(replies.last()) {
                so_far.push((before.pending[0], replies.last()))
            } else {
                so_far
            }
        }
    }
}

/// One pass over the arm and disarm transitions.
pub struct ShutterTransition {
    pending: VecDeque<TransitionAction>,
    handled: DesiredState,
    shutter: ShutterState,
    desired: DesiredState,
    pps: u32,
    outcome: TransitionOutcome,
}

impl View for ShutterTransition {
    type V = TransitionView;

    closed spec fn view(&self) -> TransitionView {
        TransitionView {
            pending: self.pending@,
            handled: self.handled,
            shutter: self.shutter,
            desired: self.desired,
            pps: self.pps,
            outcome: self.outcome,
        }
    }
}

fn command_close(shutter: ShutterState, force: bool) -> (script: VecDeque<TransitionAction>)
    ensures
        script@ == command_close_spec(shutter, force),
{
    let mut script = VecDeque::new();
    if force || shutter != ShutterState::Closed {
        script.push_back(TransitionAction::SetShutter(false));
    }
    script
}

fn falling_script(shutter: ShutterState) -> (script: VecDeque<TransitionAction>)
    ensures
        script@ == falling(shutter),
{
    let mut script = command_close(shutter, false);
    script.push_back(TransitionAction::DiscardCached);
    script.push_back(TransitionAction::AdapterStateChange(false));
    script.push_back(TransitionAction::SourceDisarm);
    script.push_back(TransitionAction::ResetOutputFilter(OutputResetReason::Disarm));
    script.push_back(TransitionAction::ReadDesired(CheckPoint::AfterFalling));
    script
}

fn rising_script(pps: u32) -> (script: VecDeque<TransitionAction>)
    ensures
        script@ == rising(pps),
{
    let mut script = VecDeque::new();
    script.push_back(TransitionAction::DiscardCached);
    script.push_back(TransitionAction::AdapterStateChange(true));
    script.push_back(TransitionAction::ArmStartupBlank(pps));
    script.push_back(TransitionAction::ResetOutputFilter(OutputResetReason::Arm));
    script.push_back(TransitionAction::ResetDeviceBuffer);
    script
}

fn settling_script(desired: DesiredState, shutter: ShutterState) -> (script: VecDeque<
    TransitionAction,
>)
    ensures
        script@ == settling(desired, shutter),
{
    if desired.is_armed() {
        let mut script = VecDeque::new();
        script.push_back(TransitionAction::ReadDesired(CheckPoint::BeforeOpen));
        script
    } else {
        command_close(shutter, false)
    }
}

impl ShutterTransition {
    /// Start a pass.
    pub fn new(handled: DesiredState, shutter: ShutterState, pps: u32) -> (r: Self)
        ensures
            r@ == TransitionView::start(handled, shutter, pps),
    {
        let mut pending = VecDeque::new();
        pending.push_back(TransitionAction::ReadDesired(CheckPoint::Entry));
        let r = ShutterTransition {
            pending,
            handled,
            shutter,
            desired: handled,
            pps,
            outcome: TransitionOutcome::Continue,
        };
        assert(r@ =~= TransitionView::start(handled, shutter, pps));
        r
    }

    /// The action to perform next, or `None` once the pass is over.
    pub fn next_action(&self) -> (r: Option<TransitionAction>)
        ensures
            r == if self@.pending.len() > 0 {
                Some(self@.pending[0])
            } else {
                None
            },
    {
        if self.pending.len() > 0 {
            Some(self.pending[0])
        } else {
            None
        }
    }

    /// Hand back the reply to the next action. A reply that does not answer it is refused
    /// and changes nothing.
    pub fn complete(&mut self, reply: TransitionReply) -> (accepted: bool)
        ensures
            final(self)@ == old(self)@.next(reply),
            accepted == old(self)@.expects(reply),
    {
        if self.pending.len() == 0 {
            return false;
        }
        let action = self.pending[0];
        match (action, reply) {
            (TransitionAction::ReadDesired(at), TransitionReply::Desired(seen)) => {
                self.observe(at, seen);
                true
            },
            (TransitionAction::SetShutter(open), TransitionReply::Command(accepted)) => {
                self.shutter = shutter_after(open, accepted);
                let _ = self.pending.pop_front();
                assert(self@ =~= old(self)@.next(reply));
                true
            },
            (TransitionAction::ResetDeviceBuffer, TransitionReply::Command(accepted)) => {
                let mut script = VecDeque::new();
                if accepted {
                    self.handled = self.desired;
                    script.push_back(TransitionAction::ReadDesired(CheckPoint::BeforeOpen));
                } else {
                    self.outcome = TransitionOutcome::Disconnected;
                    script.push_back(TransitionAction::SetShutter(false));
                    script.push_back(TransitionAction::DisconnectBackend);
                }
                self.pending = script;
                assert(self@ =~= old(self)@.next(reply));
                true
            },
            (TransitionAction::ReadDesired(_), _)
            | (TransitionAction::SetShutter(_), _)
            | (TransitionAction::ResetDeviceBuffer, _) => false,
            (_, TransitionReply::Done) => {
                let _ = self.pending.pop_front();
                assert(self@ =~= old(self)@.next(reply));
                true
            },
            _ => false,
        }
    }

    fn observe(&mut self, at: CheckPoint, seen: DesiredState)
        requires
            old(self)@.pending.len() > 0,
        ensures
            final(self)@ == old(self)@.next_seen(at, seen),
    {
        match at {
            CheckPoint::Entry => {
                self.desired = seen;
                self.pending = if seen == self.handled {
                    settling_script(seen, self.shutter)
                } else if self.handled.is_armed() || !seen.is_armed() {
                    falling_script(self.shutter)
                } else {
                    rising_script(self.pps)
                };
            },
            CheckPoint::AfterFalling => {
                self.handled = self.desired;
                self.pending = if seen != self.desired {
                    VecDeque::new()
                } else if self.desired.is_armed() {
                    rising_script(self.pps)
                } else {
                    settling_script(self.desired, self.shutter)
                };
            },
            CheckPoint::BeforeOpen => {
                let mut script = VecDeque::new();
                if seen == self.desired {
                    if self.shutter != ShutterState::Open {
                        script.push_back(TransitionAction::SetShutter(true));
                    }
                    script.push_back(TransitionAction::ReadDesired(CheckPoint::AfterOpen));
                }
                self.pending = script;
            },
            CheckPoint::AfterOpen => {
                self.pending = if seen == self.desired {
                    VecDeque::new()
                } else {
                    command_close(self.shutter, true)
                };
            },
        }
        assert(self@ =~= old(self)@.next_seen(at, seen));
    }

    /// The desired state that the hardware and the source were last brought in line with.
    pub fn handled(&self) -> (r: DesiredState)
        ensures
            r == self@.handled,
    {
        self.handled
    }

    /// What is known of the shutter.
    pub fn shutter(&self) -> (r: ShutterState)
        ensures
            r == self@.shutter,
    {
        self.shutter
    }

    /// How the pass ends, once it is over.
    pub fn outcome(&self) -> (r: TransitionOutcome)
        ensures
            r == self@.outcome,
    {
        self.outcome
    }
}

} // verus!
