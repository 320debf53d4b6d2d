//! Content sources and output adapters, as the scheduler loop sees them.
//!
//! Like the backend traits, each trait names what its methods may do by spec predicates
//! that an implementation chooses as it likes.
use std::time::Duration;

use vstd::prelude::*;

use super::transition::OutputResetReason;
use crate::abstract_state::AbstractState;
use crate::error::Error;

verus! {

/// A call that changes a content source, with its arguments and its result.
pub enum SourceCall {
    ArmStartupBlank(u32),
    DiscardCached,
    OnDisarm,
    ResetOutputFilter(OutputResetReason),
    SetColorDelay(Duration),
    TakeStopError(Option<Error>),
    SetFrameCapacity(Option<usize>),
}

/// What the scheduler loop needs of every content source.
pub trait ContentSource: Send {
    /// A frame that may be submitted while the session runs.
    type Frame;

    /// What is known of a device.
    type Info;

    /// The state of the source.
    open spec fn state(&self) -> AbstractState {
        arbitrary()
    }

    /// A call in this state may lead to `after`.
    open spec fn does(&self, call: SourceCall, after: AbstractState) -> bool {
        true
    }

    /// An `on_reconnect(info)` in this state may lead to `after`.
    open spec fn reconnects(&self, info: Self::Info, after: AbstractState) -> bool {
        true
    }

    /// A `submit_frame(frame)` in this state may lead to `after`.
    open spec fn takes_frame(&self, frame: Self::Frame, after: AbstractState) -> bool {
        true
    }

    /// A new device took the place of a lost one.
    fn on_reconnect(&mut self, info: &Self::Info)
        ensures
            old(self).reconnects(*info, final(self).state()),
    ;

    /// Take a frame that was submitted.
    fn submit_frame(&mut self, frame: Self::Frame)
        ensures
            old(self).takes_frame(frame, final(self).state()),
    ;

    /// Prime startup blanking for output at rate `pps`.
    fn arm_startup_blank(&mut self, pps: u32)
        ensures
            old(self).does(SourceCall::ArmStartupBlank(pps), final(self).state()),
    ;

    /// Drop retained output.
    fn discard_cached(&mut self)
        ensures
            old(self).does(SourceCall::DiscardCached, final(self).state()),
    ;

    /// Output ends.
    fn on_disarm(&mut self)
        ensures
            old(self).does(SourceCall::OnDisarm, final(self).state()),
    ;

    /// Reset the output filter.
    fn reset_output_filter(&mut self, reason: OutputResetReason)
        ensures
            old(self).does(SourceCall::ResetOutputFilter(reason), final(self).state()),
    ;

    /// Set the color delay for output that is composed from now on.
    fn set_color_delay(&mut self, delay: Duration)
        ensures
            old(self).does(SourceCall::SetColorDelay(delay), final(self).state()),
    ;
}

/// A content source that makes chunks for a FIFO device.
pub trait FifoContentSource: ContentSource {
    /// An `is_ended` in this state may report `r`.
    open spec fn reports_ended(&self, r: bool) -> bool {
        true
    }

    /// Whether the source has ended.
    fn is_ended(&self) -> (r: bool)
        ensures
            self.reports_ended(r),
    ;

    /// Take the error with which the source stopped, if there is one.
    fn take_stop_error(&mut self) -> (r: Option<Error>)
        ensures
            old(self).does(SourceCall::TakeStopError(r), final(self).state()),
    ;
}

/// A content source that makes frames for a frame-swap device. It never ends by itself.
pub trait FrameContentSource: ContentSource {
    /// Set the most points that a frame may hold.
    fn set_frame_capacity(&mut self, capacity: Option<usize>)
        ensures
            old(self).does(SourceCall::SetFrameCapacity(capacity), final(self).state()),
    ;
}

/// The part of an output adapter that shutter transitions concern.
pub trait OutputAdapter {
    /// The state of the adapter.
    open spec fn state(&self) -> AbstractState {
        arbitrary()
    }

    /// An `on_state_change(armed)` in this state may lead to `after`.
    open spec fn changes(&self, armed: bool, after: AbstractState) -> bool {
        true
    }

    /// Output starts (`true`) or ends (`false`).
    fn on_state_change(&mut self, armed: bool)
        ensures
            old(self).changes(armed, final(self).state()),
    ;
}

/// Either kind of content source, owned by the scheduler loop for the length of a run.
pub enum SourceOwned<F, R> {
    Fifo(F),
    Frame(R),
}

impl<F: FifoContentSource, R: FrameContentSource<Frame = F::Frame, Info = F::Info>> SourceOwned<
    F,
    R,
> {
    /// A call to the source in this state may lead to `after`.
    pub open spec fn does(self, call: SourceCall, after: Self) -> bool {
        match (self, after) {
            (SourceOwned::Fifo(b), SourceOwned::Fifo(a)) => b.does(call, a.state()),
            (SourceOwned::Frame(b), SourceOwned::Frame(a)) => b.does(call, a.state()),
            _ => false,
        }
    }

    /// Whether the source makes frames.
    pub fn is_frame(&self) -> (r: bool)
        ensures
            r == self is Frame,
    {
        match self {
            SourceOwned::Fifo(_) => false,
            SourceOwned::Frame(_) => true,
        }
    }

    /// A new device took the place of a lost one.
    pub fn on_reconnect(&mut self, info: &F::Info)
        ensures
            match (*old(self), *final(self)) {
                (SourceOwned::Fifo(b), SourceOwned::Fifo(a)) => b.reconnects(*info, a.state()),
                (SourceOwned::Frame(b), SourceOwned::Frame(a)) => b.reconnects(*info, a.state()),
                _ => false,
            },
    {
        match self {
            SourceOwned::Fifo(s) => s.on_reconnect(info),
            SourceOwned::Frame(s) => s.on_reconnect(info),
        }
    }

    /// Set the most points that a frame may hold. A chunk source has no frames and is not
    /// touched.
    pub fn set_frame_capacity_if_supported(&mut self, capacity: Option<usize>)
        ensures
            match (*old(self), *final(self)) {
                (SourceOwned::Fifo(b), SourceOwned::Fifo(a)) => a == b,
                (SourceOwned::Frame(b), SourceOwned::Frame(a)) => b.does(
                    SourceCall::SetFrameCapacity(capacity),
                    a.state(),
                ),
                _ => false,
            },
    {
        match self {
            SourceOwned::Fifo(_) => {},
            SourceOwned::Frame(s) => s.set_frame_capacity(capacity),
        }
    }

    /// Whether the source has ended. A frame source never ends.
    pub fn is_ended(&self) -> (r: bool)
        ensures
            match *self {
                SourceOwned::Fifo(s) => s.reports_ended(r),
                SourceOwned::Frame(_) => !r,
            },
    {
        match self {
            SourceOwned::Fifo(s) => s.is_ended(),
            SourceOwned::Frame(_) => false,
        }
    }

    /// Take a frame that was submitted.
    pub fn submit_frame(&mut self, frame: F::Frame)
        ensures
            match (*old(self), *final(self)) {
                (SourceOwned::Fifo(b), SourceOwned::Fifo(a)) => b.takes_frame(frame, a.state()),
                (SourceOwned::Frame(b), SourceOwned::Frame(a)) => b.takes_frame(frame, a.state()),
                _ => false,
            },
    {
        match self {
            SourceOwned::Fifo(s) => s.submit_frame(frame),
            SourceOwned::Frame(s) => s.submit_frame(frame),
        }
    }

    /// Prime startup blanking for output at rate `pps`.
    pub fn arm_startup_blank(&mut self, pps: u32)
        ensures
            old(self).does(SourceCall::ArmStartupBlank(pps), *final(self)),
    {
        match self {
            SourceOwned::Fifo(s) => s.arm_startup_blank(pps),
            SourceOwned::Frame(s) => s.arm_startup_blank(pps),
        }
    }

    /// Drop retained output.
    pub fn discard_cached(&mut self)
        ensures
            old(self).does(SourceCall::DiscardCached, *final(self)),
    {
        match self {
            SourceOwned::Fifo(s) => s.discard_cached(),
            SourceOwned::Frame(s) => s.discard_cached(),
        }
    }

    /// Output ends.
    pub fn on_disarm(&mut self)
        ensures
            old(self).does(SourceCall::OnDisarm, *final(self)),
    {
        match self {
            SourceOwned::Fifo(s) => s.on_disarm(),
            SourceOwned::Frame(s) => s.on_disarm(),
        }
    }

    /// Reset the output filter.
    pub fn reset_output_filter(&mut self, reason: OutputResetReason)
        ensures
            old(self).does(SourceCall::ResetOutputFilter(reason), *final(self)),
    {
        match self {
            SourceOwned::Fifo(s) => s.reset_output_filter(reason),
            SourceOwned::Frame(s) => s.reset_output_filter(reason),
        }
    }

    /// Set the color delay for output that is composed from now on.
    pub fn set_color_delay(&mut self, delay: Duration)
        ensures
            old(self).does(SourceCall::SetColorDelay(delay), *final(self)),
    {
        match self {
            SourceOwned::Fifo(s) => s.set_color_delay(delay),
            SourceOwned::Frame(s) => s.set_color_delay(delay),
        }
    }

    /// Take the error with which the source stopped, if there is one. A frame source has
    /// none and is not touched.
    pub fn take_stop_error(&mut self) -> (r: Option<Error>)
        ensures
            match (*old(self), *final(self)) {
                (SourceOwned::Fifo(b), SourceOwned::Fifo(a)) => b.does(
                    SourceCall::TakeStopError(r),
                    a.state(),
                ),
                (SourceOwned::Frame(b), SourceOwned::Frame(a)) => a == b && r is None,
                _ => false,
            },
    {
        match self {
            SourceOwned::Fifo(s) => s.take_stop_error(),
            SourceOwned::Frame(_) => None,
        }
    }
}

} // verus!
