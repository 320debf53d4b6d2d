//! Session lifecycle: exit reasons, the desired arm state, the active rate, and the
//! thread-safe control handle.
use std::sync::mpsc::Sender;
use std::sync::Arc;
use std::time::Duration;

use vstd::prelude::*;
use vstd::rwlock::{ReadHandle, RwLock, RwLockPredicate, WriteHandle};

use crate::error::{Error, ErrorView};
use crate::text;

verus! {

/// How a presentation session ended.
#[derive(Clone, Copy, Debug, PartialEq, Eq, Structural)]
pub enum SessionExit {
    /// The session received a stop request.
    Stopped,
    /// The content source ended normally.
    ProducerEnded,
    /// The device disconnected and reconnection was unavailable or exhausted.
    Disconnected,
}

/// Scheduler notifications sent by [`SessionControl`].
///
/// The recorded desired state is authoritative; arm and disarm messages only interrupt
/// pacing so that the scheduler reconciles that state.
#[derive(Clone, Copy, Debug, PartialEq, Eq, Structural)]
pub enum ControlMsg {
    /// Desired arm state may have changed.
    Arm,
    /// Desired disarm state may have changed.
    Disarm,
    /// Request the session to stop.
    Stop,
}

/// Number of generations before the generation counter starts over.
pub open spec fn generations() -> nat {
    0x8000_0000_0000_0000
}

/// One coherent desired arm state and transition generation.
///
/// The low bit is the arm state; the other bits count the edges so far.
#[derive(Clone, Copy, Debug, PartialEq, Eq, Structural)]
pub struct DesiredState(pub u64);

impl DesiredState {
    /// Whether output is desired.
    pub open spec fn armed(self) -> bool {
        self.0 % 2 == 1
    }

    /// The number of edges that led here, modulo [`generations`].
    pub open spec fn generation(self) -> nat {
        (self.0 / 2) as nat
    }

    /// The state with the given generation and arm state.
    pub open spec fn of(generation: nat, armed: bool) -> DesiredState {
        DesiredState((generation * 2 + if armed { 1nat } else { 0nat }) as u64)
    }

    /// The state once `armed` has been requested: an actual edge advances the
    /// generation, a repeated request changes nothing.
    pub open spec fn requested(self, armed: bool) -> DesiredState {
        if self.armed() == armed {
            self
        } else {
            Self::of((self.generation() + 1) % generations(), armed)
        }
    }

    /// The arm state is the parity of the generation, as it is in every state that
    /// requests lead to from [`DesiredState::initial`].
    pub open spec fn wf(self) -> bool {
        self.armed() <==> self.generation() % 2 == 1
    }

    /// The state of a fresh session: disarmed, no edge so far.
    pub fn initial() -> (r: DesiredState)
        ensures
            r == Self::of(0, false),
            r.wf(),
            !r.armed(),
            r.generation() == 0,
    {
        DesiredState(0)
    }

    /// Whether output is desired.
    pub fn is_armed(self) -> (r: bool)
        ensures
            r == self.armed(),
    {
        let word: u64 = self.0;
        assert((word & 1 != 0) == (word % 2 == 1)) by (bit_vector);
        word & 1 != 0
    }

    /// The state once `armed` has been requested.
    pub fn request(self, armed: bool) -> (r: DesiredState)
        ensures
            r == self.requested(armed),
            self.wf() ==> r.wf(),
    {
        let current: u64 = self.0;
        let armed_bit: u64 = if armed {
            1
        } else {
            0
        };
        assert(current & 1 == current % 2) by (bit_vector);
        if current & 1 == armed_bit {
            return self;
        }
        // The low bit is state; adding two advances the generation, and replacing the low
        // bit records this edge in the same word.
        let bumped: u64 = current.wrapping_add(2);
        let next: u64 = (bumped & !1u64) | armed_bit;
        proof {
            assert((bumped & !1u64) | 1 == (bumped / 2) * 2 + 1) by (bit_vector);
            assert((bumped & !1u64) | 0 == (bumped / 2) * 2) by (bit_vector);
            let g = self.generation();
            if current + 2 <= u64::MAX {
                assert(bumped / 2 == g + 1);
                assert((g + 1) % generations() == g + 1);
            } else {
                assert(g + 1 == generations());
                assert((g + 1) % generations() == 0);
                assert(bumped / 2 == 0);
            }
            assert(next == self.requested(armed).0);
        }
        DesiredState(next)
    }
}

proof fn lemma_of(generation: nat, armed: bool)
    requires
        generation < generations(),
    ensures
        DesiredState::of(generation, armed).generation() == generation,
        DesiredState::of(generation, armed).armed() == armed,
{
}

proof fn lemma_requested(state: DesiredState, armed: bool)
    ensures
        state.requested(armed).armed() == armed,
        state.armed() == armed ==> state.requested(armed) == state,
        state.armed() != armed ==> state.requested(armed).generation() == (state.generation() + 1)
            % generations(),
        state.wf() ==> state.requested(armed).wf(),
{
    let g = state.generation();
    if state.armed() != armed {
        lemma_of((g + 1) % generations(), armed);
    }
}

/// The state after a series of requests.
pub open spec fn after_requests(start: DesiredState, requests: Seq<bool>) -> DesiredState
    decreases requests.len(),
{
    if requests.len() == 0 {
        start
    } else {
        after_requests(start, requests.drop_last()).requested(requests.last())
    }
}

/// How many of the requests were actual edges.
pub open spec fn edges(start: DesiredState, requests: Seq<bool>) -> nat
    decreases requests.len(),
{
    if requests.len() == 0 {
        0
    } else {
        let before = after_requests(start, requests.drop_last());
        edges(start, requests.drop_last()) + if before.armed() == requests.last() {
            0nat
        } else {
            1nat
        }
    }
}

/// Law: after any series of requests the generation has advanced by exactly the number of
/// edges, the last request is the arm state, and a series with at least one edge (and
/// fewer than a full turn of the counter) never leads back to the state it started from.
/// So a reader that compares states notices every arm/disarm pair that happened between
/// two of its reads.
pub proof fn every_edge_is_noticed(start: DesiredState, requests: Seq<bool>)
    ensures
        after_requests(start, requests).generation() == (start.generation() + edges(
            start,
            requests,
        )) % generations(),
        requests.len() > 0 ==> after_requests(start, requests).armed() == requests.last(),
        edges(start, requests) == 0 ==> after_requests(start, requests) == start,
        0 < edges(start, requests) < generations() ==> after_requests(start, requests) != start,
        start.wf() ==> after_requests(start, requests).wf(),
    decreases requests.len(),
{
    let g = start.generation();
    let m = generations();
    let e = edges(start, requests);
    if requests.len() > 0 {
        let init = requests.drop_last();
        let before = after_requests(start, init);
        every_edge_is_noticed(start, init);
        lemma_requested(before, requests.last());
        if before.armed() != requests.last() {
            lemma_count(g, edges(start, init), m);
        }
    } else {
        assert(g % m == g) by (nonlinear_arith)
            requires
                g < m,
        ;
    }
    if 0 < e < m {
        assert((g + e) % m != g) by (nonlinear_arith)
            requires
                g < m,
                0 < e < m,
        ;
    }
}

proof fn lemma_count(g: nat, e: nat, m: nat)
    by (nonlinear_arith)
    requires
        m > 0,
    ensures
        ((g + e) % m + 1) % m == (g + (e + 1)) % m,
{
}

/// The active rate and the range that the connected backend supports.
#[derive(Clone, Copy, Debug, PartialEq, Eq, Structural)]
pub struct RateState {
    /// Active rate, in points per second.
    pub pps: u32,
    /// Lowest rate of the connected backend.
    pub min: u32,
    /// Highest rate of the connected backend.
    pub max: u32,
}

/// Text of the error for a requested rate that the active backend does not support.
pub open spec fn rate_refused_text(pps: u32, min: u32, max: u32) -> Seq<char> {
    "PPS "@ + text::decimal(pps as nat) + " outside active backend range ["@ + text::decimal(min as nat)
        + ", "@ + text::decimal(max as nat) + "]"@
}

/// Text of the error for a replacement backend that does not support the active rate.
pub open spec fn bounds_refused_text(pps: u32, min: u32, max: u32) -> Seq<char> {
    "current PPS "@ + text::decimal(pps as nat) + " outside replacement backend range ["@ + text::decimal(
        min as nat,
    ) + ", "@ + text::decimal(max as nat) + "]"@
}

fn range_text(subject: &str, pps: u32, range: &str, min: u32, max: u32) -> (r: String)
    ensures
        r@ == subject@ + text::decimal(pps as nat) + range@ + text::decimal(min as nat) + ", "@ + text::decimal(
            max as nat,
        ) + "]"@,
{
    let mut text: String = subject.to_owned();
    text::push_decimal(&mut text, pps);
    text.append(range);
    text::push_decimal(&mut text, min);
    text.append(", ");
    text::push_decimal(&mut text, max);
    text.append("]");
    text
}

impl RateState {
    /// Whether the active rate lies in the supported range.
    pub open spec fn in_bounds(self) -> bool {
        self.min <= self.pps <= self.max
    }

    /// The state once `pps` has been requested.
    pub open spec fn with_pps(self, pps: u32) -> RateState {
        if self.min <= pps <= self.max {
            RateState { pps, ..self }
        } else {
            self
        }
    }

    /// The state once the range `[min, max]` has been requested.
    pub open spec fn with_bounds(self, min: u32, max: u32) -> RateState {
        if min <= self.pps <= max {
            RateState { min, max, ..self }
        } else {
            self
        }
    }

    /// Set the rate, unless it is outside the supported range.
    pub fn set_pps(&mut self, pps: u32) -> (r: Result<(), Error>)
        ensures
            *final(self) == old(self).with_pps(pps),
            r is Ok <==> old(self).min <= pps <= old(self).max,
            r matches Err(e) ==> e@ == ErrorView::InvalidConfig(
                rate_refused_text(pps, old(self).min, old(self).max),
            ),
            r is Ok ==> final(self).in_bounds() && final(self).pps == pps,
    {
        if pps < self.min || pps > self.max {
            let text: String = range_text(
                "PPS ",
                pps,
                " outside active backend range [",
                self.min,
                self.max,
            );
            return Err(Error::invalid_config(text));
        }
        self.pps = pps;
        Ok(())
    }

    /// Replace the supported range, unless the active rate is outside it.
    pub fn update_pps_bounds(&mut self, min: u32, max: u32) -> (r: Result<(), Error>)
        ensures
            *final(self) == old(self).with_bounds(min, max),
            r is Ok <==> min <= old(self).pps <= max,
            r matches Err(e) ==> e@ == ErrorView::InvalidConfig(
                bounds_refused_text(old(self).pps, min, max),
            ),
            r is Ok ==> final(self).in_bounds(),
    {
        if self.pps < min || self.pps > max {
            let text: String = range_text(
                "current PPS ",
                self.pps,
                " outside replacement backend range [",
                min,
                max,
            );
            return Err(Error::invalid_config(text));
        }
        self.min = min;
        self.max = max;
        Ok(())
    }
}

/// One operation on a session's control state.
pub enum ControlOp {
    /// Request output on or off.
    SetArmed(bool),
    /// Request the session to stop.
    Stop,
    /// Request a rate.
    SetPps(u32),
    /// Request a rate range.
    SetBounds(u32, u32),
    /// Set the color delay.
    SetColorDelay(Duration),
}

/// Everything that a session's control handles share.
pub struct ControlState {
    /// Desired arm bit and edge count.
    pub desired: DesiredState,
    /// Whether a stop has been requested.
    pub stop_requested: bool,
    /// Color delay, read when fresh output is composed.
    pub color_delay: Duration,
    /// Active rate and supported range.
    pub rate: RateState,
}

impl ControlState {
    /// The state once `op` has been carried out.
    pub open spec fn after(self, op: ControlOp) -> ControlState {
        match op {
            ControlOp::SetArmed(armed) => ControlState {
                desired: self.desired.requested(armed),
                ..self
            },
            ControlOp::Stop => ControlState { stop_requested: true, ..self },
            ControlOp::SetPps(pps) => ControlState { rate: self.rate.with_pps(pps), ..self },
            ControlOp::SetBounds(min, max) => ControlState {
                rate: self.rate.with_bounds(min, max),
                ..self
            },
            ControlOp::SetColorDelay(delay) => ControlState { color_delay: delay, ..self },
        }
    }

    /// The state once all of `ops` have been carried out in order.
    pub open spec fn after_all(self, ops: Seq<ControlOp>) -> ControlState
        decreases ops.len(),
    {
        if ops.len() == 0 {
            self
        } else {
            self.after_all(ops.drop_last()).after(ops.last())
        }
    }

    /// Whether some series of operations leads from here to `later`.
    pub open spec fn leads_to(self, later: ControlState) -> bool {
        exists|ops: Seq<ControlOp>| later == #[trigger] self.after_all(ops)
    }

    /// The control state of a fresh session: disarmed and not stopped.
    pub fn new(color_delay: Duration, rate: RateState) -> (r: ControlState)
        ensures
            r == (ControlState {
                desired: DesiredState::of(0, false),
                stop_requested: false,
                color_delay,
                rate,
            }),
    {
        ControlState { desired: DesiredState::initial(), stop_requested: false, color_delay, rate }
    }

    /// Record a desired arm state. The result is the notification that is owed to the
    /// scheduler; it is owed for a repeated request too.
    pub fn set_desired_armed(&mut self, armed: bool) -> (msg: ControlMsg)
        ensures
            *final(self) == old(self).after(ControlOp::SetArmed(armed)),
            msg == if armed {
                ControlMsg::Arm
            } else {
                ControlMsg::Disarm
            },
    {
        self.desired = self.desired.request(armed);
        if armed {
            ControlMsg::Arm
        } else {
            ControlMsg::Disarm
        }
    }

    /// Record a stop request. The result is the notification that is owed to the scheduler.
    pub fn stop(&mut self) -> (msg: ControlMsg)
        ensures
            *final(self) == old(self).after(ControlOp::Stop),
            msg == ControlMsg::Stop,
    {
        self.stop_requested = true;
        ControlMsg::Stop
    }

    /// Record a color delay.
    pub fn set_color_delay(&mut self, delay: Duration)
        ensures
            *final(self) == old(self).after(ControlOp::SetColorDelay(delay)),
    {
        self.color_delay = delay;
    }
}

/// Law: a stop request is never taken back; a rate inside its range stays inside, whatever
/// is requested of the rate and the range; and the desired state stays well-formed.
pub proof fn control_operations_keep(start: ControlState, ops: Seq<ControlOp>)
    ensures
        start.stop_requested ==> start.after_all(ops).stop_requested,
        ops.contains(ControlOp::Stop) ==> start.after_all(ops).stop_requested,
        start.rate.in_bounds() ==> start.after_all(ops).rate.in_bounds(),
        start.desired.wf() ==> start.after_all(ops).desired.wf(),
    decreases ops.len(),
{
    if ops.len() > 0 {
        control_operations_keep(start, ops.drop_last());
        let before = start.after_all(ops.drop_last());
        if ops.contains(ControlOp::Stop) && ops.last() != ControlOp::Stop {
            let i = choose|i: int| 0 <= i < ops.len() && ops[i] == ControlOp::Stop;
            assert(ops.drop_last()[i] == ControlOp::Stop);
        }
        if let ControlOp::SetArmed(armed) = ops.last() {
            lemma_requested(before.desired, armed);
        }
    }
}

/// The operation at `i` requests a rate that is accepted.
pub open spec fn rate_accepted(start: ControlState, ops: Seq<ControlOp>, i: int) -> bool {
    let rate = start.after_all(ops.take(i)).rate;
    ops[i] is SetPps && rate.min <= ops[i]->SetPps_0 <= rate.max
}

/// The operation at `i` requests a range that is accepted.
pub open spec fn range_accepted(start: ControlState, ops: Seq<ControlOp>, i: int) -> bool {
    let rate = start.after_all(ops.take(i)).rate;
    ops[i] is SetBounds && ops[i]->SetBounds_0 <= rate.pps <= ops[i]->SetBounds_1
}

proof fn lemma_earlier(start: ControlState, ops: Seq<ControlOp>, i: int)
    requires
        0 <= i < ops.len() - 1,
    ensures
        ops.drop_last()[i] == ops[i],
        rate_accepted(start, ops.drop_last(), i) == rate_accepted(start, ops, i),
        range_accepted(start, ops.drop_last(), i) == range_accepted(start, ops, i),
{
    assert(ops.drop_last().take(i) =~= ops.take(i));
}

/// Law: the rate is the last accepted one, however often another was refused since; the
/// range does not change it.
pub proof fn the_last_accepted_rate_holds(start: ControlState, ops: Seq<ControlOp>, i: int)
    requires
        -1 <= i < ops.len(),
        i >= 0 ==> rate_accepted(start, ops, i),
        forall|j: int| i < j < ops.len() ==> !#[trigger] rate_accepted(start, ops, j),
    ensures
        start.after_all(ops).rate.pps == if i >= 0 {
            ops[i]->SetPps_0
        } else {
            start.rate.pps
        },
    decreases ops.len(),
{
    let n = ops.len() - 1;
    if n >= 0 {
        assert(ops.take(n) =~= ops.drop_last());
        if i < n {
            assert(!rate_accepted(start, ops, n));
            if i >= 0 {
                lemma_earlier(start, ops, i);
            }
            assert forall|j: int| i < j < ops.drop_last().len() implies !#[trigger] rate_accepted(
                start,
                ops.drop_last(),
                j,
            ) by {
                lemma_earlier(start, ops, j);
            }
            the_last_accepted_rate_holds(start, ops.drop_last(), i);
        }
    }
}

/// Law: the range in force is the last accepted one; a refused one leaves it as it was.
pub proof fn the_last_accepted_range_holds(start: ControlState, ops: Seq<ControlOp>, i: int)
    requires
        -1 <= i < ops.len(),
        i >= 0 ==> range_accepted(start, ops, i),
        forall|j: int| i < j < ops.len() ==> !#[trigger] range_accepted(start, ops, j),
    ensures
        ({
            let rate = start.after_all(ops).rate;
            (rate.min, rate.max) == if i >= 0 {
                (ops[i]->SetBounds_0, ops[i]->SetBounds_1)
            } else {
                (start.rate.min, start.rate.max)
            }
        }),
    decreases ops.len(),
{
    let n = ops.len() - 1;
    if n >= 0 {
        assert(ops.take(n) =~= ops.drop_last());
        if i < n {
            assert(!range_accepted(start, ops, n));
            if i >= 0 {
                lemma_earlier(start, ops, i);
            }
            assert forall|j: int| i < j < ops.drop_last().len() implies !#[trigger] range_accepted(
                start,
                ops.drop_last(),
                j,
            ) by {
                lemma_earlier(start, ops, j);
            }
            the_last_accepted_range_holds(start, ops.drop_last(), i);
        }
    }
}

/// Law: the color delay is exactly the last one that was set.
pub proof fn the_last_color_delay_holds(start: ControlState, ops: Seq<ControlOp>, i: int)
    requires
        -1 <= i < ops.len(),
        i >= 0 ==> ops[i] is SetColorDelay,
        forall|j: int| i < j < ops.len() ==> !(#[trigger] ops[j] is SetColorDelay),
    ensures
        start.after_all(ops).color_delay == if i >= 0 {
            ops[i]->SetColorDelay_0
        } else {
            start.color_delay
        },
    decreases ops.len(),
{
    let n = ops.len() - 1;
    if n >= 0 && i < n {
        assert(!(ops[n] is SetColorDelay));
        the_last_color_delay_holds(start, ops.drop_last(), i);
    }
}

/// Law: output is desired just if the last request asked for it.
pub proof fn the_last_arm_request_holds(start: ControlState, ops: Seq<ControlOp>, i: int)
    requires
        -1 <= i < ops.len(),
        i >= 0 ==> ops[i] is SetArmed,
        forall|j: int| i < j < ops.len() ==> !(#[trigger] ops[j] is SetArmed),
    ensures
        start.after_all(ops).desired.armed() == if i >= 0 {
            ops[i]->SetArmed_0
        } else {
            start.desired.armed()
        },
    decreases ops.len(),
{
    let n = ops.len() - 1;
    if n >= 0 {
        if i < n {
            assert(!(ops[n] is SetArmed));
            the_last_arm_request_holds(start, ops.drop_last(), i);
        } else {
            lemma_requested(start.after_all(ops.drop_last()).desired, ops[n]->SetArmed_0);
        }
    }
}

proof fn lemma_one_more(start: ControlState, state: ControlState, op: ControlOp)
    requires
        start.leads_to(state),
    ensures
        start.leads_to(state.after(op)),
{
    let ops = choose|ops: Seq<ControlOp>| state == #[trigger] start.after_all(ops);
    let more = ops.push(op);
    assert(more.drop_last() =~= ops);
    assert(start.after_all(more) == state.after(op));
}

/// Text of the error when a request was recorded but the scheduler could not be notified.
pub open spec fn undelivered_text(msg: ControlMsg) -> Seq<char> {
    match msg {
        ControlMsg::Stop => "session stop recorded, but scheduler notification failed"@,
        _ => "desired session state recorded, but scheduler notification failed"@,
    }
}

/// What a request returns, given whether its notification was accepted.
pub fn delivery_result(msg: ControlMsg, accepted: bool) -> (r: Result<(), Error>)
    ensures
        r is Ok <==> accepted,
        r matches Err(e) ==> e@ == ErrorView::Disconnected(undelivered_text(msg)),
{
    if accepted {
        return Ok(());
    }
    match msg {
        ControlMsg::Stop => Err(
            Error::disconnected("session stop recorded, but scheduler notification failed"),
        ),
        _ => Err(
            Error::disconnected("desired session state recorded, but scheduler notification failed"),
        ),
    }
}

/// The sending half of a standard channel, carried as an opaque value.
#[verifier::external_type_specification]
#[verifier::external_body]
#[verifier::reject_recursive_types(T)]
pub struct ExSender<T>(std::sync::mpsc::Sender<T>);

/// Calls [`std::sync::mpsc::Sender::send`] and reports whether the message was accepted.
///
/// Acceptance depends on whether the receiving half still exists, so nothing is claimed
/// of the result.
#[verifier::external_body]
fn send_notification(control_tx: &Sender<ControlMsg>, msg: ControlMsg) -> (accepted: bool) {
    control_tx.send(msg).is_ok()
}

/// What every state behind a control handle satisfies: it is one that control operations
/// lead to from the state that the handle was made with.
pub struct ControlInvariant {
    pub start: ControlState,
}

impl RwLockPredicate<ControlState> for ControlInvariant {
    open spec fn inv(self, v: ControlState) -> bool {
        self.start.leads_to(v)
    }
}

struct SessionControlInner {
    /// Control state, shared by all clones of the handle.
    state: RwLock<ControlState, ControlInvariant>,
    /// Channel for waking the scheduler after control state changes.
    control_tx: Sender<ControlMsg>,
}

/// Thread-safe control handle for safety-critical actions.
///
/// Clones share one state, so another thread may act between any two calls. A look is stated
/// by [`reads`](SessionControl::reads): the result is that of a state that was read here. A
/// change is stated by [`exchanges`](SessionControl::exchanges): the state that was found is
/// replaced by what the operation makes of it. Every state that is found is one that control
/// operations lead to from [`started`](SessionControl::started); which one it is depends on
/// what other handles did meanwhile, and is not stated.
pub struct SessionControl {
    inner: Arc<SessionControlInner>,
}

impl Clone for SessionControl {
    /// Another handle on the same state and the same channel.
    fn clone(&self) -> (r: Self)
        ensures
            r == *self,
    {
        SessionControl { inner: self.inner.clone() }
    }
}

impl SessionControl {
    /// The state that the handle was made with.
    pub closed spec fn started(&self) -> ControlState {
        self.inner.state.pred().start
    }

    /// Taking the shared state may give `seen`, with a lock handle through which `next` may
    /// be put back in its place. A function shows this by taking the lock of this control
    /// handle and releasing it with `next`.
    pub closed spec fn exchanges<'a>(&'a self, seen: ControlState, next: ControlState) -> bool {
        exists|lock: WriteHandle<'a, ControlState, ControlInvariant>| #[trigger]
            call_ensures(
                RwLock::<ControlState, ControlInvariant>::acquire_write,
                (&self.inner.state,),
                (seen, lock),
            ) && call_ensures(
                WriteHandle::<'a, ControlState, ControlInvariant>::release_write,
                (lock, next),
                (),
            )
    }

    /// Looking at the shared state may show `seen`. A function shows this by taking the lock
    /// of this control handle for reading and releasing it again.
    pub closed spec fn reads<'a>(&'a self, seen: ControlState) -> bool {
        exists|lock: ReadHandle<'a, ControlState, ControlInvariant>| #[trigger]
            call_ensures(
                RwLock::<ControlState, ControlInvariant>::acquire_read,
                (&self.inner.state,),
                lock,
            ) && lock.view() == seen && call_ensures(
                ReadHandle::<'a, ControlState, ControlInvariant>::release_read,
                (lock,),
                (),
            )
    }

    /// The channel on which the scheduler is notified.
    pub closed spec fn channel(&self) -> Sender<ControlMsg> {
        self.inner.control_tx
    }

    /// Sending `msg` to the scheduler may give `accepted`. A function shows this by sending
    /// `msg` on the channel of this control handle.
    pub closed spec fn notifies(&self, msg: ControlMsg, accepted: bool) -> bool {
        call_ensures(send_notification, (&self.channel(), msg), accepted)
    }

    /// `op` is carried out on some state that the handles share: what was found is replaced
    /// by what `op` makes of it.
    pub open spec fn records(&self, op: ControlOp) -> bool {
        exists|seen: ControlState| #[trigger]
            self.exchanges(seen, seen.after(op)) && self.started().leads_to(seen)
    }

    /// `msg` is sent to the scheduler, and `r` is `Ok` just when it was accepted.
    pub open spec fn reports_delivery(&self, msg: ControlMsg, r: Result<(), Error>) -> bool {
        exists|accepted: bool| #[trigger]
            self.notifies(msg, accepted) && (r is Ok <==> accepted) && (r matches Err(e) ==> e@
                == ErrorView::Disconnected(undelivered_text(msg)))
    }

    proof fn lemma_exchanged<'a>(
        &'a self,
        lock: WriteHandle<'a, ControlState, ControlInvariant>,
        seen: ControlState,
        next: ControlState,
    )
        requires
            call_ensures(
                RwLock::<ControlState, ControlInvariant>::acquire_write,
                (&self.inner.state,),
                (seen, lock),
            ),
            call_ensures(
                WriteHandle::<'a, ControlState, ControlInvariant>::release_write,
                (lock, next),
                (),
            ),
        ensures
            self.exchanges(seen, next),
    {
    }

    /// A handle without limits on the rate.
    pub fn new(control_tx: Sender<ControlMsg>, color_delay: Duration, pps: u32) -> (r: Self)
        ensures
            r.started() == (ControlState {
                desired: DesiredState::of(0, false),
                stop_requested: false,
                color_delay,
                rate: RateState { pps, min: 0, max: u32::MAX },
            }),
            r.channel() == control_tx,
    {
        Self::new_with_pps_bounds(control_tx, color_delay, pps, 0, u32::MAX)
    }

    /// A handle for a disarmed session at rate `pps`, with the range of its backend.
    pub fn new_with_pps_bounds(
        control_tx: Sender<ControlMsg>,
        color_delay: Duration,
        pps: u32,
        pps_min: u32,
        pps_max: u32,
    ) -> (r: Self)
        ensures
            r.started() == (ControlState {
                desired: DesiredState::of(0, false),
                stop_requested: false,
                color_delay,
                rate: RateState { pps, min: pps_min, max: pps_max },
            }),
            r.channel() == control_tx,
    {
        let rate = RateState { pps, min: pps_min, max: pps_max };
        let state = ControlState::new(color_delay, rate);
        let ghost start = state;
        proof {
            assert(start.after_all(Seq::<ControlOp>::empty()) == start);
        }
        let lock = RwLock::<ControlState, ControlInvariant>::new(
            state,
            Ghost(ControlInvariant { start }),
        );
        SessionControl { inner: Arc::new(SessionControlInner { state: lock, control_tx }) }
    }

    fn set_desired_armed(&self, armed: bool) -> (r: Result<(), Error>)
        ensures
            self.records(ControlOp::SetArmed(armed)),
            self.reports_delivery(
                if armed {
                    ControlMsg::Arm
                } else {
                    ControlMsg::Disarm
                },
                r,
            ),
    {
        let (mut state, handle) = self.inner.state.acquire_write();
        let ghost seen = state;
        let ghost lock = handle;
        let msg = state.set_desired_armed(armed);
        proof {
            lemma_one_more(self.started(), seen, ControlOp::SetArmed(armed));
        }
        handle.release_write(state);
        proof {
            self.lemma_exchanged(lock, seen, state);
        }
        // Repeated requests do not advance the generation, but still attempt a wake so that
        // an earlier failed notification is never silently masked.
        let accepted = send_notification(&self.inner.control_tx, msg);
        assert(self.notifies(msg, accepted));
        delivery_result(msg, accepted)
    }

    /// Record an armed desired state and notify the scheduler.
    ///
    /// Success means that the state was recorded and the notification was accepted; it
    /// does not mean hardware completion.
    pub fn arm(&self) -> (r: Result<(), Error>)
        ensures
            self.records(ControlOp::SetArmed(true)),
            self.reports_delivery(ControlMsg::Arm, r),
    {
        self.set_desired_armed(true)
    }

    /// Record a disarmed desired state and notify the scheduler. Designed for E-stop use.
    ///
    /// Success means that the state was recorded and the notification was accepted; it
    /// does not confirm hardware completion, and points already queued can still play out.
    pub fn disarm(&self) -> (r: Result<(), Error>)
        ensures
            self.records(ControlOp::SetArmed(false)),
            self.reports_delivery(ControlMsg::Disarm, r),
    {
        self.set_desired_armed(false)
    }

    /// The desired arm state and its generation.
    pub fn desired_state(&self) -> (r: DesiredState)
        ensures
            exists|seen: ControlState| #[trigger]
                self.reads(seen) && self.started().leads_to(seen) && r == seen.desired,
    {
        let handle = self.inner.state.acquire_read();
        let ghost lock = handle;
        let desired = handle.borrow().desired;
        handle.release_read();
        assert(self.reads(lock.view()) && self.started().leads_to(lock.view()));
        desired
    }

    /// Whether output is desired.
    pub fn is_armed(&self) -> (r: bool)
        ensures
            exists|seen: ControlState| #[trigger]
                self.reads(seen) && self.started().leads_to(seen) && r == seen.desired.armed(),
    {
        self.desired_state().is_armed()
    }

    /// Set the color delay for scanner sync compensation.
    pub fn set_color_delay(&self, delay: Duration)
        ensures
            self.records(ControlOp::SetColorDelay(delay)),
    {
        let (mut state, handle) = self.inner.state.acquire_write();
        let ghost seen = state;
        let ghost lock = handle;
        state.set_color_delay(delay);
        proof {
            lemma_one_more(self.started(), seen, ControlOp::SetColorDelay(delay));
        }
        handle.release_write(state);
        proof {
            self.lemma_exchanged(lock, seen, state);
        }
    }

    /// The current color delay.
    pub fn color_delay(&self) -> (r: Duration)
        ensures
            exists|seen: ControlState| #[trigger]
                self.reads(seen) && self.started().leads_to(seen) && r == seen.color_delay,
    {
        let handle = self.inner.state.acquire_read();
        let ghost lock = handle;
        let delay = handle.borrow().color_delay;
        handle.release_read();
        assert(self.reads(lock.view()) && self.started().leads_to(lock.view()));
        delay
    }

    /// Set the rate. It is refused when it lies outside the range of the connected backend.
    pub fn set_pps(&self, pps: u32) -> (r: Result<(), Error>)
        ensures
            exists|seen: ControlState| #[trigger]
                self.exchanges(seen, seen.after(ControlOp::SetPps(pps))) && {
                    &&& self.started().leads_to(seen)
                    &&& r is Ok <==> seen.rate.min <= pps <= seen.rate.max
                    &&& r matches Err(e) ==> e@ == ErrorView::InvalidConfig(
                        rate_refused_text(pps, seen.rate.min, seen.rate.max),
                    )
                },
    {
        let (mut state, handle) = self.inner.state.acquire_write();
        let ghost seen = state;
        let ghost lock = handle;
        let r = state.rate.set_pps(pps);
        proof {
            lemma_one_more(self.started(), seen, ControlOp::SetPps(pps));
        }
        handle.release_write(state);
        proof {
            self.lemma_exchanged(lock, seen, state);
            assert(self.exchanges(seen, seen.after(ControlOp::SetPps(pps))));
        }
        r
    }

    /// Replace the rate range. It is refused when the current rate lies outside it.
    pub fn update_pps_bounds(&self, min: u32, max: u32) -> (r: Result<(), Error>)
        ensures
            exists|seen: ControlState| #[trigger]
                self.exchanges(seen, seen.after(ControlOp::SetBounds(min, max))) && {
                    &&& self.started().leads_to(seen)
                    &&& r is Ok <==> min <= seen.rate.pps <= max
                    &&& r matches Err(e) ==> e@ == ErrorView::InvalidConfig(
                        bounds_refused_text(seen.rate.pps, min, max),
                    )
                },
    {
        let (mut state, handle) = self.inner.state.acquire_write();
        let ghost seen = state;
        let ghost lock = handle;
        let r = state.rate.update_pps_bounds(min, max);
        proof {
            lemma_one_more(self.started(), seen, ControlOp::SetBounds(min, max));
        }
        handle.release_write(state);
        proof {
            self.lemma_exchanged(lock, seen, state);
            assert(self.exchanges(seen, seen.after(ControlOp::SetBounds(min, max))));
        }
        r
    }

    /// The current rate, in points per second.
    pub fn pps(&self) -> (r: u32)
        ensures
            exists|seen: ControlState| #[trigger]
                self.reads(seen) && self.started().leads_to(seen) && r == seen.rate.pps,
    {
        let handle = self.inner.state.acquire_read();
        let ghost lock = handle;
        let pps: u32 = handle.borrow().rate.pps;
        handle.release_read();
        assert(self.reads(lock.view()) && self.started().leads_to(lock.view()));
        pps
    }

    /// Record a stop request and notify the scheduler.
    ///
    /// Success means that the request was recorded and the notification was accepted;
    /// hardware closure is asynchronous and best-effort.
    pub fn stop(&self) -> (r: Result<(), Error>)
        ensures
            self.records(ControlOp::Stop),
            self.reports_delivery(ControlMsg::Stop, r),
    {
        let (mut state, handle) = self.inner.state.acquire_write();
        let ghost seen = state;
        let ghost lock = handle;
        let msg = state.stop();
        proof {
            lemma_one_more(self.started(), seen, ControlOp::Stop);
        }
        handle.release_write(state);
        proof {
            self.lemma_exchanged(lock, seen, state);
        }
        let accepted = send_notification(&self.inner.control_tx, msg);
        assert(self.notifies(msg, accepted));
        delivery_result(msg, accepted)
    }

    /// Whether a stop has been requested.
    pub fn is_stop_requested(&self) -> (r: bool)
        ensures
            exists|seen: ControlState| #[trigger]
                self.reads(seen) && self.started().leads_to(seen) && r == seen.stop_requested,
    {
        let handle = self.inner.state.acquire_read();
        let ghost lock = handle;
        let requested: bool = handle.borrow().stop_requested;
        handle.release_read();
        assert(self.reads(lock.view()) && self.started().leads_to(lock.view()));
        requested
    }
}

} // verus!
