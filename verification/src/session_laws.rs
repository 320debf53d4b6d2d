//! What a session's control does, told field by field and number by number.
use std::sync::mpsc::Sender;
use std::time::Duration;

use vstd::prelude::*;

use crate::error::{Error, ErrorView};
use crate::session::{
    delivery_result, ControlMsg, ControlOp, ControlState, DesiredState, RateState, SessionControl,
};
use crate::text;

verus! {

/// What a request for `armed` makes of a desired state: the low bit becomes the request; if it
/// was not that already, the count in the other 63 bits goes up by one and starts over at zero.
pub open spec fn word_after(word: u64, armed: bool) -> int {
    if armed == (word % 2 == 1) {
        word as int
    } else {
        2 * ((word as int / 2 + 1) % 0x8000_0000_0000_0000) + if armed {
            1int
        } else {
            0
        }
    }
}

/// Law: a desired state is disarmed and counts no edge at first, says output is desired just
/// if its low bit is set, and counts an edge just for a request that changes this bit.
pub proof fn a_desired_state_counts_edges(
    state: DesiredState,
    armed: bool,
    first: DesiredState,
    wanted: bool,
    next: DesiredState,
)
    requires
        call_ensures(DesiredState::initial, (), first),
        call_ensures(DesiredState::is_armed, (state,), wanted),
        call_ensures(DesiredState::request, (state, armed), next),
    ensures
        first.0 == 0,
        wanted <==> state.0 % 2 == 1,
        next.0 == word_after(state.0, armed),
        next.0 % 2 == 1 <==> armed,
        next.0 == state.0 <==> wanted == armed,
{
    lemma_word(state, armed);
}

/// A request, as a number.
pub proof fn lemma_word(state: DesiredState, armed: bool)
    ensures
        state.requested(armed).0 == word_after(state.0, armed),
        word_after(state.0, armed) % 2 == 1 <==> armed,
        word_after(state.0, armed) == state.0 <==> (state.0 % 2 == 1) == armed,
{
    let g = state.0 as int / 2;
    if g + 1 < 0x8000_0000_0000_0000 {
        assert((g + 1) % 0x8000_0000_0000_0000 == g + 1);
    } else {
        assert(g + 1 == 0x8000_0000_0000_0000);
        assert((g + 1) % 0x8000_0000_0000_0000 == 0);
    }
}

/// Law: a rate is set just if it lies in the range, and then nothing but the rate changes; a
/// refused one changes nothing and is reported with the rate and the range in force.
pub proof fn a_rate_is_set_within_the_range(
    rate: &mut RateState,
    pps: u32,
    r: Result<(), Error>,
)
    requires
        call_ensures(RateState::set_pps, (rate, pps), r),
    ensures
        final(rate).min == old(rate).min,
        final(rate).max == old(rate).max,
        r is Ok <==> old(rate).min <= pps && pps <= old(rate).max,
        r is Ok ==> final(rate).pps == pps,
        r is Err ==> final(rate).pps == old(rate).pps,
        r matches Err(e) ==> e@ == ErrorView::InvalidConfig(
            "PPS "@ + text::decimal(pps as nat) + " outside active backend range ["@
                + text::decimal(old(rate).min as nat) + ", "@ + text::decimal(
                old(rate).max as nat,
            ) + "]"@,
        ),
{
}

/// Law: a range is set just if the active rate lies in it, and then nothing but the range
/// changes; a refused one changes nothing and is reported with the active rate.
pub proof fn a_range_is_set_around_the_rate(
    rate: &mut RateState,
    min: u32,
    max: u32,
    r: Result<(), Error>,
)
    requires
        call_ensures(RateState::update_pps_bounds, (rate, min, max), r),
    ensures
        final(rate).pps == old(rate).pps,
        r is Ok <==> min <= old(rate).pps && old(rate).pps <= max,
        r is Ok ==> final(rate).min == min && final(rate).max == max,
        r is Err ==> final(rate).min == old(rate).min && final(rate).max == old(rate).max,
        r matches Err(e) ==> e@ == ErrorView::InvalidConfig(
            "current PPS "@ + text::decimal(old(rate).pps as nat)
                + " outside replacement backend range ["@ + text::decimal(min as nat) + ", "@
                + text::decimal(max as nat) + "]"@,
        ),
{
}

/// What an operation makes of a state, field by field.
pub open spec fn makes(op: ControlOp, seen: ControlState, next: ControlState) -> bool {
    match op {
        ControlOp::SetArmed(armed) => {
            &&& next.desired.0 == word_after(seen.desired.0, armed)
            &&& next.stop_requested == seen.stop_requested
            &&& next.color_delay == seen.color_delay
            &&& next.rate == seen.rate
        },
        ControlOp::Stop => {
            &&& next.stop_requested
            &&& next.desired == seen.desired
            &&& next.color_delay == seen.color_delay
            &&& next.rate == seen.rate
        },
        ControlOp::SetPps(pps) => {
            &&& next.rate.pps == if seen.rate.min <= pps && pps <= seen.rate.max {
                pps
            } else {
                seen.rate.pps
            }
            &&& next.rate.min == seen.rate.min
            &&& next.rate.max == seen.rate.max
            &&& next.desired == seen.desired
            &&& next.stop_requested == seen.stop_requested
            &&& next.color_delay == seen.color_delay
        },
        ControlOp::SetBounds(min, max) => {
            &&& next.rate.pps == seen.rate.pps
            &&& (next.rate.min, next.rate.max) == if min <= seen.rate.pps && seen.rate.pps <= max {
                (min, max)
            } else {
                (seen.rate.min, seen.rate.max)
            }
            &&& next.desired == seen.desired
            &&& next.stop_requested == seen.stop_requested
            &&& next.color_delay == seen.color_delay
        },
        ControlOp::SetColorDelay(delay) => {
            &&& next.color_delay == delay
            &&& next.desired == seen.desired
            &&& next.stop_requested == seen.stop_requested
            &&& next.rate == seen.rate
        },
    }
}

/// Law: an operation changes what it is about, and nothing else.
pub proof fn an_operation_changes_one_thing(seen: ControlState, op: ControlOp)
    ensures
        makes(op, seen, seen.after(op)),
{
    if let ControlOp::SetArmed(armed) = op {
        lemma_word(seen.desired, armed);
    }
}

/// Law: a stop is requested just if it was so at the start or one of the operations was a
/// stop.
pub proof fn only_a_stop_requests_a_stop(start: ControlState, ops: Seq<ControlOp>)
    ensures
        start.after_all(ops).stop_requested <==> start.stop_requested || exists|i: int|
            0 <= i < ops.len() && #[trigger] ops[i] is Stop,
    decreases ops.len(),
{
    if ops.len() > 0 {
        let init = ops.drop_last();
        only_a_stop_requests_a_stop(start, init);
        if exists|i: int| 0 <= i < init.len() && #[trigger] init[i] is Stop {
            let i = choose|i: int| 0 <= i < init.len() && #[trigger] init[i] is Stop;
            assert(ops[i] == init[i]);
        }
        if ops.last() is Stop {
            assert(ops[ops.len() - 1] is Stop);
        }
        if exists|i: int| 0 <= i < ops.len() && #[trigger] ops[i] is Stop {
            let i = choose|i: int| 0 <= i < ops.len() && #[trigger] ops[i] is Stop;
            if i < init.len() {
                assert(init[i] == ops[i]);
            }
        }
    }
}

/// The requests for output on or off among some operations, in order.
pub open spec fn requests_among(ops: Seq<ControlOp>) -> Seq<bool>
    decreases ops.len(),
{
    if ops.len() == 0 {
        seq![]
    } else {
        match ops.last() {
            ControlOp::SetArmed(armed) => requests_among(ops.drop_last()).push(armed),
            _ => requests_among(ops.drop_last()),
        }
    }
}

/// Law: the desired state is what the requests for output on or off make of it, in order and
/// each of them once; no other operation touches it.
pub proof fn only_arm_requests_change_the_desired_state(start: ControlState, ops: Seq<ControlOp>)
    ensures
        start.after_all(ops).desired == crate::session::after_requests(
            start.desired,
            requests_among(ops),
        ),
    decreases ops.len(),
{
    if ops.len() > 0 {
        only_arm_requests_change_the_desired_state(start, ops.drop_last());
        if let ControlOp::SetArmed(armed) = ops.last() {
            let earlier = requests_among(ops.drop_last());
            assert(earlier.push(armed).drop_last() =~= earlier);
        }
    }
}

/// Law: the control state of a fresh session is disarmed, has seen no edge and no stop, and has
/// the color delay and the rate that it was made with.
pub proof fn a_fresh_session_is_disarmed(color_delay: Duration, rate: RateState, r: ControlState)
    requires
        call_ensures(ControlState::new, (color_delay, rate), r),
    ensures
        r.desired.0 == 0,
        !r.stop_requested,
        r.color_delay == color_delay,
        r.rate == rate,
{
}

/// Law: recording a request changes what it is about, and nothing else, and owes the
/// scheduler the message of its kind, for a repeated request too.
pub proof fn recording_owes_a_message(
    armed: bool,
    a: &mut ControlState,
    told: ControlMsg,
    b: &mut ControlState,
    stopped: ControlMsg,
    c: &mut ControlState,
    delay: Duration,
)
    requires
        call_ensures(ControlState::set_desired_armed, (a, armed), told),
        call_ensures(ControlState::stop, (b,), stopped),
        call_ensures(ControlState::set_color_delay, (c, delay), ()),
    ensures
        makes(ControlOp::SetArmed(armed), *old(a), *final(a)),
        armed ==> told == ControlMsg::Arm,
        !armed ==> told == ControlMsg::Disarm,
        makes(ControlOp::Stop, *old(b), *final(b)),
        stopped == ControlMsg::Stop,
        makes(ControlOp::SetColorDelay(delay), *old(c), *final(c)),
{
    lemma_word(old(a).desired, armed);
}

/// What a request returns for a message: success just if it was accepted, and otherwise that
/// the request is recorded but the scheduler was not told.
pub open spec fn returns_for(msg: ControlMsg, accepted: bool, r: Result<(), Error>) -> bool {
    match r {
        Ok(_) => accepted,
        Err(e) => !accepted && e@ == ErrorView::Disconnected(
            if msg == ControlMsg::Stop {
                "session stop recorded, but scheduler notification failed"@
            } else {
                "desired session state recorded, but scheduler notification failed"@
            },
        ),
    }
}

/// Law: an accepted message is a success, and any other is reported as recorded but not
/// delivered.
pub proof fn an_undelivered_message_is_reported(
    msg: ControlMsg,
    accepted: bool,
    r: Result<(), Error>,
)
    requires
        call_ensures(delivery_result, (msg, accepted), r),
    ensures
        returns_for(msg, accepted, r),
{
}

/// Law: a control handle starts disarmed, without a stop, at its rate, with its color delay and
/// its channel, and with the range it is given, or with every rate allowed if it is given none.
/// A clone is the same handle.
pub proof fn a_control_starts_as_it_is_made(
    tx: Sender<ControlMsg>,
    delay: Duration,
    pps: u32,
    min: u32,
    max: u32,
    a: SessionControl,
    b: SessionControl,
    c: SessionControl,
)
    requires
        call_ensures(SessionControl::new, (tx, delay, pps), a),
        call_ensures(SessionControl::new_with_pps_bounds, (tx, delay, pps, min, max), b),
        call_ensures(SessionControl::clone, (&a,), c),
    ensures
        a.channel() == tx && b.channel() == tx,
        a.started().desired.0 == 0 && b.started().desired.0 == 0,
        !a.started().stop_requested && !b.started().stop_requested,
        a.started().color_delay == delay && b.started().color_delay == delay,
        a.started().rate.pps == pps && b.started().rate.pps == pps,
        a.started().rate.min == 0 && a.started().rate.max == 0xffff_ffff,
        b.started().rate.min == min && b.started().rate.max == max,
        c == a,
{
}

/// An operation is carried out on the shared state: what was found is replaced by what the
/// operation makes of it, field by field.
pub open spec fn carries_out(control: SessionControl, op: ControlOp) -> bool {
    exists|seen: ControlState, next: ControlState| #[trigger]
        control.exchanges(seen, next) && control.started().leads_to(seen) && makes(op, seen, next)
}

/// A message is sent on the channel of the control, and the result is that of the delivery.
pub open spec fn tells(control: SessionControl, msg: ControlMsg, r: Result<(), Error>) -> bool {
    exists|accepted: bool| #[trigger]
        control.notifies(msg, accepted) && returns_for(msg, accepted, r)
}

proof fn lemma_carried_out(control: SessionControl, op: ControlOp)
    requires
        control.records(op),
    ensures
        carries_out(control, op),
{
    let seen = choose|seen: ControlState| #[trigger]
        control.exchanges(seen, seen.after(op)) && control.started().leads_to(seen);
    an_operation_changes_one_thing(seen, op);
    assert(control.exchanges(seen, seen.after(op)));
}

/// Law: an arm, a disarm and a stop each record their own request in the shared state and tell
/// the scheduler with the message of their own kind; a color delay is recorded as it is.
pub proof fn requests_are_recorded_and_told(
    control: SessionControl,
    armed: Result<(), Error>,
    disarmed: Result<(), Error>,
    stopped: Result<(), Error>,
    delay: Duration,
)
    requires
        call_ensures(SessionControl::arm, (&control,), armed),
        call_ensures(SessionControl::disarm, (&control,), disarmed),
        call_ensures(SessionControl::stop, (&control,), stopped),
        call_ensures(SessionControl::set_color_delay, (&control, delay), ()),
    ensures
        carries_out(control, ControlOp::SetArmed(true)),
        tells(control, ControlMsg::Arm, armed),
        carries_out(control, ControlOp::SetArmed(false)),
        tells(control, ControlMsg::Disarm, disarmed),
        carries_out(control, ControlOp::Stop),
        tells(control, ControlMsg::Stop, stopped),
        carries_out(control, ControlOp::SetColorDelay(delay)),
{
    lemma_carried_out(control, ControlOp::SetArmed(true));
    lemma_carried_out(control, ControlOp::SetArmed(false));
    lemma_carried_out(control, ControlOp::Stop);
    lemma_carried_out(control, ControlOp::SetColorDelay(delay));
}

/// Law: a rate is taken just if it lies in the range found in the shared state, and a range
/// just if the rate found lies in it; the state is then replaced accordingly, and a refusal
/// names what was found.
pub proof fn rates_and_ranges_are_recorded(
    control: SessionControl,
    pps: u32,
    rated: Result<(), Error>,
    min: u32,
    max: u32,
    ranged: Result<(), Error>,
)
    requires
        call_ensures(SessionControl::set_pps, (&control, pps), rated),
        call_ensures(SessionControl::update_pps_bounds, (&control, min, max), ranged),
    ensures
        exists|seen: ControlState, next: ControlState| #[trigger]
            control.exchanges(seen, next) && control.started().leads_to(seen) && makes(
                ControlOp::SetPps(pps),
                seen,
                next,
            ) && match rated {
                Ok(_) => seen.rate.min <= pps && pps <= seen.rate.max,
                Err(e) => (pps < seen.rate.min || seen.rate.max < pps) && e@
                    == ErrorView::InvalidConfig(
                    "PPS "@ + text::decimal(pps as nat) + " outside active backend range ["@
                        + text::decimal(seen.rate.min as nat) + ", "@ + text::decimal(
                        seen.rate.max as nat,
                    ) + "]"@,
                ),
            },
        exists|seen: ControlState, next: ControlState| #[trigger]
            control.exchanges(seen, next) && control.started().leads_to(seen) && makes(
                ControlOp::SetBounds(min, max),
                seen,
                next,
            ) && match ranged {
                Ok(_) => min <= seen.rate.pps && seen.rate.pps <= max,
                Err(e) => (seen.rate.pps < min || max < seen.rate.pps) && e@
                    == ErrorView::InvalidConfig(
                    "current PPS "@ + text::decimal(seen.rate.pps as nat)
                        + " outside replacement backend range ["@ + text::decimal(min as nat)
                        + ", "@ + text::decimal(max as nat) + "]"@,
                ),
            },
{
    let a = choose|seen: ControlState| #[trigger]
        control.exchanges(seen, seen.after(ControlOp::SetPps(pps))) && {
            &&& control.started().leads_to(seen)
            &&& rated is Ok <==> seen.rate.min <= pps <= seen.rate.max
            &&& rated matches Err(e) ==> e@ == ErrorView::InvalidConfig(
                crate::session::rate_refused_text(pps, seen.rate.min, seen.rate.max),
            )
        };
    an_operation_changes_one_thing(a, ControlOp::SetPps(pps));
    let b = choose|seen: ControlState| #[trigger]
        control.exchanges(seen, seen.after(ControlOp::SetBounds(min, max))) && {
            &&& control.started().leads_to(seen)
            &&& ranged is Ok <==> min <= seen.rate.pps <= max
            &&& ranged matches Err(e) ==> e@ == ErrorView::InvalidConfig(
                crate::session::bounds_refused_text(seen.rate.pps, min, max),
            )
        };
    an_operation_changes_one_thing(b, ControlOp::SetBounds(min, max));
    assert(control.exchanges(a, a.after(ControlOp::SetPps(pps))));
    assert(control.exchanges(b, b.after(ControlOp::SetBounds(min, max))));
}

/// Law: each look shows its own part of a state that was read from the shared one.
pub proof fn a_look_shows_its_own_part(
    control: SessionControl,
    desired: DesiredState,
    armed: bool,
    delay: Duration,
    pps: u32,
    stopped: bool,
)
    requires
        call_ensures(SessionControl::desired_state, (&control,), desired),
        call_ensures(SessionControl::is_armed, (&control,), armed),
        call_ensures(SessionControl::color_delay, (&control,), delay),
        call_ensures(SessionControl::pps, (&control,), pps),
        call_ensures(SessionControl::is_stop_requested, (&control,), stopped),
    ensures
        exists|seen: ControlState| #[trigger]
            control.reads(seen) && control.started().leads_to(seen) && desired == seen.desired,
        exists|seen: ControlState| #[trigger]
            control.reads(seen) && control.started().leads_to(seen) && (armed
                <==> seen.desired.0 % 2 == 1),
        exists|seen: ControlState| #[trigger]
            control.reads(seen) && control.started().leads_to(seen) && delay == seen.color_delay,
        exists|seen: ControlState| #[trigger]
            control.reads(seen) && control.started().leads_to(seen) && pps == seen.rate.pps,
        exists|seen: ControlState| #[trigger]
            control.reads(seen) && control.started().leads_to(seen) && stopped
                == seen.stop_requested,
{
}

} // verus!
