//! When the poller fires: the first firing is aligned to the minute, the
//! later ones follow at a fixed period.

use vstd::prelude::*;
use vstd::arithmetic::div_mod::*;
use crate::clock::read_clock;
use crate::error::PollError;

verus! {

/// Nanoseconds in one second.
pub const NANOS_PER_SECOND: u32 = 1_000_000_000;

/// The seconds between two firings where none are chosen.
pub const DEFAULT_INTERVAL: u64 = 30;

/// A span of time, in whole seconds and a rest of less than one second.
#[derive(Clone, Copy, Debug, PartialEq, Eq, Structural)]
pub struct Delay {
    pub secs: u64,
    pub nanos: u32,
}

impl Delay {
    /// The rest is less than one second.
    pub open spec fn wf(self) -> bool {
        self.nanos < 1_000_000_000
    }

    /// The whole span in nanoseconds.
    pub open spec fn total_nanos(self) -> int {
        self.secs * 1_000_000_000 + self.nanos
    }
}

/// Seconds from the start of the current second to the first firing, for a
/// clock that shows `second` seconds within the minute.
pub open spec fn alignment_wait(interval: int, second: int) -> int
    recommends
        interval > 0,
{
    (interval - (second + interval) % interval) % 60
}

/// The inputs for which the first firing can be computed: a positive
/// interval whose sum with the clock's seconds fits 64 bits, a wait of at
/// least one second, and a clock that is not inside a leap second.
pub open spec fn schedulable(interval: int, second: int, nanosecond: int) -> bool {
    &&& interval > 0
    &&& second + interval <= u64::MAX
    &&& alignment_wait(interval, second) >= 1
    &&& nanosecond <= 1_000_000_000
}

/// Nanoseconds from now to the first firing: the wait less one second, and
/// what is left of the current second.
pub open spec fn first_fire_nanos(interval: int, second: int, nanosecond: int) -> int {
    (alignment_wait(interval, second) - 1) * 1_000_000_000 + (1_000_000_000 - nanosecond)
}

/// The delay from now to the first firing, or the failure to compute one.
pub open spec fn first_fire_spec(interval: int, second: int, nanosecond: int) -> Result<
    Delay,
    PollError,
> {
    if !schedulable(interval, second, nanosecond) {
        Err(PollError::Scheduler)
    } else if nanosecond == 0 {
        Ok(Delay { secs: alignment_wait(interval, second) as u64, nanos: 0 })
    } else {
        Ok(
            Delay {
                secs: (alignment_wait(interval, second) - 1) as u64,
                nanos: (1_000_000_000 - nanosecond) as u32,
            },
        )
    }
}

/// The offset of the `k`-th firing from the start of the current second, in
/// seconds: firings repeat every `interval` seconds, without correction.
pub open spec fn fire_offset(interval: int, second: int, k: nat) -> int {
    alignment_wait(interval, second) + k * interval
}

/// Computes the wait in seconds. Fails when the interval is zero or its sum
/// with `second` does not fit 64 bits.
pub fn wait_seconds(interval: u64, second: u32) -> (r: Result<u64, PollError>)
    ensures
        r is Ok <==> interval > 0 && second + interval <= u64::MAX,
        r is Ok ==> r->Ok_0 == alignment_wait(interval as int, second as int),
        r is Err ==> r->Err_0 == PollError::Scheduler,
{
    if interval == 0 {
        return Err(PollError::Scheduler);
    }
    match (second as u64).checked_add(interval) {
        None => Err(PollError::Scheduler),
        Some(sum) => {
            let rest: u64 = sum % interval;
            Ok((interval - rest) % 60)
        },
    }
}

/// Computes the delay from now to the first firing, for a clock that shows
/// `second` seconds within the minute and `nanosecond` nanoseconds within
/// the second. Fails exactly when the inputs are not `schedulable`.
pub fn first_fire_delay(interval: u64, second: u32, nanosecond: u32) -> (r: Result<
    Delay,
    PollError,
>)
    ensures
        r == first_fire_spec(interval as int, second as int, nanosecond as int),
{
    let wait: u64 = match wait_seconds(interval, second) {
        Ok(w) => w,
        Err(e) => {
            return Err(e);
        },
    };
    if wait == 0 || nanosecond > NANOS_PER_SECOND {
        return Err(PollError::Scheduler);
    }
    if nanosecond == 0 {
        Ok(Delay { secs: wait, nanos: 0 })
    } else {
        Ok(Delay { secs: wait - 1, nanos: NANOS_PER_SECOND - nanosecond })
    }
}

/// Computes the delay from now to the first firing for the clock as it
/// stands at this call. The outcome is that of `first_fire_delay` for the
/// second and nanosecond that the clock showed, and the clock never shows a
/// leap second. So an interval of zero fails whatever the clock shows, and
/// an interval of 1 to 59 seconds gives a delay whatever it shows: more than
/// nothing and no more than the interval.
pub fn first_fire_delay_now(interval: u64) -> (r: Result<Delay, PollError>)
    ensures
        exists|second: u32, nanosecond: u32|
            second < 60 && nanosecond < 1_000_000_000 && #[trigger] first_fire_spec(
                interval as int,
                second as int,
                nanosecond as int,
            ) == r,
        interval == 0 ==> r == Err::<Delay, PollError>(PollError::Scheduler),
        1 <= interval < 60 ==> r is Ok,
        1 <= interval <= 60 && r is Ok ==> r->Ok_0.wf() && 0 < r->Ok_0.total_nanos() <= interval
            * 1_000_000_000,
{
    let now = read_clock();
    proof {
        if 1 <= interval <= 60 {
            first_fire_fails_only_at_the_full_minute(
                interval as int,
                now.second as int,
                now.nanosecond as int,
            );
            wait_is_at_most_the_interval(interval as int, now.second as int);
        }
    }
    first_fire_delay(interval, now.second, now.nanosecond)
}

/// A delay that was computed keeps its rest under one second and spans
/// exactly the nanoseconds from now to the first firing.
pub proof fn first_fire_spans_the_wait(interval: int, second: int, nanosecond: int)
    requires
        0 <= second,
        0 <= nanosecond,
        first_fire_spec(interval, second, nanosecond) is Ok,
    ensures
        first_fire_spec(interval, second, nanosecond)->Ok_0.wf(),
        first_fire_spec(interval, second, nanosecond)->Ok_0.total_nanos() == first_fire_nanos(
            interval,
            second,
            nanosecond,
        ),
{
    lemma_mod_bound(interval - (second + interval) % interval, 60);
}

/// For an interval of 1 to 60 seconds the wait is less than a minute, and
/// the first firing falls on a multiple of the interval, counted in seconds
/// from the start of the current minute.
pub proof fn wait_aligns_first_fire(interval: int, second: int)
    requires
        1 <= interval <= 60,
        0 <= second < 60,
    ensures
        0 <= alignment_wait(interval, second) < 60,
        (second + alignment_wait(interval, second)) % interval == 0,
{
    let rest = (second + interval) % interval;
    let q = (second + interval) / interval;
    let wait = alignment_wait(interval, second);
    lemma_mod_bound(second + interval, interval);
    lemma_fundamental_div_mod(second + interval, interval);
    lemma_small_mod(0, interval as nat);
    if interval - rest == 60 {
        assert(second + wait == interval * (q - 1) + 0) by (nonlinear_arith)
            requires
                second + interval == interval * q,
                wait == 0,
        ;
        lemma_mod_multiples_vanish(q - 1, 0, interval);
    } else {
        assert(second + wait == interval * q + 0) by (nonlinear_arith)
            requires
                second + interval == interval * q + rest,
                wait == interval - rest,
        ;
        lemma_mod_multiples_vanish(q, 0, interval);
    }
}

/// For an interval of 1 to 60 seconds the wait is no longer than the
/// interval.
pub proof fn wait_is_at_most_the_interval(interval: int, second: int)
    requires
        1 <= interval <= 60,
        0 <= second,
    ensures
        0 <= alignment_wait(interval, second) <= interval,
{
    let rounded = interval - (second + interval) % interval;
    lemma_mod_bound(second + interval, interval);
    if rounded < 60 {
        lemma_small_mod(rounded as nat, 60);
    }
}

/// For an interval of 1 to 60 seconds, and a clock that is not inside a
/// leap second, the first firing can be computed but in one case: an
/// interval of a full minute at the very start of a minute, where the wait
/// is zero and one second less than the wait is no span of time.
pub proof fn first_fire_fails_only_at_the_full_minute(interval: int, second: int, nanosecond: int)
    requires
        1 <= interval <= 60,
        0 <= second < 60,
        0 <= nanosecond <= 1_000_000_000,
    ensures
        first_fire_spec(interval, second, nanosecond) is Err <==> interval == 60 && second == 0,
{
    lemma_mod_bound(second + interval, interval);
    if interval == 60 {
        lemma_mod_multiples_vanish(1, second, 60);
        lemma_small_mod(second as nat, 60);
    }
}

/// Where the interval divides the minute, every firing falls on a second
/// of its minute that is a multiple of the interval: with 30 seconds, on
/// :00 and :30.
pub proof fn fires_align_within_each_minute(interval: int, second: int)
    requires
        1 <= interval <= 60,
        60int % interval == 0,
        0 <= second < 60,
    ensures
        forall|k: nat|
            ((second + #[trigger] fire_offset(interval, second, k)) % 60) % interval == 0,
{
    let first = second + alignment_wait(interval, second);
    let per_minute = 60int / interval;
    wait_aligns_first_fire(interval, second);
    lemma_fundamental_div_mod(60int, interval);
    assert(per_minute > 0) by (nonlinear_arith)
        requires
            interval * per_minute == 60,
            interval >= 1,
    ;
    assert forall|k: nat|
        ((second + #[trigger] fire_offset(interval, second, k)) % 60) % interval == 0 by {
        let at = second + fire_offset(interval, second, k);
        // the k-th firing is a multiple of the interval
        assert(at == interval * (k as int) + first) by (nonlinear_arith)
            requires
                at == first + k * interval,
        ;
        lemma_mod_multiples_vanish(k as int, first, interval);
        // and so is its second within the minute, the minute being one too
        lemma_mod_mod(at, interval, per_minute);
    }
}

/// Where the interval does not divide the minute, the firings drift: the
/// first one past the end of the current minute falls on a second of its
/// minute that is no multiple of the interval.
pub proof fn fires_drift_otherwise(interval: int, second: int)
    requires
        1 <= interval <= 60,
        60int % interval != 0,
        0 <= second < 60,
    ensures
        exists|k: nat|
            ((second + #[trigger] fire_offset(interval, second, k)) % 60) % interval != 0,
{
    let first = second + alignment_wait(interval, second);
    let m = first / interval;
    let c = 60int / interval + 1;
    wait_aligns_first_fire(interval, second);
    lemma_fundamental_div_mod(first, interval);
    lemma_fundamental_div_mod(60int, interval);
    lemma_mod_bound(60int, interval);
    lemma_mod_bound(second + interval, interval);
    // `above` is the least multiple of the interval above 60, less than one
    // interval above it
    let above = interval * c;
    assert(above == interval * (60int / interval) + interval) by (nonlinear_arith)
        requires
            above == interval * c,
            c == 60int / interval + 1,
    ;
    // the first firing is a multiple of the interval too, and not above it
    assert(m <= c) by (nonlinear_arith)
        requires
            first == interval * m,
            above == interval * c,
            first <= 59 + interval,
            60 < above,
            interval >= 1,
    ;
    // so the firing that is c - m intervals later falls on `above`
    let k = (c - m) as nat;
    assert(second + fire_offset(interval, second, k) == above) by (nonlinear_arith)
        requires
            fire_offset(interval, second, k) == first - second + k * interval,
            first == interval * m,
            above == interval * c,
            k == c - m,
    ;
    // which stands at second above - 60 of its minute
    lemma_mod_multiples_vanish(1, above - 60, 60);
    lemma_small_mod((above - 60) as nat, 60);
    lemma_small_mod((above - 60) as nat, interval as nat);
}

/// The first firing falls on a whole second: the delay and the part of the
/// current second that has passed add up to the wait.
pub proof fn first_fire_lands_on_a_whole_second(interval: int, second: int, nanosecond: int)
    ensures
        first_fire_nanos(interval, second, nanosecond) + nanosecond == alignment_wait(
            interval,
            second,
        ) * 1_000_000_000,
{
}

} // verus!
