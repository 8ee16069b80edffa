//! Token buckets in exact arithmetic.
//!
//! Time is counted in nanoseconds, tokens in million-millionths of a token,
//! the rate and the capacity in thousandths of a token. A bucket never holds
//! less than nothing nor more than its capacity.

use vstd::arithmetic::div_mod::{
    lemma_fundamental_div_mod, lemma_fundamental_div_mod_converse, lemma_mod_pos_bound,
};
use vstd::prelude::*;

verus! {

/// Million-millionths in one token.
pub const PICO_PER_TOKEN: u128 = 1_000_000_000_000;

/// Million-millionths of a token in one thousandth.
pub const PICO_PER_MILLI: u128 = 1_000_000_000;

/// The pace and the size of every bucket: `rate_milli` thousandths of a
/// token flow in each second, and a bucket holds at most `capacity_milli`
/// thousandths.
#[derive(Debug, Clone, Copy, PartialEq, Eq, Structural)]
pub struct RateLimit {
    pub rate_milli: u64,
    pub capacity_milli: u64,
}

/// What one bucket holds and when it was last filled.
#[derive(Debug, Clone, Copy, PartialEq, Eq, Structural)]
pub struct BucketState {
    pub tokens_pico: u128,
    pub last_refill_ns: u64,
}

/// What an admitted request is told.
#[derive(Debug, Clone, Copy, PartialEq, Eq, Structural)]
pub struct RatePermit {
    pub capacity_milli: u64,
    pub tokens_pico: u128,
    pub rate_milli: u64,
}

/// What a rejected request is told.
#[derive(Debug, Clone, Copy, PartialEq, Eq, Structural)]
pub struct RateExceeded {
    pub capacity_milli: u64,
    pub tokens_pico: u128,
    pub rate_milli: u64,
}

/// `a / b` rounded upward, for a non-negative `a` and a positive `b`.
pub open spec fn ceil_div(a: int, b: int) -> int {
    (a + b - 1) / b
}

impl RateLimit {
    /// A rate above zero and a capacity of at least one token.
    pub open spec fn wf(self) -> bool {
        self.rate_milli > 0 && self.capacity_milli >= 1000
    }

    /// The capacity in million-millionths of a token.
    pub open spec fn capacity_pico(self) -> int {
        self.capacity_milli * 1_000_000_000
    }

    /// The limit of `rate_milli` thousandths a second and `capacity_milli`
    /// thousandths; five tokens a second where the rate is zero, ten tokens
    /// where the capacity is below one token.
    pub fn new(rate_milli: u64, capacity_milli: u64) -> (out: RateLimit)
        ensures
            out.wf(),
            out.rate_milli == if rate_milli > 0 {
                rate_milli
            } else {
                5000u64
            },
            out.capacity_milli == if capacity_milli >= 1000 {
                capacity_milli
            } else {
                10000u64
            },
    {
        RateLimit {
            rate_milli: if rate_milli > 0 {
                rate_milli
            } else {
                5000
            },
            capacity_milli: if capacity_milli >= 1000 {
                capacity_milli
            } else {
                10000
            },
        }
    }

    /// A full bucket at the time `now_ns`.
    pub fn full_bucket(&self, now_ns: u64) -> (out: BucketState)
        ensures
            out.tokens_pico == self.capacity_pico(),
            out.last_refill_ns == now_ns,
    {
        let cap: u128 = (self.capacity_milli as u128) * PICO_PER_MILLI;
        BucketState { tokens_pico: cap, last_refill_ns: now_ns }
    }
}

/// The bucket at the time `now`, before a token is taken: filled by what
/// flowed in since it was last filled, up to its capacity. A time that is
/// not later than the last filling changes nothing.
pub open spec fn refilled(limit: RateLimit, state: BucketState, now: u64) -> BucketState {
    if now > state.last_refill_ns {
        let grown = state.tokens_pico + (now - state.last_refill_ns) * limit.rate_milli;
        BucketState {
            tokens_pico: if grown >= limit.capacity_pico() {
                limit.capacity_pico() as u128
            } else {
                grown as u128
            },
            last_refill_ns: now,
        }
    } else {
        state
    }
}

/// Whether a request at the time `now` is admitted: the filled bucket holds a whole token.
pub open spec fn admits(limit: RateLimit, state: BucketState, now: u64) -> bool {
    refilled(limit, state, now).tokens_pico >= PICO_PER_TOKEN
}

/// The bucket after a request at the time `now`: filled, and one token
/// taken when the request is admitted.
pub open spec fn after_request(limit: RateLimit, state: BucketState, now: u64) -> BucketState {
    let filled = refilled(limit, state, now);
    if admits(limit, state, now) {
        BucketState {
            tokens_pico: (filled.tokens_pico - PICO_PER_TOKEN) as u128,
            last_refill_ns: filled.last_refill_ns,
        }
    } else {
        filled
    }
}

/// Whether the bucket holds no more than the capacity.
pub open spec fn in_range(limit: RateLimit, state: BucketState) -> bool {
    0 <= state.tokens_pico <= limit.capacity_pico()
}

/// A request on one bucket at the time `now_ns`: the bucket is filled, and
/// the request is admitted and takes a token when a whole token is there.
pub fn take_token(limit: &RateLimit, state: &mut BucketState, now_ns: u64) -> (out: Result<
    RatePermit,
    RateExceeded,
>)
    requires
        limit.wf(),
        in_range(*limit, *old(state)),
    ensures
        *final(state) == after_request(*limit, *old(state), now_ns),
        in_range(*limit, *final(state)),
        out is Ok <==> admits(*limit, *old(state), now_ns),
        out is Ok ==> out->Ok_0 == (RatePermit {
            capacity_milli: limit.capacity_milli,
            tokens_pico: final(state).tokens_pico,
            rate_milli: limit.rate_milli,
        }),
        out is Err ==> out->Err_0 == (RateExceeded {
            capacity_milli: limit.capacity_milli,
            tokens_pico: final(state).tokens_pico,
            rate_milli: limit.rate_milli,
        }),
{
    let cap: u128 = (limit.capacity_milli as u128) * PICO_PER_MILLI;
    if now_ns > state.last_refill_ns {
        let elapsed: u128 = (now_ns - state.last_refill_ns) as u128;
        let rate: u128 = limit.rate_milli as u128;
        assert(elapsed * rate <= 0xffff_ffff_ffff_ffff * 0xffff_ffff_ffff_ffff) by (nonlinear_arith)
            requires
                0 <= elapsed <= 0xffff_ffff_ffff_ffff,
                0 <= rate <= 0xffff_ffff_ffff_ffff,
        ;
        let inflow: u128 = elapsed * rate;
        let room: u128 = cap - state.tokens_pico;
        if inflow >= room {
            state.tokens_pico = cap;
        } else {
            state.tokens_pico = state.tokens_pico + inflow;
        }
        state.last_refill_ns = now_ns;
    }
    if state.tokens_pico >= PICO_PER_TOKEN {
        state.tokens_pico = state.tokens_pico - PICO_PER_TOKEN;
        Ok(
            RatePermit {
                capacity_milli: limit.capacity_milli,
                tokens_pico: state.tokens_pico,
                rate_milli: limit.rate_milli,
            },
        )
    } else {
        Err(
            RateExceeded {
                capacity_milli: limit.capacity_milli,
                tokens_pico: state.tokens_pico,
                rate_milli: limit.rate_milli,
            },
        )
    }
}

/// The whole seconds, rounded upward, in which `missing_pico` flows in at `rate_milli`.
pub open spec fn seconds_until(missing_pico: int, rate_milli: int) -> int {
    ceil_div(missing_pico, rate_milli * 1_000_000_000)
}

fn seconds_for(missing_pico: u128, rate_milli: u64) -> (out: u64)
    requires
        rate_milli > 0,
        missing_pico <= 0xffff_ffff_ffff_ffff * 1_000_000_000,
    ensures
        out == seconds_until(missing_pico as int, rate_milli as int),
{
    let per_second: u128 = (rate_milli as u128) * PICO_PER_MILLI;
    let s: u128 = (missing_pico + per_second - 1) / per_second;
    assert(s <= 0xffff_ffff_ffff_ffff) by (nonlinear_arith)
        requires
            s == (missing_pico + per_second - 1) / (per_second as int),
            per_second >= 1_000_000_000,
            missing_pico <= 0xffff_ffff_ffff_ffff * 1_000_000_000,
    ;
    s as u64
}

impl RatePermit {
    /// Whether the permit could have come from a bucket.
    pub open spec fn wf(self) -> bool {
        self.rate_milli > 0 && self.tokens_pico <= self.capacity_milli * 1_000_000_000
    }

    /// The whole tokens of the capacity.
    pub fn limit(&self) -> (out: u64)
        ensures
            out == self.capacity_milli / 1000,
    {
        self.capacity_milli / 1000
    }

    /// The whole tokens that are left.
    pub fn remaining(&self) -> (out: u64)
        requires
            self.wf(),
        ensures
            out == self.tokens_pico / PICO_PER_TOKEN,
    {
        (self.tokens_pico / PICO_PER_TOKEN) as u64
    }

    /// The whole seconds, rounded upward, until the bucket is full again.
    pub fn reset(&self) -> (out: u64)
        requires
            self.wf(),
        ensures
            out == seconds_until(
                self.capacity_milli * 1_000_000_000 - self.tokens_pico,
                self.rate_milli as int,
            ),
    {
        let cap: u128 = (self.capacity_milli as u128) * PICO_PER_MILLI;
        seconds_for(cap - self.tokens_pico, self.rate_milli)
    }
}

impl RateExceeded {
    /// Whether the rejection could have come from a bucket.
    pub open spec fn wf(self) -> bool {
        self.rate_milli > 0 && self.tokens_pico < PICO_PER_TOKEN && self.tokens_pico
            <= self.capacity_milli * 1_000_000_000
    }

    /// The whole tokens of the capacity.
    pub fn limit(&self) -> (out: u64)
        ensures
            out == self.capacity_milli / 1000,
    {
        self.capacity_milli / 1000
    }

    /// The whole tokens that are left: none.
    pub fn remaining(&self) -> (out: u64)
        ensures
            out == 0,
    {
        0
    }

    /// The whole seconds, rounded upward, until a whole token is there.
    pub fn retry_after(&self) -> (out: u64)
        requires
            self.wf(),
        ensures
            out == seconds_until(PICO_PER_TOKEN - self.tokens_pico, self.rate_milli as int),
    {
        seconds_for(PICO_PER_TOKEN - self.tokens_pico, self.rate_milli)
    }

    /// The whole seconds, rounded upward, until the bucket is full again.
    pub fn reset(&self) -> (out: u64)
        requires
            self.wf(),
        ensures
            out == seconds_until(
                self.capacity_milli * 1_000_000_000 - self.tokens_pico,
                self.rate_milli as int,
            ),
    {
        let cap: u128 = (self.capacity_milli as u128) * PICO_PER_MILLI;
        seconds_for(cap - self.tokens_pico, self.rate_milli)
    }
}

/// A bucket in range stays in range through every request, whatever its time.
pub proof fn lemma_tokens_stay_in_range(limit: RateLimit, state: BucketState, now: u64)
    requires
        limit.wf(),
        in_range(limit, state),
    ensures
        in_range(limit, after_request(limit, state, now)),
        in_range(limit, refilled(limit, state, now)),
{
}

/// The bucket after requests at the times `times`, in their order.
pub open spec fn after_requests(limit: RateLimit, state: BucketState, times: Seq<u64>) -> BucketState
    decreases times.len(),
{
    if times.len() == 0 {
        state
    } else {
        after_request(limit, after_requests(limit, state, times.drop_last()), times.last())
    }
}

/// A bucket in range stays in range through every sequence of requests.
pub proof fn lemma_tokens_stay_in_range_always(
    limit: RateLimit,
    state: BucketState,
    times: Seq<u64>,
)
    requires
        limit.wf(),
        in_range(limit, state),
    ensures
        in_range(limit, after_requests(limit, state, times)),
    decreases times.len(),
{
    if times.len() > 0 {
        lemma_tokens_stay_in_range_always(limit, state, times.drop_last());
        lemma_tokens_stay_in_range(
            limit,
            after_requests(limit, state, times.drop_last()),
            times.last(),
        );
    }
}

/// Whether the times never go back, start at `start` or later, and end
/// before a whole token has flowed in since `start`.
pub open spec fn within_burst(limit: RateLimit, start: u64, times: Seq<u64>) -> bool {
    &&& forall|i: int| 0 <= i < times.len() ==> start <= #[trigger] times[i]
    &&& forall|i: int, j: int| 0 <= i <= j < times.len() ==> times[i] <= times[j]
    &&& forall|i: int|
        0 <= i < times.len() ==> (#[trigger] times[i] - start) * limit.rate_milli
            < PICO_PER_TOKEN
}

proof fn lemma_burst_bounds(limit: RateLimit, start: u64, times: Seq<u64>)
    requires
        limit.wf(),
        limit.capacity_milli % 1000 == 0,
        within_burst(limit, start, times),
        times.len() <= limit.capacity_milli / 1000,
    ensures
        ({
            let state = after_requests(limit, limit_full(limit, start), times);
            &&& state.tokens_pico >= limit.capacity_pico() - times.len() * PICO_PER_TOKEN
            &&& state.tokens_pico <= limit.capacity_pico() - times.len() * PICO_PER_TOKEN + (
            state.last_refill_ns - start) * limit.rate_milli
            &&& start <= state.last_refill_ns
            &&& times.len() > 0 ==> state.last_refill_ns <= times.last()
            &&& times.len() == 0 ==> state.last_refill_ns == start
            &&& forall|i: int|
                0 <= i < times.len() ==> admits(
                    limit,
                    after_requests(limit, limit_full(limit, start), times.take(i)),
                    #[trigger] times[i],
                )
        }),
    decreases times.len(),
{
    let full = limit_full(limit, start);
    if times.len() > 0 {
        let before = times.drop_last();
        let now = times.last();
        assert(within_burst(limit, start, before)) by {
            assert forall|i: int| 0 <= i < before.len() implies start <= #[trigger] before[i] by {
                assert(before[i] == times[i]);
            }
            assert forall|i: int, j: int| 0 <= i <= j < before.len() implies before[i]
                <= before[j] by {
                assert(before[i] == times[i] && before[j] == times[j]);
            }
            assert forall|i: int| 0 <= i < before.len() implies (#[trigger] before[i] - start)
                * limit.rate_milli < PICO_PER_TOKEN by {
                assert(before[i] == times[i]);
            }
        }
        lemma_burst_bounds(limit, start, before);
        let prev = after_requests(limit, full, before);
        let k = before.len() as int;
        let cap = limit.capacity_pico();
        let rate = limit.rate_milli as int;
        assert(cap == (limit.capacity_milli / 1000) * PICO_PER_TOKEN) by (nonlinear_arith)
            requires
                cap == limit.capacity_milli * 1_000_000_000,
                limit.capacity_milli % 1000 == 0,
                PICO_PER_TOKEN == 1_000_000_000_000,
        ;
        assert((k + 1) * PICO_PER_TOKEN <= cap) by (nonlinear_arith)
            requires
                k + 1 <= limit.capacity_milli / 1000,
                cap == (limit.capacity_milli / 1000) * PICO_PER_TOKEN,
                PICO_PER_TOKEN == 1_000_000_000_000,
        ;
        assert(prev.last_refill_ns <= now) by {
            if k > 0 {
                assert(before.last() == times[k - 1]);
                assert(times[k - 1] <= times[k]);
            }
            assert(times[k] == now);
        }
        let filled = refilled(limit, prev, now);
        assert((times[k] - start) * rate < PICO_PER_TOKEN);
        if now > prev.last_refill_ns {
            assert(prev.tokens_pico + (now - prev.last_refill_ns) * rate <= cap - k
                * PICO_PER_TOKEN + (now - start) * rate) by (nonlinear_arith)
                requires
                    prev.tokens_pico <= cap - k * PICO_PER_TOKEN + (prev.last_refill_ns - start)
                        * rate,
            ;
            assert((now - prev.last_refill_ns) * rate >= 0) by (nonlinear_arith)
                requires
                    now > prev.last_refill_ns,
                    rate > 0,
            ;
        }
        assert(filled.tokens_pico >= cap - k * PICO_PER_TOKEN);
        assert(filled.tokens_pico <= cap - k * PICO_PER_TOKEN + (filled.last_refill_ns - start)
            * rate);
        assert(admits(limit, prev, now));
        assert(times.take(k) =~= before);
        assert forall|i: int| 0 <= i < times.len() implies admits(
            limit,
            after_requests(limit, full, times.take(i)),
            #[trigger] times[i],
        ) by {
            if i < k {
                assert(before.take(i) =~= times.take(i));
                assert(before[i] == times[i]);
            }
        }
        assert((k + 1) * PICO_PER_TOKEN == k * PICO_PER_TOKEN + PICO_PER_TOKEN)
            by (nonlinear_arith);
    } else {
        assert((start - start) * limit.rate_milli == 0);
    }
}

/// A full bucket at the time `start`.
pub open spec fn limit_full(limit: RateLimit, start: u64) -> BucketState {
    BucketState { tokens_pico: limit.capacity_pico() as u128, last_refill_ns: start }
}

/// The wait for a whole token, in whole seconds rounded upward, is that of
/// a thousand thousandths at the rate.
proof fn lemma_whole_token_wait(rate: int)
    requires
        rate > 0,
    ensures
        seconds_until(PICO_PER_TOKEN as int, rate) == ceil_div(1000, rate),
        rate >= 1000 ==> ceil_div(1000, rate) == 1,
{
    let x = 1000 + rate - 1;
    let q = x / rate;
    let r = x % rate;
    lemma_fundamental_div_mod(x, rate);
    lemma_mod_pos_bound(x, rate);
    let d = rate * 1_000_000_000;
    let big = PICO_PER_TOKEN + d - 1;
    let rest = 1_000_000_000 * (r + 1) - 1;
    assert(big == q * d + rest) by (nonlinear_arith)
        requires
            x == rate * q + r,
            x == 1000 + rate - 1,
            d == rate * 1_000_000_000,
            big == 1_000_000_000_000 + d - 1,
            rest == 1_000_000_000 * (r + 1) - 1,
    ;
    assert(0 <= rest < d) by (nonlinear_arith)
        requires
            0 <= r < rate,
            d == rate * 1_000_000_000,
            rest == 1_000_000_000 * (r + 1) - 1,
    ;
    lemma_fundamental_div_mod_converse(big, d, q, rest);
    if rate >= 1000 {
        lemma_fundamental_div_mod_converse(x, rate, 1, 999);
    }
}

/// From a full bucket of a whole number of tokens, with requests so close
/// together that no whole token flows in meanwhile: as many requests as the
/// capacity has tokens are all admitted, and the next one is rejected. Where
/// at least one token flows in each second, or where no time has passed at
/// all, the rejected request is told to come back after the time in which
/// one token flows in, in whole seconds rounded upward.
pub proof fn lemma_burst_admits_capacity_then_rejects(
    limit: RateLimit,
    start: u64,
    times: Seq<u64>,
)
    requires
        limit.wf(),
        limit.capacity_milli % 1000 == 0,
        within_burst(limit, start, times),
        times.len() == limit.capacity_milli / 1000 + 1,
    ensures
        forall|i: int|
            0 <= i < times.len() - 1 ==> admits(
                limit,
                after_requests(limit, limit_full(limit, start), times.take(i)),
                #[trigger] times[i],
            ),
        !admits(
            limit,
            after_requests(limit, limit_full(limit, start), times.drop_last()),
            times.last(),
        ),
        (limit.rate_milli >= 1000 || times.last() == start) ==> seconds_until(
            PICO_PER_TOKEN - after_requests(limit, limit_full(limit, start), times).tokens_pico,
            limit.rate_milli as int,
        ) == ceil_div(1000, limit.rate_milli as int),
{
    let full = limit_full(limit, start);
    let before = times.drop_last();
    let now = times.last();
    let n = before.len() as int;
    assert(within_burst(limit, start, before)) by {
        assert forall|i: int| 0 <= i < before.len() implies start <= #[trigger] before[i] by {
            assert(before[i] == times[i]);
        }
        assert forall|i: int, j: int| 0 <= i <= j < before.len() implies before[i]
            <= before[j] by {
            assert(before[i] == times[i] && before[j] == times[j]);
        }
        assert forall|i: int| 0 <= i < before.len() implies (#[trigger] before[i] - start)
            * limit.rate_milli < PICO_PER_TOKEN by {
            assert(before[i] == times[i]);
        }
    }
    lemma_burst_bounds(limit, start, before);
    let prev = after_requests(limit, full, before);
    let cap = limit.capacity_pico();
    let rate = limit.rate_milli as int;
    assert(cap == n * PICO_PER_TOKEN) by (nonlinear_arith)
        requires
            cap == limit.capacity_milli * 1_000_000_000,
            limit.capacity_milli % 1000 == 0,
            n == limit.capacity_milli / 1000,
            PICO_PER_TOKEN == 1_000_000_000_000,
    ;
    assert(prev.last_refill_ns <= now) by {
        if n > 0 {
            assert(before.last() == times[n - 1]);
            assert(times[n - 1] <= times[n]);
        }
        assert(times[n] == now);
    }
    assert((times[n] - start) * rate < PICO_PER_TOKEN);
    let filled = refilled(limit, prev, now);
    if now > prev.last_refill_ns {
        assert(prev.tokens_pico + (now - prev.last_refill_ns) * rate <= (now - start) * rate)
            by (nonlinear_arith)
            requires
                prev.tokens_pico <= cap - n * PICO_PER_TOKEN + (prev.last_refill_ns - start)
                    * rate,
                cap == n * PICO_PER_TOKEN,
        ;
    } else {
        assert((prev.last_refill_ns - start) * rate <= (now - start) * rate) by (nonlinear_arith)
            requires
                prev.last_refill_ns <= now,
                rate > 0,
        ;
    }
    assert(filled.tokens_pico < PICO_PER_TOKEN);
    assert forall|i: int| 0 <= i < times.len() - 1 implies admits(
        limit,
        after_requests(limit, full, times.take(i)),
        #[trigger] times[i],
    ) by {
        assert(before.take(i) =~= times.take(i));
        assert(before[i] == times[i]);
    }
    assert(after_requests(limit, full, times) == filled);
    lemma_whole_token_wait(rate);
    if limit.rate_milli >= 1000 {
        let missing = PICO_PER_TOKEN - filled.tokens_pico;
        let per = rate * 1_000_000_000;
        assert(0 < missing <= PICO_PER_TOKEN);
        assert(per >= PICO_PER_TOKEN);
        assert((missing + per - 1) / per == 1) by (nonlinear_arith)
            requires
                0 < missing <= per,
        ;
    } else if times.last() == start {
        assert(prev.last_refill_ns == start);
        assert((prev.last_refill_ns - start) * rate == 0) by (nonlinear_arith)
            requires
                prev.last_refill_ns == start,
        ;
        assert(filled.tokens_pico == 0);
    }
}

} // verus!
