//! Vesting schedules and the linear-vesting arithmetic.
//!
//! A [`VestingSchedule`] releases `total_amount` tokens linearly between
//! `start_time` and `end_time` (millisecond Unix timestamps). The vested
//! amount at an instant is `floor(total_amount * elapsed / duration)`,
//! computed multiply-before-divide so no precision is lost, with the
//! product clamped to `u128::MAX` so the computation never traps.

use vstd::arithmetic::div_mod::{
    lemma_div_is_ordered, lemma_div_multiples_vanish, lemma_div_multiples_vanish_fancy,
    lemma_fundamental_div_mod,
};
use vstd::arithmetic::mul::lemma_mul_inequality;
use vstd::prelude::*;

verus! {

/// Quantity of tokens.
pub type Balance = u128;

/// Opaque fixed-width beneficiary identifier.
pub type AccountId = u64;

/// Everything a ledger operation can fail with.
#[derive(Clone, Copy, Debug, PartialEq, Eq, Structural)]
pub enum Error {
    /// Caller is not the owner of the ledger.
    Unauthorized,
    /// Creation requested with `start_time >= end_time`.
    InvalidTimeRange,
    /// Claim or query for a beneficiary with no record.
    NoVestingSchedule,
    /// Claim attempted before `start_time`.
    VestingNotStarted,
    /// Claim attempted when nothing newly vested since the last claim.
    NoTokensAvailable,
}

/// A linear vesting schedule for one beneficiary.
#[derive(Clone, Copy, Debug, PartialEq, Eq, Structural)]
pub struct VestingSchedule {
    /// Total amount to be vested over the whole window.
    pub total_amount: Balance,
    /// Amount claimed so far.
    pub claimed_amount: Balance,
    /// When vesting starts (Unix epoch, milliseconds).
    pub start_time: u64,
    /// When vesting ends (Unix epoch, milliseconds).
    pub end_time: u64,
}

impl VestingSchedule {
    /// The invariant every stored schedule satisfies: a non-empty time
    /// window, and never more claimed than granted.
    pub open spec fn wf(self) -> bool {
        &&& self.start_time < self.end_time
        &&& self.claimed_amount <= self.total_amount
    }
}

/// The amount vested at `now`: nothing before `start_time`, everything
/// from `end_time` on, and in between the linear interpolation
/// `floor(total_amount * elapsed / duration)`, with the product clamped
/// to `u128::MAX`.
pub open spec fn vested_amount(s: VestingSchedule, now: u64) -> u128 {
    if now < s.start_time {
        0
    } else if now >= s.end_time {
        s.total_amount
    } else {
        let elapsed = now - s.start_time;
        let duration = s.end_time - s.start_time;
        let raw = s.total_amount as int * elapsed;
        let product = if raw > u128::MAX as int {
            u128::MAX as int
        } else {
            raw
        };
        (product / duration) as u128
    }
}

/// What a claim at `now` pays out: the vested amount minus what was
/// already claimed, saturating at zero.
pub open spec fn claimable_amount(s: VestingSchedule, now: u64) -> u128 {
    let v = vested_amount(s, now);
    if v >= s.claimed_amount {
        (v - s.claimed_amount) as u128
    } else {
        0
    }
}

/// The schedule after a claim at `now`: the claimable amount is added to
/// `claimed_amount` (saturating), the grant and the window are untouched.
pub open spec fn schedule_after_claim(s: VestingSchedule, now: u64) -> VestingSchedule {
    let c = s.claimed_amount as int + claimable_amount(s, now) as int;
    VestingSchedule {
        claimed_amount: if c > u128::MAX as int {
            u128::MAX
        } else {
            c as u128
        },
        ..s
    }
}

/// The vested amount at `now`, computed multiply-before-divide in the
/// 128-bit domain; the product saturates at `u128::MAX` instead of
/// trapping, as [`vested_amount`] states.
pub fn calculate_vested_amount(schedule: &VestingSchedule, current_time: u64) -> (vested: Balance)
    ensures
        vested == vested_amount(*schedule, current_time),
{
    if current_time < schedule.start_time {
        return 0;
    }
    if current_time >= schedule.end_time {
        return schedule.total_amount;
    }
    let elapsed: u64 = current_time - schedule.start_time;
    let duration: u64 = schedule.end_time - schedule.start_time;
    let product: u128 = match schedule.total_amount.checked_mul(elapsed as u128) {
        Some(p) => p,
        None => u128::MAX,
    };
    product / (duration as u128)
}

/// The vested amount never exceeds the total grant.
pub proof fn lemma_vested_le_total(s: VestingSchedule, now: u64)
    requires
        s.start_time < s.end_time,
    ensures
        vested_amount(s, now) <= s.total_amount,
{
    if s.start_time <= now < s.end_time {
        let t = s.total_amount as int;
        let e = (now - s.start_time) as int;
        let d = (s.end_time - s.start_time) as int;
        let raw = t * e;
        let m = u128::MAX as int;
        lemma_mul_inequality(e, d, t);
        lemma_div_multiples_vanish(t, d);
        assert(e * t == t * e && d * t == t * d) by (nonlinear_arith);
        if raw > m {
            lemma_div_is_ordered(m, t * d, d);
        } else {
            lemma_div_is_ordered(raw, t * d, d);
        }
    }
}

/// For a valid schedule the vested amount is monotonically non-decreasing
/// in the current time.
pub proof fn lemma_vested_monotonic(s: VestingSchedule, t1: u64, t2: u64)
    requires
        s.start_time < s.end_time,
        t1 <= t2,
    ensures
        vested_amount(s, t1) <= vested_amount(s, t2),
{
    if t1 < s.start_time {
        // vested at t1 is zero
    } else if t1 >= s.end_time {
        // both are the full grant
    } else if t2 >= s.end_time {
        lemma_vested_le_total(s, t1);
    } else {
        let t = s.total_amount as int;
        let e1 = (t1 - s.start_time) as int;
        let e2 = (t2 - s.start_time) as int;
        let d = (s.end_time - s.start_time) as int;
        let m = u128::MAX as int;
        lemma_mul_inequality(e1, e2, t);
        let p1 = if t * e1 > m {
            m
        } else {
            t * e1
        };
        let p2 = if t * e2 > m {
            m
        } else {
            t * e2
        };
        lemma_div_is_ordered(p1, p2, d);
    }
}

/// At or before the start of the window nothing has vested; at or after
/// its end the whole grant has.
pub proof fn lemma_vested_at_bounds(s: VestingSchedule, t: u64)
    requires
        s.start_time < s.end_time,
    ensures
        t >= s.end_time ==> vested_amount(s, t) == s.total_amount,
        t <= s.start_time ==> vested_amount(s, t) == 0,
{
    if t == s.start_time {
        let d = (s.end_time - s.start_time) as int;
        assert(s.total_amount as int * 0 == 0) by (nonlinear_arith);
        assert(0int / d == 0);
    }
}

/// When the window length is even and the product does not saturate,
/// exactly half of the grant (rounded down) has vested at the midpoint of
/// the window.
pub proof fn lemma_vested_at_midpoint(s: VestingSchedule)
    requires
        s.start_time < s.end_time,
        (s.end_time - s.start_time) % 2 == 0,
        s.total_amount as int * ((s.end_time - s.start_time) as int / 2) <= u128::MAX as int,
    ensures
        vested_amount(s, (s.start_time + (s.end_time - s.start_time) / 2) as u64)
            == s.total_amount / 2,
{
    let t = s.total_amount as int;
    let d = (s.end_time - s.start_time) as int;
    let h = d / 2;
    let mid = (s.start_time + (s.end_time - s.start_time) / 2) as u64;
    lemma_fundamental_div_mod(d, 2);
    assert(d == 2 * h);
    assert(1 <= h < d);
    assert(mid - s.start_time == h);
    assert(s.start_time <= mid < s.end_time);
    let q = t / 2;
    let r = t % 2;
    lemma_fundamental_div_mod(t, 2);
    assert(t == 2 * q + r);
    assert(0 <= r < 2);
    assert(t * h == d * q + r * h) by (nonlinear_arith)
        requires
            t == 2 * q + r,
            d == 2 * h,
    ;
    assert(0 <= r * h < d) by (nonlinear_arith)
        requires
            0 <= r < 2,
            1 <= h,
            d == 2 * h,
    ;
    lemma_div_multiples_vanish_fancy(q, r * h, d);
    assert((t * h) / d == q);
    assert(t * h >= 0) by (nonlinear_arith)
        requires
            t >= 0,
            h >= 0,
    ;
}

/// A successful claim accounts exactly: the increment it pays out raises
/// `claimed_amount` to precisely the vested amount at that instant, so
/// over any sequence of successful claims the increments always sum to
/// the vested amount at the latest claim, and never exceed the grant.
pub proof fn lemma_claim_accounting(s: VestingSchedule, now: u64)
    requires
        s.wf(),
        claimable_amount(s, now) > 0,
    ensures
        schedule_after_claim(s, now).claimed_amount == vested_amount(s, now),
        schedule_after_claim(s, now).claimed_amount as int == s.claimed_amount as int
            + claimable_amount(s, now) as int,
        schedule_after_claim(s, now).wf(),
{
    lemma_vested_le_total(s, now);
}

/// The schedule after a sequence of claims, applied in order.
pub open spec fn schedule_after_claims(s: VestingSchedule, times: Seq<u64>) -> VestingSchedule
    decreases times.len(),
{
    if times.len() == 0 {
        s
    } else {
        schedule_after_claims(schedule_after_claim(s, times[0]), times.subrange(1, times.len() as int))
    }
}

/// Whether every claim in the sequence, applied in order, pays out.
pub open spec fn all_claims_pay_out(s: VestingSchedule, times: Seq<u64>) -> bool
    decreases times.len(),
{
    if times.len() == 0 {
        true
    } else {
        claimable_amount(s, times[0]) > 0 && all_claims_pay_out(
            schedule_after_claim(s, times[0]),
            times.subrange(1, times.len() as int),
        )
    }
}

/// The total paid out by a sequence of claims, applied in order.
pub open spec fn claimed_increments_total(s: VestingSchedule, times: Seq<u64>) -> int
    decreases times.len(),
{
    if times.len() == 0 {
        0
    } else {
        claimable_amount(s, times[0]) + claimed_increments_total(
            schedule_after_claim(s, times[0]),
            times.subrange(1, times.len() as int),
        )
    }
}

/// Over any sequence of successful claims the increments telescope: they
/// sum to exactly the vested amount at the last claim instant minus what
/// was claimed before the sequence, and the claimed amount never exceeds
/// the grant.
pub proof fn lemma_claim_sequence_accounting(s: VestingSchedule, times: Seq<u64>)
    requires
        s.wf(),
        times.len() > 0,
        all_claims_pay_out(s, times),
    ensures
        schedule_after_claims(s, times).wf(),
        schedule_after_claims(s, times).claimed_amount == vested_amount(s, times.last()),
        schedule_after_claims(s, times).claimed_amount as int == s.claimed_amount as int
            + claimed_increments_total(s, times),
    decreases times.len(),
{
    let first = times[0];
    let rest = times.subrange(1, times.len() as int);
    let s1 = schedule_after_claim(s, first);
    lemma_claim_accounting(s, first);
    if rest.len() == 0 {
        assert(schedule_after_claims(s1, rest) == s1);
        assert(claimed_increments_total(s1, rest) == 0);
    } else {
        lemma_claim_sequence_accounting(s1, rest);
        assert(rest.last() == times.last());
        assert(vested_amount(s1, rest.last()) == vested_amount(s, rest.last()));
    }
}

/// A second claim at an unchanged instant finds nothing left: right after
/// a successful claim the claimable amount at the same time is zero.
pub proof fn lemma_claim_idempotent(s: VestingSchedule, now: u64)
    requires
        s.wf(),
        claimable_amount(s, now) > 0,
    ensures
        claimable_amount(schedule_after_claim(s, now), now) == 0,
{
    lemma_claim_accounting(s, now);
    let after = schedule_after_claim(s, now);
    assert(vested_amount(after, now) == vested_amount(s, now));
}

} // verus!
