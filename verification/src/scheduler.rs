//! The vesting ledger: per-beneficiary schedules behind an owner-gated
//! associative store, with create, claim and query operations.
//!
//! The ledger is deliberately self-contained: the hosting layer
//! authenticates callers and reads the clock, then passes the caller
//! identity and the current time in as plain arguments. The notification
//! records ([`VestingCreated`], [`TokensClaimed`], [`TokensClaimedReadable`])
//! are plain values for that layer to deliver.

use std::collections::HashMap;

use crate::calendar::{
    format_datetime, spec_format_datetime, spec_timestamp_to_datetime, timestamp_to_datetime,
};
use crate::schedule::{
    calculate_vested_amount, claimable_amount, lemma_claim_accounting, schedule_after_claim,
    vested_amount, AccountId, Balance, Error, VestingSchedule,
};
use vstd::prelude::*;

verus! {

broadcast use vstd::std_specs::hash::group_hash_axioms;

/// The vesting ledger. It exclusively owns the map from beneficiary
/// identity to schedule; only the owner fixed at construction may create
/// schedules.
pub struct VestingScheduler {
    /// Maps a beneficiary's identity to their vesting schedule.
    schedules: HashMap<AccountId, VestingSchedule>,
    /// Owner of the ledger: the only identity allowed to create schedules.
    owner: AccountId,
}

/// Notification record for a newly created schedule, for the hosting
/// layer to deliver.
#[derive(Clone, Copy, Debug, PartialEq, Eq, Structural)]
pub struct VestingCreated {
    pub beneficiary: AccountId,
    pub total_amount: Balance,
    pub start_time: u64,
    pub end_time: u64,
}

/// Notification record for a successful claim, for the hosting layer to
/// deliver.
#[derive(Clone, Copy, Debug, PartialEq, Eq, Structural)]
pub struct TokensClaimed {
    pub beneficiary: AccountId,
    pub amount: Balance,
    pub claimed_at: u64,
}

/// Notification record for a successful claim with the claim instant
/// rendered as text.
#[derive(Clone, Copy, Debug)]
pub struct TokensClaimedReadable {
    pub beneficiary: AccountId,
    pub amount: Balance,
    pub claimed_at: u64,
    /// Readable format: `[Y,Y,Y,Y,-,M,M,-,D,D, ,H,H,:,M,M,:,S,S]`.
    pub claimed_at_readable: [u8; 19],
}

impl TokensClaimedReadable {
    /// Build the record, rendering `claimed_at` through the calendar
    /// codec.
    pub fn new(beneficiary: AccountId, amount: Balance, claimed_at: u64) -> (e: Self)
        ensures
            e.beneficiary == beneficiary,
            e.amount == amount,
            e.claimed_at == claimed_at,
            e.claimed_at_readable@ == spec_format_datetime(spec_timestamp_to_datetime(claimed_at)),
    {
        let dt = timestamp_to_datetime(claimed_at);
        TokensClaimedReadable { beneficiary, amount, claimed_at, claimed_at_readable: format_datetime(dt) }
    }
}

impl VestingScheduler {
    /// The beneficiary-to-schedule map this ledger holds.
    pub closed spec fn spec_schedules(self) -> Map<AccountId, VestingSchedule> {
        self.schedules@
    }

    /// The owner identity fixed at construction.
    pub closed spec fn spec_owner(self) -> AccountId {
        self.owner
    }

    /// Every stored schedule is well formed: a non-empty window, and
    /// never more claimed than granted.
    pub open spec fn wf(self) -> bool {
        forall|k: AccountId|
            self.spec_schedules().contains_key(k) ==> (#[trigger] self.spec_schedules()[k]).wf()
    }

    /// A fresh ledger owned by `owner`, with no schedules.
    pub fn new(owner: AccountId) -> (s: Self)
        ensures
            s.spec_owner() == owner,
            s.spec_schedules() == Map::<AccountId, VestingSchedule>::empty(),
            s.wf(),
    {
        VestingScheduler { schedules: HashMap::new(), owner }
    }

    /// Create a vesting schedule for `beneficiary`, with nothing claimed
    /// yet. Only the owner may create; the window must be non-empty
    /// (`start_time < end_time`). An existing schedule for the same
    /// beneficiary is overwritten, discarding its claim history.
    pub fn create_vesting_schedule(
        &mut self,
        caller: AccountId,
        beneficiary: AccountId,
        total_amount: Balance,
        start_time: u64,
        end_time: u64,
    ) -> (r: Result<(), Error>)
        requires
            old(self).wf(),
        ensures
            final(self).wf(),
            final(self).spec_owner() == old(self).spec_owner(),
            match r {
                Ok(()) => ({
                    &&& caller == old(self).spec_owner()
                    &&& start_time < end_time
                    &&& final(self).spec_schedules() == old(self).spec_schedules().insert(
                        beneficiary,
                        (VestingSchedule { total_amount, claimed_amount: 0, start_time, end_time }),
                    )
                }),
                Err(e) => ({
                    &&& final(self).spec_schedules() == old(self).spec_schedules()
                    &&& (e == Error::Unauthorized <==> caller != old(self).spec_owner())
                    &&& (e == Error::InvalidTimeRange <==> (caller == old(self).spec_owner()
                        && start_time >= end_time))
                    &&& (e == Error::Unauthorized || e == Error::InvalidTimeRange)
                }),
            },
    {
        if caller != self.owner {
            return Err(Error::Unauthorized);
        }
        if start_time >= end_time {
            return Err(Error::InvalidTimeRange);
        }
        let schedule = VestingSchedule { total_amount, claimed_amount: 0, start_time, end_time };
        self.schedules.insert(beneficiary, schedule);
        proof {
            assert forall|k: AccountId| self.spec_schedules().contains_key(k) implies (
            #[trigger] self.spec_schedules()[k]).wf() by {
                if k != beneficiary {
                    assert(old(self).spec_schedules().contains_key(k));
                }
            }
        }
        Ok(())
    }

    /// Claim everything newly vested for `caller` at `current_time`. On
    /// success the payout is exactly the vested amount minus what was
    /// already claimed, and the stored `claimed_amount` rises to exactly
    /// the vested amount at this instant; the errors say precisely on
    /// which inputs they occur.
    pub fn claim_vested(&mut self, caller: AccountId, current_time: u64) -> (r: Result<
        Balance,
        Error,
    >)
        requires
            old(self).wf(),
        ensures
            final(self).wf(),
            final(self).spec_owner() == old(self).spec_owner(),
            match r {
                Ok(amount) => ({
                    let s = old(self).spec_schedules()[caller];
                    &&& old(self).spec_schedules().contains_key(caller)
                    &&& current_time >= s.start_time
                    &&& amount == claimable_amount(s, current_time)
                    &&& amount > 0
                    &&& final(self).spec_schedules() == old(self).spec_schedules().insert(
                        caller,
                        schedule_after_claim(s, current_time),
                    )
                    &&& schedule_after_claim(s, current_time).claimed_amount == vested_amount(
                        s,
                        current_time,
                    )
                }),
                Err(e) => ({
                    let s = old(self).spec_schedules()[caller];
                    let has = old(self).spec_schedules().contains_key(caller);
                    &&& final(self).spec_schedules() == old(self).spec_schedules()
                    &&& (e == Error::NoVestingSchedule <==> !has)
                    &&& (e == Error::VestingNotStarted <==> (has && current_time < s.start_time))
                    &&& (e == Error::NoTokensAvailable <==> (has && current_time >= s.start_time
                        && claimable_amount(s, current_time) == 0))
                    &&& (e == Error::NoVestingSchedule || e == Error::VestingNotStarted
                        || e == Error::NoTokensAvailable)
                }),
            },
    {
        let mut schedule = match self.schedules.get(&caller) {
            Some(s) => *s,
            None => {
                return Err(Error::NoVestingSchedule);
            },
        };
        if current_time < schedule.start_time {
            return Err(Error::VestingNotStarted);
        }
        let vested = calculate_vested_amount(&schedule, current_time);
        let claimable = vested.saturating_sub(schedule.claimed_amount);
        if claimable == 0 {
            return Err(Error::NoTokensAvailable);
        }
        proof {
            lemma_claim_accounting(schedule, current_time);
        }
        schedule.claimed_amount = schedule.claimed_amount.saturating_add(claimable);
        self.schedules.insert(caller, schedule);
        Ok(claimable)
    }

    /// Look up the schedule for `beneficiary`; read-only.
    pub fn get_vesting_schedule(&self, beneficiary: AccountId) -> (r: Option<VestingSchedule>)
        ensures
            match r {
                Some(s) => self.spec_schedules().contains_key(beneficiary) && s
                    == self.spec_schedules()[beneficiary],
                None => !self.spec_schedules().contains_key(beneficiary),
            },
    {
        match self.schedules.get(&beneficiary) {
            Some(s) => Some(*s),
            None => None,
        }
    }

    /// The schedule for `beneficiary` together with `YYYY-MM-DD HH:MM:SS`
    /// renderings of its start and end times; read-only.
    pub fn get_vesting_schedule_readable(&self, beneficiary: AccountId) -> (r: Option<
        (VestingSchedule, [u8; 19], [u8; 19]),
    >)
        ensures
            match r {
                Some(t) => ({
                    let s = self.spec_schedules()[beneficiary];
                    &&& self.spec_schedules().contains_key(beneficiary)
                    &&& t.0 == s
                    &&& t.1@ == spec_format_datetime(spec_timestamp_to_datetime(s.start_time))
                    &&& t.2@ == spec_format_datetime(spec_timestamp_to_datetime(s.end_time))
                }),
                None => !self.spec_schedules().contains_key(beneficiary),
            },
    {
        let schedule = match self.schedules.get(&beneficiary) {
            Some(s) => *s,
            None => {
                return None;
            },
        };
        let start_dt = timestamp_to_datetime(schedule.start_time);
        let end_dt = timestamp_to_datetime(schedule.end_time);
        Some((schedule, format_datetime(start_dt), format_datetime(end_dt)))
    }
}

} // verus!
