//! Linear token-vesting ledger with a from-scratch proleptic-Gregorian
//! calendar codec.
//!
//! The crate has two independent engines:
//!
//! * `schedule` and `scheduler` hold the vesting ledger: per-beneficiary
//!   [`schedule::VestingSchedule`] records, the pure linear-vesting
//!   computation, and the owner-gated create / claim / query operations.
//! * `calendar` converts 64-bit millisecond Unix timestamps into civil
//!   dates ([`calendar::DateTime`]) and formats them into a fixed-width
//!   19-byte ASCII buffer, with no date/time library behind it.
//!
//! Authentication of callers, persistence of the schedule map, event
//! delivery and the clock itself belong to the hosting layer: every
//! operation here takes the caller identity and the current time as plain
//! arguments and returns plain values.

pub mod calendar;
pub mod schedule;
pub mod scheduler;

pub use calendar::DateTime;
pub use schedule::{AccountId, Balance, Error, VestingSchedule};
pub use scheduler::{TokensClaimed, TokensClaimedReadable, VestingCreated, VestingScheduler};
