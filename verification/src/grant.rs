//! Employee grants: a linear vesting schedule with claim tracking.
//!
//! A grant vests linearly from `start_time` to `end_time` and is clamped
//! at `total_amount` from `end_time` onward. The cliff only gates when a
//! claim is permitted; it is deliberately not the origin of the vesting
//! ramp, so a claim made right at the cliff already collects everything
//! vested since `start_time`.

use vstd::prelude::*;
use vstd::arithmetic::div_mod::{
    lemma_div_is_ordered, lemma_div_multiples_vanish, lemma_div_pos_is_pos,
};
use vstd::arithmetic::mul::{lemma_mul_inequality, lemma_mul_is_commutative, lemma_mul_nonnegative};
use crate::errors::ErrorCode;

verus! {

/// One beneficiary's vesting schedule under a vesting account, together
/// with the cumulative amount already withdrawn.
///
/// `vesting_account` is the index of the owning vesting account in the
/// ledger; the grant only refers back to it and never changes it.
/// Timestamps are seconds; `total_amount` is fixed at creation, while
/// `total_withdrawn` starts at zero and only ever grows, by successful
/// claims.
#[derive(Clone, Copy, Debug, PartialEq, Eq, Structural)]
pub struct EmployeeAccount {
    pub beneficiary: u64,
    pub start_time: i64,
    pub end_time: i64,
    pub cliff_time: i64,
    pub vesting_account: usize,
    pub total_amount: u64,
    pub total_withdrawn: u64,
}

/// A vesting period is acceptable when the cliff lies between start and
/// end and the schedule has a positive duration.
pub open spec fn spec_valid_period(start_time: i64, cliff_time: i64, end_time: i64) -> bool {
    &&& start_time <= cliff_time
    &&& cliff_time <= end_time
    &&& end_time != start_time
}

impl EmployeeAccount {
    /// The internal invariant every grant issued by the ledger satisfies.
    pub open spec fn well_formed(self) -> bool {
        &&& spec_valid_period(self.start_time, self.cliff_time, self.end_time)
        &&& self.total_amount >= 1
        &&& self.total_withdrawn <= self.total_amount
    }

    /// Seconds elapsed since the ramp's origin, never negative.
    pub open spec fn spec_time_since_start(self, now: int) -> int {
        if now - self.start_time > 0 {
            now - self.start_time
        } else {
            0
        }
    }

    /// The full duration of the ramp.
    pub open spec fn spec_total_vesting_time(self) -> int {
        self.end_time - self.start_time
    }

    /// The portion of `total_amount` earned by time `now`: zero at or
    /// before `start_time`, a linear ramp in between, all of it from
    /// `end_time` onward. Withdrawals do not enter into it.
    pub open spec fn spec_vested_amount(self, now: int) -> int
        recommends
            self.start_time < self.end_time,
    {
        if now >= self.end_time {
            self.total_amount as int
        } else {
            (self.total_amount * self.spec_time_since_start(now)) / self.spec_total_vesting_time()
        }
    }

    /// What computing the vested amount at `now` returns: the amount, or
    /// the error for a degenerate schedule or for a vesting product that
    /// does not fit 64 bits.
    pub open spec fn spec_vested_outcome(self, now: int) -> Result<u64, ErrorCode> {
        if self.spec_total_vesting_time() <= 0 {
            Err(ErrorCode::InvalidVestingPeriod)
        } else if now < self.end_time && self.total_amount * self.spec_time_since_start(now)
            > u64::MAX {
            Err(ErrorCode::CalculationOverflow)
        } else {
            Ok(self.spec_vested_amount(now) as u64)
        }
    }

    /// What is vested at `now` beyond what was already withdrawn, never
    /// negative.
    pub open spec fn spec_claimable_amount(self, now: int) -> int
        recommends
            self.start_time < self.end_time,
    {
        if self.spec_vested_amount(now) > self.total_withdrawn {
            self.spec_vested_amount(now) - self.total_withdrawn
        } else {
            0
        }
    }

    /// What a claim at `now` returns: the amount disbursed, or the exact
    /// error. A claim before the cliff is refused outright; at or after
    /// the cliff it fails only for a degenerate schedule, an overflowing
    /// vesting product, or when nothing new has vested.
    pub open spec fn spec_claim_outcome(self, now: int) -> Result<u64, ErrorCode> {
        if now < self.cliff_time {
            Err(ErrorCode::ClaimNotAvailableYet)
        } else {
            match self.spec_vested_outcome(now) {
                Err(e) => Err(e),
                Ok(_) => if self.spec_claimable_amount(now) == 0 {
                    Err(ErrorCode::NothingToClaim)
                } else {
                    Ok(self.spec_claimable_amount(now) as u64)
                },
            }
        }
    }

    /// The grant as a claim at `now` leaves it: withdrawn raised by the
    /// disbursed amount on success, untouched on any error.
    pub open spec fn spec_grant_after_claim(self, now: int) -> EmployeeAccount {
        match self.spec_claim_outcome(now) {
            Ok(amount) => (EmployeeAccount {
                total_withdrawn: (self.total_withdrawn + amount) as u64,
                ..self
            }),
            Err(_) => self,
        }
    }

    /// Issues a grant with nothing withdrawn yet, refusing a period whose
    /// cliff lies outside it or whose duration is zero, and a zero amount.
    pub fn new(
        beneficiary: u64,
        vesting_account: usize,
        start_time: i64,
        cliff_time: i64,
        end_time: i64,
        total_amount: u64,
    ) -> (r: Result<EmployeeAccount, ErrorCode>)
        ensures
            !spec_valid_period(start_time, cliff_time, end_time) ==> r == Err::<
                EmployeeAccount,
                ErrorCode,
            >(ErrorCode::InvalidVestingPeriod),
            spec_valid_period(start_time, cliff_time, end_time) && total_amount == 0 ==> r
                == Err::<EmployeeAccount, ErrorCode>(ErrorCode::InvalidAmount),
            spec_valid_period(start_time, cliff_time, end_time) && total_amount != 0 ==> r == Ok::<
                EmployeeAccount,
                ErrorCode,
            >(
                EmployeeAccount {
                    beneficiary,
                    start_time,
                    end_time,
                    cliff_time,
                    vesting_account,
                    total_amount,
                    total_withdrawn: 0,
                },
            ),
            r matches Ok(g) ==> g.well_formed(),
    {
        if start_time > cliff_time || cliff_time > end_time || end_time == start_time {
            return Err(ErrorCode::InvalidVestingPeriod);
        }
        if total_amount == 0 {
            return Err(ErrorCode::InvalidAmount);
        }
        Ok(
            EmployeeAccount {
                beneficiary,
                start_time,
                end_time,
                cliff_time,
                vesting_account,
                total_amount,
                total_withdrawn: 0,
            },
        )
    }

    /// Computes the vested amount at `now`, independent of withdrawals.
    pub fn vested_amount(&self, now: i64) -> (r: Result<u64, ErrorCode>)
        ensures
            r == self.spec_vested_outcome(now as int),
    {
        let start_wide: i128 = self.start_time as i128;
        let total_vesting_time: i128 = (self.end_time as i128) - start_wide;
        if total_vesting_time <= 0 {
            return Err(ErrorCode::InvalidVestingPeriod);
        }
        if now >= self.end_time {
            return Ok(self.total_amount);
        }
        let elapsed: i128 = (now as i128) - start_wide;
        let time_since_start: u64 = if elapsed <= 0 {
            0
        } else {
            elapsed as u64
        };
        let divisor: u64 = total_vesting_time as u64;
        match self.total_amount.checked_mul(time_since_start) {
            Some(product) => Ok(product / divisor),
            None => Err(ErrorCode::CalculationOverflow),
        }
    }

    /// Computes what a claim at `now` would disburse, without changing
    /// the grant.
    pub fn claimable_amount(&self, now: i64) -> (r: Result<u64, ErrorCode>)
        ensures
            r == self.spec_claim_outcome(now as int),
    {
        if now < self.cliff_time {
            return Err(ErrorCode::ClaimNotAvailableYet);
        }
        let vested: u64 = match self.vested_amount(now) {
            Ok(v) => v,
            Err(e) => {
                return Err(e);
            },
        };
        proof {
            self.lemma_vested_amount_bounds(now as int);
        }
        let claimable: u64 = vested.saturating_sub(self.total_withdrawn);
        if claimable == 0 {
            Err(ErrorCode::NothingToClaim)
        } else {
            Ok(claimable)
        }
    }

    /// Performs a claim at `now`: on success the disbursed amount is
    /// added to `total_withdrawn`, which then equals the vested amount;
    /// on any error the grant is left untouched. The withdrawn total
    /// never decreases, and never passes `total_amount` once below it.
    pub fn claim_tokens(&mut self, now: i64) -> (r: Result<u64, ErrorCode>)
        ensures
            r == old(self).spec_claim_outcome(now as int),
            *final(self) == old(self).spec_grant_after_claim(now as int),
            final(self).total_withdrawn >= old(self).total_withdrawn,
            old(self).total_withdrawn <= old(self).total_amount ==> final(self).total_withdrawn
                <= final(self).total_amount,
            r matches Ok(amount) ==> amount > 0 && final(self).total_withdrawn == old(self).total_withdrawn
                + amount,
    {
        match self.claimable_amount(now) {
            Ok(amount) => {
                proof {
                    self.lemma_vested_amount_bounds(now as int);
                }
                self.total_withdrawn = self.total_withdrawn + amount;
                Ok(amount)
            },
            Err(e) => Err(e),
        }
    }

    /// The vested amount always lies between zero and the grant's total,
    /// whatever the time: the ramp never pays out more than the clamp.
    pub proof fn lemma_vested_amount_bounds(self, now: int)
        requires
            self.start_time < self.end_time,
        ensures
            0 <= self.spec_vested_amount(now) <= self.total_amount,
    {
        if now < self.end_time {
            let total = self.total_amount as int;
            let elapsed = self.spec_time_since_start(now);
            let duration = self.spec_total_vesting_time();
            lemma_mul_nonnegative(total, elapsed);
            lemma_div_pos_is_pos(total * elapsed, duration);
            lemma_mul_inequality(elapsed, duration, total);
            lemma_mul_is_commutative(total, elapsed);
            lemma_mul_is_commutative(total, duration);
            lemma_div_is_ordered(total * elapsed, total * duration, duration);
            lemma_div_multiples_vanish(total, duration);
        }
    }
}

} // verus!
