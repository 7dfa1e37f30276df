//! The laws of the vesting schedule: how claims relate across time.
//!
//! Each proof function here states a property of the claim operation as
//! a whole — across repeated claims, advancing time, or the end of the
//! schedule — over the same spec functions the operations' own contracts
//! use.

use vstd::prelude::*;
use vstd::arithmetic::div_mod::lemma_div_is_ordered;
use vstd::arithmetic::mul::{lemma_mul_inequality, lemma_mul_is_commutative};
use crate::errors::ErrorCode;
use crate::grant::EmployeeAccount;

verus! {

/// A claim never lowers the withdrawn total, and once the withdrawn
/// total lies within the grant's total amount it stays there: whatever
/// `now` is handed in, `0 <= total_withdrawn <= total_amount` still
/// holds afterwards.
pub proof fn lemma_claim_preserves_withdrawn_bounds(g: EmployeeAccount, now: int)
    ensures
        g.spec_grant_after_claim(now).total_withdrawn >= g.total_withdrawn,
        g.total_withdrawn <= g.total_amount ==> g.spec_grant_after_claim(now).total_withdrawn
            <= g.spec_grant_after_claim(now).total_amount,
{
    if g.spec_claim_outcome(now) is Ok {
        g.lemma_vested_amount_bounds(now);
    }
}

/// On a successful claim the withdrawn total lands exactly on the vested
/// amount at that time.
pub proof fn lemma_successful_claim_withdraws_vested(g: EmployeeAccount, now: int)
    requires
        g.spec_claim_outcome(now) is Ok,
    ensures
        g.spec_grant_after_claim(now).total_withdrawn == g.spec_vested_amount(now),
{
    g.lemma_vested_amount_bounds(now);
}

/// Claiming twice at the same instant collects nothing the second time:
/// after a successful claim at `now`, another claim at the same `now`
/// fails with `NothingToClaim`.
pub proof fn lemma_second_claim_same_instant(g: EmployeeAccount, now: int)
    requires
        g.spec_claim_outcome(now) is Ok,
    ensures
        g.spec_grant_after_claim(now).spec_claim_outcome(now) == Err::<u64, ErrorCode>(
            ErrorCode::NothingToClaim,
        ),
{
    lemma_successful_claim_withdraws_vested(g, now);
}

/// The vested amount never decreases as time advances.
pub proof fn lemma_vested_amount_monotonic(g: EmployeeAccount, now1: int, now2: int)
    requires
        g.start_time < g.end_time,
        now1 <= now2,
    ensures
        g.spec_vested_amount(now1) <= g.spec_vested_amount(now2),
{
    if now2 >= g.end_time {
        g.lemma_vested_amount_bounds(now1);
    } else {
        let total = g.total_amount as int;
        let elapsed1 = g.spec_time_since_start(now1);
        let elapsed2 = g.spec_time_since_start(now2);
        let duration = g.spec_total_vesting_time();
        lemma_mul_inequality(elapsed1, elapsed2, total);
        lemma_mul_is_commutative(total, elapsed1);
        lemma_mul_is_commutative(total, elapsed2);
        lemma_div_is_ordered(total * elapsed1, total * elapsed2, duration);
    }
}

/// As time advances, the cumulative amount collected never falls behind
/// what had vested before: after a successful claim at `now1`, a later
/// claim at `now2` either fails with nothing left over the earlier
/// withdrawal, or raises the withdrawn total to the vested amount at
/// `now2`, which is at least the vested amount at `now1`. Either way the
/// withdrawn total never decreases.
pub proof fn lemma_cumulative_claims_monotonic(g: EmployeeAccount, now1: int, now2: int)
    requires
        g.start_time < g.end_time,
        now1 <= now2,
        g.spec_claim_outcome(now1) is Ok,
    ensures
        ({
            let g1 = g.spec_grant_after_claim(now1);
            let g2 = g1.spec_grant_after_claim(now2);
            &&& g1.total_withdrawn == g.spec_vested_amount(now1)
            &&& g2.total_withdrawn >= g1.total_withdrawn
            &&& g.spec_vested_amount(now2) >= g.spec_vested_amount(now1)
            &&& g1.spec_claim_outcome(now2) is Ok ==> g2.total_withdrawn == g.spec_vested_amount(
                now2,
            )
        }),
{
    lemma_successful_claim_withdraws_vested(g, now1);
    lemma_vested_amount_monotonic(g, now1, now2);
    let g1 = g.spec_grant_after_claim(now1);
    if g1.spec_claim_outcome(now2) is Ok {
        lemma_successful_claim_withdraws_vested(g1, now2);
    }
}

/// Full-vesting convergence: one claim at or past `end_time` leaves the
/// grant fully withdrawn. Either the claim succeeds and raises the
/// withdrawn total to the grant's total amount, or it fails with
/// `NothingToClaim` because the total had been withdrawn already.
pub proof fn lemma_claim_after_end_fully_vests(g: EmployeeAccount, now: int)
    requires
        g.well_formed(),
        now >= g.end_time,
    ensures
        g.spec_grant_after_claim(now).total_withdrawn == g.total_amount,
        g.spec_claim_outcome(now) is Err ==> g.spec_claim_outcome(now) == Err::<u64, ErrorCode>(
            ErrorCode::NothingToClaim,
        ) && g.total_withdrawn == g.total_amount,
{
}

/// The cliff is inclusive: a claim exactly at `cliff_time`, or later, is
/// never refused for being too early, and a claim before it always is.
pub proof fn lemma_cliff_boundary(g: EmployeeAccount, now: int)
    ensures
        now >= g.cliff_time ==> g.spec_claim_outcome(now) != Err::<u64, ErrorCode>(
            ErrorCode::ClaimNotAvailableYet,
        ),
        now < g.cliff_time ==> g.spec_claim_outcome(now) == Err::<u64, ErrorCode>(
            ErrorCode::ClaimNotAvailableYet,
        ),
{
}

} // verus!
