use tokenvesting::errors::ErrorCode;
use tokenvesting::grant::EmployeeAccount;

fn sample_grant() -> EmployeeAccount {
    match EmployeeAccount::new(7, 0, 0, 100, 1000, 1000) {
        Ok(g) => g,
        Err(_) => panic!("sample grant must be accepted"),
    }
}

#[test]
fn new_grant_starts_with_nothing_withdrawn() {
    let g = sample_grant();
    assert_eq!(g.beneficiary, 7);
    assert_eq!(g.vesting_account, 0);
    assert_eq!(g.start_time, 0);
    assert_eq!(g.cliff_time, 100);
    assert_eq!(g.end_time, 1000);
    assert_eq!(g.total_amount, 1000);
    assert_eq!(g.total_withdrawn, 0);
}

#[test]
fn new_rejects_cliff_before_start() {
    let r = EmployeeAccount::new(7, 0, 100, 50, 1000, 1000);
    assert_eq!(r, Err(ErrorCode::InvalidVestingPeriod));
}

#[test]
fn new_rejects_cliff_after_end() {
    let r = EmployeeAccount::new(7, 0, 0, 1500, 1000, 1000);
    assert_eq!(r, Err(ErrorCode::InvalidVestingPeriod));
}

#[test]
fn new_rejects_zero_length_schedule() {
    let r = EmployeeAccount::new(7, 0, 500, 500, 500, 1000);
    assert_eq!(r, Err(ErrorCode::InvalidVestingPeriod));
}

#[test]
fn new_rejects_zero_amount() {
    let r = EmployeeAccount::new(7, 0, 0, 100, 1000, 0);
    assert_eq!(r, Err(ErrorCode::InvalidAmount));
}

#[test]
fn claim_before_cliff_fails() {
    let mut g = sample_grant();
    let r = g.claim_tokens(50);
    assert_eq!(r, Err(ErrorCode::ClaimNotAvailableYet));
    assert_eq!(g.total_withdrawn, 0);
}

#[test]
fn claim_midway_collects_linear_share() {
    let mut g = sample_grant();
    let r = g.claim_tokens(500);
    assert_eq!(r, Ok(500));
    assert_eq!(g.total_withdrawn, 500);
    assert!(g.total_withdrawn <= g.total_amount);
}

#[test]
fn claim_at_end_collects_remainder() {
    let mut g = sample_grant();
    assert_eq!(g.claim_tokens(500), Ok(500));
    let r = g.claim_tokens(1000);
    assert_eq!(r, Ok(500));
    assert_eq!(g.total_withdrawn, 1000);
}

#[test]
fn claim_after_everything_withdrawn_fails() {
    let mut g = sample_grant();
    assert_eq!(g.claim_tokens(500), Ok(500));
    assert_eq!(g.claim_tokens(1000), Ok(500));
    let r = g.claim_tokens(2000);
    assert_eq!(r, Err(ErrorCode::NothingToClaim));
    assert_eq!(g.total_withdrawn, 1000);
}

#[test]
fn overflowing_vesting_product_is_detected() {
    let mut g = match EmployeeAccount::new(7, 0, 0, 0, i64::MAX, u64::MAX) {
        Ok(g) => g,
        Err(_) => panic!("grant must be accepted"),
    };
    let r = g.claim_tokens(2);
    assert_eq!(r, Err(ErrorCode::CalculationOverflow));
    assert_eq!(g.total_withdrawn, 0);
}

#[test]
fn claim_exactly_at_cliff_succeeds() {
    let mut g = sample_grant();
    let r = g.claim_tokens(100);
    assert_eq!(r, Ok(100));
    assert_eq!(g.total_withdrawn, 100);
}

#[test]
fn second_claim_at_same_instant_collects_nothing() {
    let mut g = sample_grant();
    assert_eq!(g.claim_tokens(500), Ok(500));
    assert_eq!(g.claim_tokens(500), Err(ErrorCode::NothingToClaim));
    assert_eq!(g.total_withdrawn, 500);
}

#[test]
fn repeated_claims_accumulate_monotonically() {
    let mut g = sample_grant();
    assert_eq!(g.claim_tokens(300), Ok(300));
    assert_eq!(g.total_withdrawn, 300);
    assert_eq!(g.claim_tokens(600), Ok(300));
    assert_eq!(g.total_withdrawn, 600);
    assert_eq!(g.claim_tokens(900), Ok(300));
    assert_eq!(g.total_withdrawn, 900);
    assert!(g.total_withdrawn <= g.total_amount);
}

#[test]
fn one_claim_past_end_completes_after_partial_withdrawal() {
    let mut g = sample_grant();
    assert_eq!(g.claim_tokens(250), Ok(250));
    assert_eq!(g.claim_tokens(5000), Ok(750));
    assert_eq!(g.total_withdrawn, g.total_amount);
    assert_eq!(g.claim_tokens(6000), Err(ErrorCode::NothingToClaim));
}

#[test]
fn ramp_starts_at_start_time_not_cliff() {
    let mut g = match EmployeeAccount::new(7, 0, 0, 500, 1000, 1000) {
        Ok(g) => g,
        Err(_) => panic!("grant must be accepted"),
    };
    let r = g.claim_tokens(500);
    assert_eq!(r, Ok(500));
}

#[test]
fn vested_share_rounds_down() {
    let mut g = match EmployeeAccount::new(7, 0, 0, 0, 3, 10) {
        Ok(g) => g,
        Err(_) => panic!("grant must be accepted"),
    };
    let r = g.claim_tokens(1);
    assert_eq!(r, Ok(3));
}

#[test]
fn negative_timestamps_vest_linearly() {
    let mut g = match EmployeeAccount::new(7, 0, -1000, -500, 1000, 1000) {
        Ok(g) => g,
        Err(_) => panic!("grant must be accepted"),
    };
    let r = g.claim_tokens(0);
    assert_eq!(r, Ok(500));
}

#[test]
fn claim_before_start_on_malformed_grant_collects_nothing() {
    let mut g = EmployeeAccount {
        beneficiary: 7,
        start_time: 100,
        end_time: 200,
        cliff_time: 0,
        vesting_account: 0,
        total_amount: 100,
        total_withdrawn: 0,
    };
    let r = g.claim_tokens(50);
    assert_eq!(r, Err(ErrorCode::NothingToClaim));
    assert_eq!(g.total_withdrawn, 0);
}

#[test]
fn degenerate_schedule_is_refused_defensively() {
    let mut g = EmployeeAccount {
        beneficiary: 7,
        start_time: 10,
        end_time: 5,
        cliff_time: 10,
        vesting_account: 0,
        total_amount: 100,
        total_withdrawn: 0,
    };
    let r = g.claim_tokens(100);
    assert_eq!(r, Err(ErrorCode::InvalidVestingPeriod));
    assert_eq!(g.total_withdrawn, 0);
}

#[test]
fn claimable_amount_leaves_grant_unchanged() {
    let g = sample_grant();
    assert_eq!(g.claimable_amount(500), Ok(500));
    assert_eq!(g.total_withdrawn, 0);
    assert_eq!(g.claimable_amount(500), Ok(500));
}

#[test]
fn vested_amount_is_clamped_past_end() {
    let g = sample_grant();
    assert_eq!(g.vested_amount(999_999), Ok(1000));
    assert_eq!(g.vested_amount(1000), Ok(1000));
}

#[test]
fn error_messages_match_their_variants() {
    assert_eq!(ErrorCode::DuplicatePlan.message(), "Duplicate vesting account");
    assert_eq!(ErrorCode::InvalidName.message(), "Invalid company name");
    assert_eq!(ErrorCode::Unauthorized.message(), "Unauthorized");
    assert_eq!(ErrorCode::InvalidAmount.message(), "Invalid amount");
    assert_eq!(ErrorCode::DuplicateGrant.message(), "Duplicate employee account");
    assert_eq!(
        ErrorCode::ClaimNotAvailableYet.message(),
        "Claim not available yet"
    );
    assert_eq!(
        ErrorCode::InvalidVestingPeriod.message(),
        "Invalid vesting period"
    );
    assert_eq!(ErrorCode::CalculationOverflow.message(), "Calculation overflow");
    assert_eq!(ErrorCode::NothingToClaim.message(), "Nothing to claim");
}
