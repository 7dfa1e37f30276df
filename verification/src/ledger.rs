//! The vesting ledger: vesting accounts and the grants issued under them.
//!
//! A vesting account is keyed by its company name, one account per name;
//! an employee account is keyed by its beneficiary together with the
//! vesting account it belongs to, one grant per pair. The ledger checks
//! the caller it is handed against the stored owner; authenticating that
//! caller, and moving the tokens a claim disburses, belong to the hosting
//! environment.

use vstd::prelude::*;
use vstd::string::StrSliceExecFns;
use crate::errors::ErrorCode;
use crate::grant::{spec_valid_period, EmployeeAccount};

verus! {

/// The longest company name a vesting account accepts, in characters.
pub const MAX_COMPANY_NAME_LEN: usize = 50;

/// A company name keys a vesting account: it must not be empty and must
/// not exceed the length bound.
pub open spec fn spec_valid_company_name(name: Seq<char>) -> bool {
    1 <= name.len() <= MAX_COMPANY_NAME_LEN
}

/// A company's vesting configuration: who may issue grants under it, the
/// token kind it pays in, and the treasury all its grants draw from.
/// Created once and immutable thereafter; claims never touch it.
#[derive(Clone, Debug)]
pub struct VestingAccount {
    pub owner: u64,
    pub mint: u64,
    pub treasury_token_account: u64,
    pub company_name: String,
}

impl VestingAccount {
    /// The invariant every stored vesting account satisfies.
    pub open spec fn well_formed(self) -> bool {
        spec_valid_company_name(self.company_name@)
    }
}

/// The ledger's persistent state: every vesting account, and every grant,
/// each grant referring to its vesting account by index. Records are
/// never deleted, so the indices handed out stay valid.
#[derive(Debug)]
pub struct VestingLedger {
    pub plans: Vec<VestingAccount>,
    pub grants: Vec<EmployeeAccount>,
}

impl VestingLedger {
    /// Every vesting account is well formed and no two share a name.
    pub open spec fn plans_well_formed(self) -> bool {
        &&& forall|i: int|
            0 <= i < self.plans@.len() ==> (#[trigger] self.plans@[i]).well_formed()
        &&& forall|i: int, j: int|
            #![trigger self.plans@[i], self.plans@[j]]
            0 <= i < j < self.plans@.len() ==> self.plans@[i].company_name@
                != self.plans@[j].company_name@
    }

    /// Every grant is well formed, refers to an existing vesting account,
    /// and no two grants share a beneficiary and a vesting account.
    pub open spec fn grants_well_formed(self) -> bool {
        &&& forall|i: int|
            0 <= i < self.grants@.len() ==> (#[trigger] self.grants@[i]).well_formed()
                && self.grants@[i].vesting_account < self.plans@.len()
        &&& forall|i: int, j: int|
            #![trigger self.grants@[i], self.grants@[j]]
            0 <= i < j < self.grants@.len() ==> !(self.grants@[i].beneficiary
                == self.grants@[j].beneficiary && self.grants@[i].vesting_account
                == self.grants@[j].vesting_account)
    }

    /// The ledger's invariant: established empty, preserved by every
    /// operation.
    pub open spec fn well_formed(self) -> bool {
        self.plans_well_formed() && self.grants_well_formed()
    }

    /// Whether some vesting account carries this name.
    pub open spec fn spec_has_plan_named(self, name: Seq<char>) -> bool {
        exists|i: int|
            0 <= i < self.plans@.len() && (#[trigger] self.plans@[i]).company_name@ == name
    }

    /// Whether this beneficiary already holds a grant under this vesting
    /// account.
    pub open spec fn spec_has_grant_for(self, beneficiary: u64, plan_index: int) -> bool {
        exists|i: int|
            0 <= i < self.grants@.len() && (#[trigger] self.grants@[i]).beneficiary == beneficiary
                && self.grants@[i].vesting_account == plan_index
    }

    /// An empty ledger.
    pub fn new() -> (r: VestingLedger)
        ensures
            r.well_formed(),
            r.plans@.len() == 0,
            r.grants@.len() == 0,
    {
        VestingLedger { plans: Vec::new(), grants: Vec::new() }
    }

    /// Looks a vesting account up by its company name.
    pub fn find_plan(&self, company_name: &String) -> (r: Option<usize>)
        ensures
            match r {
                Some(i) => i < self.plans@.len() && self.plans@[i as int].company_name@
                    == company_name@,
                None => !self.spec_has_plan_named(company_name@),
            },
    {
        let n = self.plans.len();
        let mut i: usize = 0;
        while i < n
            invariant
                n == self.plans@.len(),
                i <= n,
                forall|k: int|
                    0 <= k < i ==> (#[trigger] self.plans@[k]).company_name@ != company_name@,
            decreases n - i,
        {
            if self.plans[i].company_name == *company_name {
                return Some(i);
            }
            i = i + 1;
        }
        None
    }

    /// Looks a grant up by its beneficiary and vesting account.
    pub fn find_grant(&self, beneficiary: u64, plan_index: usize) -> (r: Option<usize>)
        ensures
            match r {
                Some(i) => i < self.grants@.len() && self.grants@[i as int].beneficiary
                    == beneficiary && self.grants@[i as int].vesting_account == plan_index,
                None => !self.spec_has_grant_for(beneficiary, plan_index as int),
            },
    {
        let n = self.grants.len();
        let mut i: usize = 0;
        while i < n
            invariant
                n == self.grants@.len(),
                i <= n,
                forall|k: int|
                    0 <= k < i ==> !((#[trigger] self.grants@[k]).beneficiary == beneficiary
                        && self.grants@[k].vesting_account == plan_index),
            decreases n - i,
        {
            let g = &self.grants[i];
            if g.beneficiary == beneficiary && g.vesting_account == plan_index {
                return Some(i);
            }
            i = i + 1;
        }
        None
    }

    /// Creates a vesting account for `company_name`, refusing an empty or
    /// over-long name and a name already taken, and returns its index.
    pub fn create_vesting_account(
        &mut self,
        owner: u64,
        mint: u64,
        treasury_token_account: u64,
        company_name: String,
    ) -> (r: Result<usize, ErrorCode>)
        requires
            old(self).well_formed(),
        ensures
            final(self).well_formed(),
            !spec_valid_company_name(company_name@) ==> r == Err::<usize, ErrorCode>(
                ErrorCode::InvalidName,
            ) && *final(self) == *old(self),
            spec_valid_company_name(company_name@) && old(self).spec_has_plan_named(company_name@)
                ==> r == Err::<usize, ErrorCode>(ErrorCode::DuplicatePlan)
                    && *final(self) == *old(self),
            spec_valid_company_name(company_name@) && !old(self).spec_has_plan_named(company_name@)
                ==> {
                &&& r == Ok::<usize, ErrorCode>(old(self).plans@.len() as usize)
                &&& final(self).plans@ == old(self).plans@.push(
                    (VestingAccount { owner, mint, treasury_token_account, company_name }),
                )
                &&& final(self).grants@ == old(self).grants@
            },
    {
        let name_len = company_name.as_str().unicode_len();
        if name_len == 0 || name_len > MAX_COMPANY_NAME_LEN {
            return Err(ErrorCode::InvalidName);
        }
        match self.find_plan(&company_name) {
            Some(_) => Err(ErrorCode::DuplicatePlan),
            None => {
                let index = self.plans.len();
                let plan = VestingAccount { owner, mint, treasury_token_account, company_name };
                self.plans.push(plan);
                proof {
                    assert forall|i: int, j: int|
                        #![trigger self.plans@[i], self.plans@[j]]
                        0 <= i < j < self.plans@.len() implies self.plans@[i].company_name@
                        != self.plans@[j].company_name@ by {
                        if j < old(self).plans@.len() {
                            assert(old(self).plans@[i] == self.plans@[i]);
                            assert(old(self).plans@[j] == self.plans@[j]);
                        } else {
                            assert(old(self).plans@[i] == self.plans@[i]);
                        }
                    }
                }
                Ok(index)
            },
        }
    }

    /// Creates a grant under the vesting account at `plan_index`. Only
    /// that account's owner may issue it; the period and amount must be
    /// acceptable and the beneficiary must not already hold a grant
    /// there. Returns the new grant's index.
    pub fn create_employee_account(
        &mut self,
        owner: u64,
        plan_index: usize,
        beneficiary: u64,
        start_time: i64,
        cliff_time: i64,
        end_time: i64,
        total_amount: u64,
    ) -> (r: Result<usize, ErrorCode>)
        requires
            old(self).well_formed(),
            plan_index < old(self).plans@.len(),
        ensures
            final(self).well_formed(),
            final(self).plans@ == old(self).plans@,
            owner != old(self).plans@[plan_index as int].owner ==> r == Err::<usize, ErrorCode>(
                ErrorCode::Unauthorized,
            ) && final(self).grants@ == old(self).grants@,
            owner == old(self).plans@[plan_index as int].owner && !spec_valid_period(
                start_time,
                cliff_time,
                end_time,
            ) ==> r == Err::<usize, ErrorCode>(ErrorCode::InvalidVestingPeriod)
                && final(self).grants@ == old(self).grants@,
            owner == old(self).plans@[plan_index as int].owner && spec_valid_period(
                start_time,
                cliff_time,
                end_time,
            ) && total_amount == 0 ==> r == Err::<usize, ErrorCode>(ErrorCode::InvalidAmount)
                && final(self).grants@ == old(self).grants@,
            owner == old(self).plans@[plan_index as int].owner && spec_valid_period(
                start_time,
                cliff_time,
                end_time,
            ) && total_amount != 0 && old(self).spec_has_grant_for(beneficiary, plan_index as int)
                ==> r == Err::<usize, ErrorCode>(ErrorCode::DuplicateGrant) && final(self).grants@
                == old(self).grants@,
            owner == old(self).plans@[plan_index as int].owner && spec_valid_period(
                start_time,
                cliff_time,
                end_time,
            ) && total_amount != 0 && !old(self).spec_has_grant_for(beneficiary, plan_index as int)
                ==> {
                &&& r == Ok::<usize, ErrorCode>(old(self).grants@.len() as usize)
                &&& final(self).grants@ == old(self).grants@.push(
                    (EmployeeAccount {
                        beneficiary,
                        start_time,
                        end_time,
                        cliff_time,
                        vesting_account: plan_index,
                        total_amount,
                        total_withdrawn: 0,
                    }),
                )
            },
    {
        if owner != self.plans[plan_index].owner {
            return Err(ErrorCode::Unauthorized);
        }
        let grant = match EmployeeAccount::new(
            beneficiary,
            plan_index,
            start_time,
            cliff_time,
            end_time,
            total_amount,
        ) {
            Ok(g) => g,
            Err(e) => {
                return Err(e);
            },
        };
        match self.find_grant(beneficiary, plan_index) {
            Some(_) => Err(ErrorCode::DuplicateGrant),
            None => {
                let index = self.grants.len();
                self.grants.push(grant);
                proof {
                    assert forall|i: int, j: int|
                        #![trigger self.grants@[i], self.grants@[j]]
                        0 <= i < j < self.grants@.len() implies !(self.grants@[i].beneficiary
                        == self.grants@[j].beneficiary && self.grants@[i].vesting_account
                        == self.grants@[j].vesting_account) by {
                        if j < old(self).grants@.len() {
                            assert(old(self).grants@[i] == self.grants@[i]);
                            assert(old(self).grants@[j] == self.grants@[j]);
                        } else {
                            assert(old(self).grants@[i] == self.grants@[i]);
                        }
                    }
                }
                Ok(index)
            },
        }
    }

    /// Performs a claim on the grant at `grant_index` at time `now`. The
    /// grant alone changes, exactly as its own claim does; everything
    /// else in the ledger stays as it was. Taking the ledger by exclusive
    /// reference makes the read and the write of the withdrawal one
    /// step: two claims against the same grant can only run one after
    /// the other.
    pub fn claim_tokens(&mut self, grant_index: usize, now: i64) -> (r: Result<u64, ErrorCode>)
        requires
            old(self).well_formed(),
            grant_index < old(self).grants@.len(),
        ensures
            final(self).well_formed(),
            final(self).plans@ == old(self).plans@,
            final(self).grants@.len() == old(self).grants@.len(),
            forall|i: int|
                0 <= i < old(self).grants@.len() && i != grant_index ==> final(self).grants@[i]
                    == old(self).grants@[i],
            r == old(self).grants@[grant_index as int].spec_claim_outcome(now as int),
            final(self).grants@[grant_index as int] == old(self).grants@[grant_index as int]
                .spec_grant_after_claim(now as int),
    {
        let mut grant = self.grants[grant_index];
        let r = grant.claim_tokens(now);
        self.grants[grant_index] = grant;
        proof {
            assert forall|i: int, j: int|
                #![trigger self.grants@[i], self.grants@[j]]
                0 <= i < j < self.grants@.len() implies !(self.grants@[i].beneficiary
                == self.grants@[j].beneficiary && self.grants@[i].vesting_account
                == self.grants@[j].vesting_account) by {
                assert(old(self).grants@[i].beneficiary == self.grants@[i].beneficiary);
                assert(old(self).grants@[j].beneficiary == self.grants@[j].beneficiary);
                assert(old(self).grants@[i].vesting_account == self.grants@[i].vesting_account);
                assert(old(self).grants@[j].vesting_account == self.grants@[j].vesting_account);
            }
        }
        r
    }
}

} // verus!
