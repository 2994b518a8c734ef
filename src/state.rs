use crate::address::Address;
use vstd::prelude::*;

verus! {

/// Who funded a loan, and when. Present exactly when the loan is active.
#[derive(Clone, Copy, Debug, PartialEq, Eq)]
pub struct Funding {
    pub lender: Address,
    pub start_time: i64,
}

/// A loan request, or an active loan, with one asset unit as collateral.
#[derive(Clone, Copy, Debug, PartialEq, Eq)]
pub struct LoanInfo {
    /// The asset held as collateral.
    pub nft_mint: Address,
    /// The party that staked the asset and receives the principal.
    pub nft_owner: Address,
    /// The principal.
    pub loan_amount: u64,
    /// What is owed on top of the principal at repayment.
    pub interest_amount: u64,
    /// Length of the loan term, in seconds; strictly positive.
    pub duration: i64,
    /// The lender and the start of the term, once funded.
    pub funding: Option<Funding>,
}

impl LoanInfo {
    /// The last instant at which the borrower may still repay.
    pub open spec fn deadline(&self) -> int
        recommends
            self.funding is Some,
    {
        self.funding->0.start_time + self.duration
    }

    /// Principal plus interest, in unbounded arithmetic.
    pub open spec fn total_due(&self) -> int {
        self.loan_amount + self.interest_amount
    }

    pub fn is_active(&self) -> (r: bool)
        ensures
            r == (self.funding is Some),
    {
        self.funding.is_some()
    }
}

/// A request to redeem an asset for its physical counterpart.
#[derive(Clone, Copy, Debug, PartialEq, Eq)]
pub struct AssetRedemptionInfo {
    /// The asset handed over for redemption.
    pub nft_mint: Address,
    /// The party that asked for the redemption.
    pub nft_owner: Address,
    /// When the request was made.
    pub request_timestamp: i64,
    /// Set once, by the administrator; the asset then stays in custody for good.
    pub is_fulfilled: bool,
}

} // verus!
