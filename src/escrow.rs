use crate::address::Address;
use crate::effects::{CustodyMove, Effects, Payment};
use crate::errors::ErrorCode;
use crate::state::{AssetRedemptionInfo, Funding, LoanInfo};
use vstd::prelude::*;

verus! {

/// Configuration fixed for the life of the engine.
#[derive(Clone, Copy, Debug, PartialEq, Eq)]
pub struct VaultConfig {
    /// The only identity allowed to fulfil redemption requests.
    pub admin: Address,
}

impl VaultConfig {
    pub fn new(admin: Address) -> (r: VaultConfig)
        ensures
            r.admin == admin,
    {
        VaultConfig { admin }
    }
}

/// Everything the escrow engine keeps about one asset: at most one loan
/// record and at most one redemption record, never both.
#[derive(Clone, Copy, Debug, PartialEq, Eq)]
pub struct AssetEscrow {
    pub asset: Address,
    pub loan: Option<LoanInfo>,
    pub redemption: Option<AssetRedemptionInfo>,
}

/// The outcome of an operation in the model: the next state and the effects
/// to carry out, or the error.
pub type Step = Result<(AssetEscrow, Effects), ErrorCode>;

/// The exec result `r` and final state `after` are exactly what the model
/// step prescribes; on an error nothing changes.
pub open spec fn follows(
    before: AssetEscrow,
    after: AssetEscrow,
    r: Result<Effects, ErrorCode>,
    step: Step,
) -> bool {
    match step {
        Ok((next, fx)) => after == next && r == Ok::<Effects, ErrorCode>(fx),
        Err(err) => after == before && r == Err::<Effects, ErrorCode>(err),
    }
}

impl AssetEscrow {
    /// Records belong to this asset, a loan term is strictly positive, and
    /// the asset is under at most one lifecycle.
    pub open spec fn wf(&self) -> bool {
        &&& (self.loan matches Some(l) ==> l.nft_mint == self.asset && l.duration > 0)
        &&& (self.redemption matches Some(r) ==> r.nft_mint == self.asset)
        &&& !(self.loan is Some && self.redemption is Some)
    }

    /// The asset unit is in the custody vault.
    pub open spec fn in_custody(&self) -> bool {
        self.loan is Some || self.redemption is Some
    }
}

/// OpenLoan: stake the asset and record the requested terms.
pub open spec fn open_loan_step(
    e: AssetEscrow,
    owner: Address,
    owner_units: u64,
    loan_amount: u64,
    interest_amount: u64,
    duration: i64,
) -> Step {
    if e.loan is Some {
        Err(ErrorCode::AccountAlreadyInitialized)
    } else if e.redemption is Some {
        Err(ErrorCode::AssetInCustody)
    } else if owner_units != 1 {
        Err(ErrorCode::InvalidNFTAccount)
    } else if duration <= 0 {
        Err(ErrorCode::InvalidLoanDuration)
    } else {
        let loan = LoanInfo {
            nft_mint: e.asset,
            nft_owner: owner,
            loan_amount,
            interest_amount,
            duration,
            funding: None,
        };
        Ok((
            AssetEscrow { loan: Some(loan), ..e },
            Effects {
                payment: None,
                custody: Some(CustodyMove::Hold { from: owner }),
                closed_to: None,
            },
        ))
    }
}

/// FundLoan: the lender pays the principal to the owner and the term starts.
pub open spec fn fund_loan_step(e: AssetEscrow, lender: Address, lender_balance: u64, now: i64) -> Step {
    match e.loan {
        None => Err(ErrorCode::AccountNotInitialized),
        Some(l) => if l.funding is Some {
            Err(ErrorCode::LoanAlreadyActive)
        } else if lender_balance < l.loan_amount {
            Err(ErrorCode::InsufficientFunds)
        } else {
            let funded = LoanInfo { funding: Some(Funding { lender, start_time: now }), ..l };
            Ok((
                AssetEscrow { loan: Some(funded), ..e },
                Effects {
                    payment: Some(Payment { from: lender, to: l.nft_owner, amount: l.loan_amount }),
                    custody: None,
                    closed_to: None,
                },
            ))
        },
    }
}

/// RepayLoan: the owner pays principal plus interest to the lender, within
/// the term, and gets the asset back.
pub open spec fn repay_loan_step(e: AssetEscrow, caller: Address, now: i64) -> Step {
    match e.loan {
        None => Err(ErrorCode::AccountNotInitialized),
        Some(l) => match l.funding {
            None => Err(ErrorCode::LoanNotActive),
            Some(f) => if caller != l.nft_owner {
                Err(ErrorCode::InvalidBorrower)
            } else if now > l.deadline() {
                Err(ErrorCode::LoanExpired)
            } else if l.total_due() > u64::MAX {
                Err(ErrorCode::CalculationError)
            } else {
                Ok((
                    AssetEscrow { loan: None, ..e },
                    Effects {
                        payment: Some(Payment { from: caller, to: f.lender, amount: l.total_due() as u64 }),
                        custody: Some(CustodyMove::Release { to: l.nft_owner }),
                        closed_to: Some(l.nft_owner),
                    },
                ))
            },
        },
    }
}

/// ClaimDefault: after the term, the lender takes the collateral.
pub open spec fn claim_default_step(e: AssetEscrow, caller: Address, now: i64) -> Step {
    match e.loan {
        None => Err(ErrorCode::AccountNotInitialized),
        Some(l) => match l.funding {
            None => Err(ErrorCode::LoanNotActive),
            Some(f) => if caller != f.lender {
                Err(ErrorCode::InvalidLender)
            } else if now <= l.deadline() {
                Err(ErrorCode::LoanNotExpired)
            } else {
                Ok((
                    AssetEscrow { loan: None, ..e },
                    Effects {
                        payment: None,
                        custody: Some(CustodyMove::Release { to: f.lender }),
                        closed_to: Some(f.lender),
                    },
                ))
            },
        },
    }
}

/// CancelLoan: the owner withdraws an unfunded request and gets the asset back.
pub open spec fn cancel_loan_step(e: AssetEscrow, caller: Address) -> Step {
    match e.loan {
        None => Err(ErrorCode::AccountNotInitialized),
        Some(l) => if caller != l.nft_owner {
            Err(ErrorCode::UnauthorizedLoanCancellation)
        } else if l.funding is Some {
            Err(ErrorCode::LoanAlreadyFunded)
        } else {
            Ok((
                AssetEscrow { loan: None, ..e },
                Effects {
                    payment: None,
                    custody: Some(CustodyMove::Release { to: l.nft_owner }),
                    closed_to: Some(l.nft_owner),
                },
            ))
        },
    }
}

/// OpenRedemption: hand the asset over to custody against a physical deliverable.
pub open spec fn open_redemption_step(e: AssetEscrow, owner: Address, owner_units: u64, now: i64) -> Step {
    if e.redemption is Some {
        Err(ErrorCode::AccountAlreadyInitialized)
    } else if e.loan is Some {
        Err(ErrorCode::AssetInCustody)
    } else if owner_units != 1 {
        Err(ErrorCode::InvalidNFTAccount)
    } else {
        let request = AssetRedemptionInfo {
            nft_mint: e.asset,
            nft_owner: owner,
            request_timestamp: now,
            is_fulfilled: false,
        };
        Ok((
            AssetEscrow { redemption: Some(request), ..e },
            Effects {
                payment: None,
                custody: Some(CustodyMove::Hold { from: owner }),
                closed_to: None,
            },
        ))
    }
}

/// CancelRedemption: the owner withdraws an unfulfilled request and gets the asset back.
pub open spec fn cancel_redemption_step(e: AssetEscrow, caller: Address) -> Step {
    match e.redemption {
        None => Err(ErrorCode::AccountNotInitialized),
        Some(q) => if q.is_fulfilled {
            Err(ErrorCode::RedemptionRequestAlreadyFulfilled)
        } else if caller != q.nft_owner {
            Err(ErrorCode::UnauthorizedRedemptionRequest)
        } else {
            Ok((
                AssetEscrow { redemption: None, ..e },
                Effects {
                    payment: None,
                    custody: Some(CustodyMove::Release { to: q.nft_owner }),
                    closed_to: Some(q.nft_owner),
                },
            ))
        },
    }
}

/// FulfillRedemption: the administrator marks the request fulfilled; the asset
/// stays in custody and the record is kept.
pub open spec fn fulfill_redemption_step(e: AssetEscrow, caller: Address, admin: Address) -> Step {
    match e.redemption {
        None => Err(ErrorCode::AccountNotInitialized),
        Some(q) => if q.is_fulfilled {
            Err(ErrorCode::RedemptionRequestAlreadyFulfilled)
        } else if caller != admin {
            Err(ErrorCode::UnauthorizedTransactionSigner)
        } else {
            let fulfilled = AssetRedemptionInfo { is_fulfilled: true, ..q };
            Ok((AssetEscrow { redemption: Some(fulfilled), ..e }, Effects::none()))
        },
    }
}

impl AssetEscrow {
    /// The state of an asset that no lifecycle holds.
    pub fn new(asset: Address) -> (r: AssetEscrow)
        ensures
            r.wf(),
            r.asset == asset,
            r.loan is None,
            r.redemption is None,
    {
        AssetEscrow { asset, loan: None, redemption: None }
    }

    /// Whether state loaded from elsewhere is well formed.
    pub fn check_well_formed(&self) -> (r: bool)
        ensures
            r == self.wf(),
    {
        let loan_ok = match self.loan {
            Some(l) => l.nft_mint.same_as(&self.asset) && l.duration > 0,
            None => true,
        };
        let redemption_ok = match self.redemption {
            Some(q) => q.nft_mint.same_as(&self.asset),
            None => true,
        };
        loan_ok && redemption_ok && !(self.loan.is_some() && self.redemption.is_some())
    }

    /// Stakes the asset, held by `owner` (`owner_units` units outside
    /// escrow), as collateral for a loan request.
    pub fn stake_nft_for_loan(
        &mut self,
        owner: &Address,
        owner_units: u64,
        loan_amount: u64,
        interest_amount: u64,
        duration: i64,
    ) -> (r: Result<Effects, ErrorCode>)
        requires
            old(self).wf(),
        ensures
            final(self).wf(),
            follows(
                *old(self),
                *final(self),
                r,
                open_loan_step(*old(self), *owner, owner_units, loan_amount, interest_amount, duration),
            ),
    {
        if self.loan.is_some() {
            return Err(ErrorCode::AccountAlreadyInitialized);
        }
        if self.redemption.is_some() {
            return Err(ErrorCode::AssetInCustody);
        }
        if owner_units != 1 {
            return Err(ErrorCode::InvalidNFTAccount);
        }
        if duration <= 0 {
            return Err(ErrorCode::InvalidLoanDuration);
        }
        self.loan = Some(LoanInfo {
            nft_mint: self.asset,
            nft_owner: *owner,
            loan_amount,
            interest_amount,
            duration,
            funding: None,
        });
        Ok(Effects {
            payment: None,
            custody: Some(CustodyMove::Hold { from: *owner }),
            closed_to: None,
        })
    }

    /// Funds the loan request from `lender`, whose balance is `lender_balance`,
    /// starting the term at `now`.
    pub fn provide_loan_liquidity(
        &mut self,
        lender: &Address,
        lender_balance: u64,
        now: i64,
    ) -> (r: Result<Effects, ErrorCode>)
        requires
            old(self).wf(),
        ensures
            final(self).wf(),
            follows(*old(self), *final(self), r, fund_loan_step(*old(self), *lender, lender_balance, now)),
    {
        let l = match self.loan {
            None => return Err(ErrorCode::AccountNotInitialized),
            Some(l) => l,
        };
        if l.funding.is_some() {
            return Err(ErrorCode::LoanAlreadyActive);
        }
        if lender_balance < l.loan_amount {
            return Err(ErrorCode::InsufficientFunds);
        }
        self.loan = Some(LoanInfo { funding: Some(Funding { lender: *lender, start_time: now }), ..l });
        Ok(Effects {
            payment: Some(Payment { from: *lender, to: l.nft_owner, amount: l.loan_amount }),
            custody: None,
            closed_to: None,
        })
    }

    /// Repays the loan: principal plus interest to the lender, the asset back
    /// to the owner, the record closed.
    pub fn repay_loan(&mut self, caller: &Address, now: i64) -> (r: Result<Effects, ErrorCode>)
        requires
            old(self).wf(),
        ensures
            final(self).wf(),
            follows(*old(self), *final(self), r, repay_loan_step(*old(self), *caller, now)),
    {
        let l = match self.loan {
            None => return Err(ErrorCode::AccountNotInitialized),
            Some(l) => l,
        };
        let f = match l.funding {
            None => return Err(ErrorCode::LoanNotActive),
            Some(f) => f,
        };
        if !caller.same_as(&l.nft_owner) {
            return Err(ErrorCode::InvalidBorrower);
        }
        if now as i128 > f.start_time as i128 + l.duration as i128 {
            return Err(ErrorCode::LoanExpired);
        }
        let total = match l.loan_amount.checked_add(l.interest_amount) {
            None => return Err(ErrorCode::CalculationError),
            Some(t) => t,
        };
        self.loan = None;
        Ok(Effects {
            payment: Some(Payment { from: *caller, to: f.lender, amount: total }),
            custody: Some(CustodyMove::Release { to: l.nft_owner }),
            closed_to: Some(l.nft_owner),
        })
    }

    /// Hands the collateral of an expired loan to its lender and closes the record.
    pub fn claim_delinquent_nft(&mut self, caller: &Address, now: i64) -> (r: Result<Effects, ErrorCode>)
        requires
            old(self).wf(),
        ensures
            final(self).wf(),
            follows(*old(self), *final(self), r, claim_default_step(*old(self), *caller, now)),
    {
        let l = match self.loan {
            None => return Err(ErrorCode::AccountNotInitialized),
            Some(l) => l,
        };
        let f = match l.funding {
            None => return Err(ErrorCode::LoanNotActive),
            Some(f) => f,
        };
        if !caller.same_as(&f.lender) {
            return Err(ErrorCode::InvalidLender);
        }
        if now as i128 <= f.start_time as i128 + l.duration as i128 {
            return Err(ErrorCode::LoanNotExpired);
        }
        self.loan = None;
        Ok(Effects {
            payment: None,
            custody: Some(CustodyMove::Release { to: f.lender }),
            closed_to: Some(f.lender),
        })
    }

    /// Withdraws an unfunded loan request: the asset goes back to its owner.
    pub fn cancel_loan_request(&mut self, caller: &Address) -> (r: Result<Effects, ErrorCode>)
        requires
            old(self).wf(),
        ensures
            final(self).wf(),
            follows(*old(self), *final(self), r, cancel_loan_step(*old(self), *caller)),
    {
        let l = match self.loan {
            None => return Err(ErrorCode::AccountNotInitialized),
            Some(l) => l,
        };
        if !caller.same_as(&l.nft_owner) {
            return Err(ErrorCode::UnauthorizedLoanCancellation);
        }
        if l.funding.is_some() {
            return Err(ErrorCode::LoanAlreadyFunded);
        }
        self.loan = None;
        Ok(Effects {
            payment: None,
            custody: Some(CustodyMove::Release { to: l.nft_owner }),
            closed_to: Some(l.nft_owner),
        })
    }

    /// Hands the asset, held by `owner`, over for redemption at time `now`.
    pub fn create_asset_redemption_request(
        &mut self,
        owner: &Address,
        owner_units: u64,
        now: i64,
    ) -> (r: Result<Effects, ErrorCode>)
        requires
            old(self).wf(),
        ensures
            final(self).wf(),
            follows(*old(self), *final(self), r, open_redemption_step(*old(self), *owner, owner_units, now)),
    {
        if self.redemption.is_some() {
            return Err(ErrorCode::AccountAlreadyInitialized);
        }
        if self.loan.is_some() {
            return Err(ErrorCode::AssetInCustody);
        }
        if owner_units != 1 {
            return Err(ErrorCode::InvalidNFTAccount);
        }
        self.redemption = Some(AssetRedemptionInfo {
            nft_mint: self.asset,
            nft_owner: *owner,
            request_timestamp: now,
            is_fulfilled: false,
        });
        Ok(Effects {
            payment: None,
            custody: Some(CustodyMove::Hold { from: *owner }),
            closed_to: None,
        })
    }

    /// Withdraws an unfulfilled redemption request: the asset goes back to its owner.
    pub fn cancel_asset_redemption_request(&mut self, caller: &Address) -> (r: Result<Effects, ErrorCode>)
        requires
            old(self).wf(),
        ensures
            final(self).wf(),
            follows(*old(self), *final(self), r, cancel_redemption_step(*old(self), *caller)),
    {
        let q = match self.redemption {
            None => return Err(ErrorCode::AccountNotInitialized),
            Some(q) => q,
        };
        if q.is_fulfilled {
            return Err(ErrorCode::RedemptionRequestAlreadyFulfilled);
        }
        if !caller.same_as(&q.nft_owner) {
            return Err(ErrorCode::UnauthorizedRedemptionRequest);
        }
        self.redemption = None;
        Ok(Effects {
            payment: None,
            custody: Some(CustodyMove::Release { to: q.nft_owner }),
            closed_to: Some(q.nft_owner),
        })
    }

    /// Marks the redemption request fulfilled, on the administrator's word.
    pub fn fulfill_asset_redemption_request(
        &mut self,
        caller: &Address,
        config: &VaultConfig,
    ) -> (r: Result<Effects, ErrorCode>)
        requires
            old(self).wf(),
        ensures
            final(self).wf(),
            follows(*old(self), *final(self), r, fulfill_redemption_step(*old(self), *caller, config.admin)),
    {
        let q = match self.redemption {
            None => return Err(ErrorCode::AccountNotInitialized),
            Some(q) => q,
        };
        if q.is_fulfilled {
            return Err(ErrorCode::RedemptionRequestAlreadyFulfilled);
        }
        if !caller.same_as(&config.admin) {
            return Err(ErrorCode::UnauthorizedTransactionSigner);
        }
        self.redemption = Some(AssetRedemptionInfo { is_fulfilled: true, ..q });
        Ok(Effects { payment: None, custody: None, closed_to: None })
    }
}

} // verus!
