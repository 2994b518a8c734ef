use crate::address::Address;
use crate::effects::{CustodyMove, Effects, Payment};
use crate::errors::ErrorCode;
use crate::escrow::{
    cancel_loan_step, cancel_redemption_step, claim_default_step, fulfill_redemption_step,
    fund_loan_step, open_loan_step, open_redemption_step, repay_loan_step, AssetEscrow, Step,
};
use vstd::prelude::*;

verus! {

/// No operation that resolves a loan can succeed on `e`, for this caller and time.
pub open spec fn unresolvable(e: AssetEscrow, caller: Address, now: i64) -> bool {
    &&& repay_loan_step(e, caller, now) is Err
    &&& claim_default_step(e, caller, now) is Err
    &&& cancel_loan_step(e, caller) is Err
}

/// The custody move of a successful step agrees with the records: a hold
/// exactly when the asset enters custody, a release exactly when it leaves.
pub open spec fn custody_tracks_records(before: AssetEscrow, step: Step) -> bool {
    step matches Ok((after, fx)) ==> match fx.custody {
        Some(CustodyMove::Hold { .. }) => !before.in_custody() && after.in_custody(),
        Some(CustodyMove::Release { .. }) => before.in_custody() && !after.in_custody(),
        None => before.in_custody() == after.in_custody(),
    }
}

/// A successful loan step releases the asset only to the loan's owner, or to
/// its lender once the deadline has passed.
pub open spec fn loan_release_entitled(before: AssetEscrow, step: Step, now: i64) -> bool {
    step matches Ok((_, fx)) ==> (fx.custody matches Some(CustodyMove::Release { to }) ==> {
        let l = before.loan->0;
        ||| to == l.nft_owner
        ||| (l.funding matches Some(f) && to == f.lender && now > l.deadline())
    })
}

/// A successful redemption step releases the asset only to the requester,
/// and never once the request is fulfilled.
pub open spec fn redemption_release_entitled(before: AssetEscrow, step: Step) -> bool {
    step matches Ok((_, fx)) ==> (fx.custody matches Some(CustodyMove::Release { to }) ==> {
        let q = before.redemption->0;
        to == q.nft_owner && !q.is_fulfilled
    })
}

/// Opening a loan request and cancelling it at once returns the asset to its
/// owner and leaves the asset's state as it was, with no record.
pub proof fn lemma_open_then_cancel_round_trip(
    e: AssetEscrow,
    owner: Address,
    loan_amount: u64,
    interest_amount: u64,
    duration: i64,
)
    requires
        e.wf(),
        e.loan is None,
        e.redemption is None,
        duration > 0,
    ensures
        open_loan_step(e, owner, 1, loan_amount, interest_amount, duration) matches Ok((opened, fx)) && {
            &&& fx.custody == Some(CustodyMove::Hold { from: owner })
            &&& cancel_loan_step(opened, owner) == Ok::<(AssetEscrow, Effects), ErrorCode>((
                e,
                Effects { payment: None, custody: Some(CustodyMove::Release { to: owner }), closed_to: Some(owner) },
            ))
        },
{
}

/// Once one of repay, claim-default and cancel has succeeded on a loan, none
/// of the three succeeds again, whoever calls and whenever.
pub proof fn lemma_at_most_one_resolution(e: AssetEscrow, first_caller: Address, first_now: i64, caller: Address, now: i64)
    requires
        e.wf(),
    ensures
        repay_loan_step(e, first_caller, first_now) matches Ok((after, _)) ==> unresolvable(after, caller, now),
        claim_default_step(e, first_caller, first_now) matches Ok((after, _)) ==> unresolvable(after, caller, now),
        cancel_loan_step(e, first_caller) matches Ok((after, _)) ==> unresolvable(after, caller, now),
{
}

/// On a funded loan whose total fits in a `u64`, the owner's repayment
/// succeeds exactly up to the deadline and the lender's claim exactly after
/// it: at every instant one of the two, and only one, succeeds.
pub proof fn lemma_deadline_splits_repay_and_claim(e: AssetEscrow, now: i64)
    requires
        e.wf(),
        e.loan matches Some(l) && l.funding is Some && l.total_due() <= u64::MAX,
    ensures
        ({
            let l = e.loan->0;
            let lender = l.funding->0.lender;
            &&& repay_loan_step(e, l.nft_owner, now) is Ok <==> now <= l.deadline()
            &&& claim_default_step(e, lender, now) is Ok <==> now > l.deadline()
            &&& (repay_loan_step(e, l.nft_owner, now) is Ok) != (claim_default_step(e, lender, now) is Ok)
        }),
{
}

/// The owner's in-term repayment pays the lender exactly principal plus
/// interest when that sum fits in a `u64`, and otherwise fails with
/// `CalculationError`, which changes nothing.
pub proof fn lemma_repayment_total(e: AssetEscrow, now: i64)
    requires
        e.wf(),
        e.loan matches Some(l) && l.funding is Some && now <= l.deadline(),
    ensures
        ({
            let l = e.loan->0;
            let step = repay_loan_step(e, l.nft_owner, now);
            &&& l.total_due() <= u64::MAX ==> (step matches Ok((_, fx)) && fx.payment == Some(Payment {
                from: l.nft_owner,
                to: l.funding->0.lender,
                amount: (l.loan_amount + l.interest_amount) as u64,
            }))
            &&& l.total_due() > u64::MAX ==> step == Err::<(AssetEscrow, Effects), ErrorCode>(ErrorCode::CalculationError)
        }),
{
}

/// Funding fails on an asset with no loan request and on an active loan.
pub proof fn lemma_fund_needs_open_request(e: AssetEscrow, lender: Address, lender_balance: u64, now: i64)
    requires
        e.wf(),
        e.loan is None || e.loan->0.funding is Some,
    ensures
        fund_loan_step(e, lender, lender_balance, now) is Err,
{
}

/// Every step keeps the state well formed, and every successful step moves
/// the asset into or out of custody exactly when its records appear or vanish.
pub proof fn lemma_steps_keep_custody_consistent(
    e: AssetEscrow,
    caller: Address,
    admin: Address,
    units: u64,
    amount: u64,
    interest: u64,
    duration: i64,
    now: i64,
)
    requires
        e.wf(),
    ensures
        custody_tracks_records(e, open_loan_step(e, caller, units, amount, interest, duration)),
        custody_tracks_records(e, fund_loan_step(e, caller, amount, now)),
        custody_tracks_records(e, repay_loan_step(e, caller, now)),
        custody_tracks_records(e, claim_default_step(e, caller, now)),
        custody_tracks_records(e, cancel_loan_step(e, caller)),
        custody_tracks_records(e, open_redemption_step(e, caller, units, now)),
        custody_tracks_records(e, cancel_redemption_step(e, caller)),
        custody_tracks_records(e, fulfill_redemption_step(e, caller, admin)),
{
}

/// The asset leaves custody only for a party entitled to it: the owner who
/// staked it, the lender of a loan past its deadline, or the requester of an
/// unfulfilled redemption.
pub proof fn lemma_release_only_to_entitled(e: AssetEscrow, caller: Address, admin: Address, now: i64)
    requires
        e.wf(),
    ensures
        loan_release_entitled(e, repay_loan_step(e, caller, now), now),
        loan_release_entitled(e, claim_default_step(e, caller, now), now),
        loan_release_entitled(e, cancel_loan_step(e, caller), now),
        redemption_release_entitled(e, cancel_redemption_step(e, caller)),
        redemption_release_entitled(e, fulfill_redemption_step(e, caller, admin)),
{
}

} // verus!
