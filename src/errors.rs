use vstd::prelude::*;

verus! {

/// Why an escrow operation was refused. A refused operation changes nothing.
#[derive(Clone, Copy, Debug, PartialEq, Eq, Structural)]
pub enum ErrorCode {
    /// A minted item names a collection other than the vault's.
    CollectionMintDoesNotMatch,
    /// Someone other than the administrator called an administrative operation.
    UnauthorizedTransactionSigner,
    /// The loan has already been funded.
    LoanAlreadyActive,
    /// The loan term is not strictly positive.
    InvalidLoanDuration,
    /// The caller does not hold exactly one unit of the asset outside escrow.
    InvalidNFTAccount,
    /// The lender's balance is below the principal.
    InsufficientFunds,
    /// The caller is not the borrower of the loan.
    InvalidBorrower,
    /// The loan has not been funded.
    LoanNotActive,
    /// The repayment deadline has passed.
    LoanExpired,
    /// The caller is not the lender of the loan.
    InvalidLender,
    /// The repayment deadline has not passed yet.
    LoanNotExpired,
    /// Principal plus interest does not fit in a `u64`.
    CalculationError,
    /// The loan request has a lender and can no longer be cancelled.
    LoanAlreadyFunded,
    /// Only the owner of a loan request may cancel it.
    UnauthorizedLoanCancellation,
    /// Only the owner of a redemption request may cancel it.
    UnauthorizedRedemptionRequest,
    /// The redemption request has already been fulfilled.
    RedemptionRequestAlreadyFulfilled,
    /// No record of this kind exists for the asset.
    AccountNotInitialized,
    /// A record of this kind already exists for the asset.
    AccountAlreadyInitialized,
    /// The asset is already held in custody by the other lifecycle.
    AssetInCustody,
}

} // verus!
