use collectible_vault::address::Address;
use collectible_vault::effects::{CustodyMove, Payment};
use collectible_vault::errors::ErrorCode;
use collectible_vault::escrow::VaultConfig;
use collectible_vault::vault::Vault;

fn addr(n: u8) -> Address {
    Address::new([n; 32])
}

#[test]
fn new_vault_holds_nothing() {
    let v = Vault::new(VaultConfig::new(addr(9)));
    assert_eq!(v.loan(&addr(10)), None);
    assert_eq!(v.redemption(&addr(10)), None);
    assert_eq!(v.config(), VaultConfig::new(addr(9)));
}

#[test]
fn vault_loan_lifecycle_by_asset() {
    let mut v = Vault::new(VaultConfig::new(addr(9)));
    v.stake_nft_for_loan(&addr(10), &addr(1), 1, 100, 5, 86400).unwrap();
    v.stake_nft_for_loan(&addr(11), &addr(1), 1, 200, 7, 86400).unwrap();
    v.provide_loan_liquidity(&addr(10), &addr(2), 100, 0).unwrap();
    assert!(v.loan(&addr(10)).unwrap().is_active());
    assert!(!v.loan(&addr(11)).unwrap().is_active());
    let fx = v.repay_loan(&addr(10), &addr(1), 86400).unwrap();
    assert_eq!(fx.payment, Some(Payment { from: addr(1), to: addr(2), amount: 105 }));
    assert_eq!(v.loan(&addr(10)), None);
    assert_eq!(v.loan(&addr(11)).unwrap().loan_amount, 200);
    assert_eq!(v.repay_loan(&addr(10), &addr(1), 0), Err(ErrorCode::AccountNotInitialized));
    let fx = v.cancel_loan_request(&addr(11), &addr(1)).unwrap();
    assert_eq!(fx.custody, Some(CustodyMove::Release { to: addr(1) }));
    assert_eq!(v.loan(&addr(11)), None);
}

#[test]
fn vault_default_claim() {
    let mut v = Vault::new(VaultConfig::new(addr(9)));
    v.stake_nft_for_loan(&addr(10), &addr(1), 1, 100, 5, 86400).unwrap();
    v.provide_loan_liquidity(&addr(10), &addr(2), 100, 0).unwrap();
    assert_eq!(v.repay_loan(&addr(10), &addr(1), 86401), Err(ErrorCode::LoanExpired));
    let fx = v.claim_delinquent_nft(&addr(10), &addr(2), 86401).unwrap();
    assert_eq!(fx.custody, Some(CustodyMove::Release { to: addr(2) }));
    assert_eq!(v.loan(&addr(10)), None);
    v.stake_nft_for_loan(&addr(10), &addr(2), 1, 1, 1, 1).unwrap();
    assert_eq!(v.loan(&addr(10)).unwrap().nft_owner, addr(2));
}

#[test]
fn vault_redemption_uses_configured_admin() {
    let mut v = Vault::new(VaultConfig::new(addr(9)));
    v.create_asset_redemption_request(&addr(20), &addr(3), 1, 42).unwrap();
    assert_eq!(v.fulfill_asset_redemption_request(&addr(20), &addr(3)), Err(ErrorCode::UnauthorizedTransactionSigner));
    v.fulfill_asset_redemption_request(&addr(20), &addr(9)).unwrap();
    assert_eq!(
        v.cancel_asset_redemption_request(&addr(20), &addr(3)),
        Err(ErrorCode::RedemptionRequestAlreadyFulfilled)
    );
    assert!(v.redemption(&addr(20)).unwrap().is_fulfilled);
    assert_eq!(v.stake_nft_for_loan(&addr(20), &addr(3), 1, 1, 1, 1), Err(ErrorCode::AssetInCustody));
}

#[test]
fn vault_redemption_cancel_frees_asset() {
    let mut v = Vault::new(VaultConfig::new(addr(9)));
    v.create_asset_redemption_request(&addr(20), &addr(3), 1, 42).unwrap();
    v.cancel_asset_redemption_request(&addr(20), &addr(3)).unwrap();
    assert_eq!(v.redemption(&addr(20)), None);
    assert!(v.stake_nft_for_loan(&addr(20), &addr(3), 1, 1, 1, 1).is_ok());
}
