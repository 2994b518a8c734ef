//! Custodial escrow engine for unique digital assets: collateralised loans
//! (request, fund, repay, default, cancel) and redemption requests
//! (request, fulfil, cancel), with custody and authorisation rules proved.

pub mod address;
pub mod effects;
pub mod errors;
pub mod escrow;
pub mod laws;
pub mod state;
pub mod vault;
