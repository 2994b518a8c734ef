use crate::address::Address;
use crate::effects::Effects;
use crate::errors::ErrorCode;
use crate::escrow::{
    cancel_loan_step, cancel_redemption_step, claim_default_step, follows, fulfill_redemption_step,
    fund_loan_step, open_loan_step, open_redemption_step, repay_loan_step, AssetEscrow, VaultConfig,
};
use crate::state::{AssetRedemptionInfo, LoanInfo};
use vstd::prelude::*;

verus! {

/// The escrow engine over all assets: one entry per asset that some
/// lifecycle holds, and the configuration given at construction.
pub struct Vault {
    config: VaultConfig,
    escrows: Vec<AssetEscrow>,
}

/// The state of an asset that no lifecycle holds.
pub open spec fn free_escrow(asset: Address) -> AssetEscrow {
    AssetEscrow { asset, loan: None, redemption: None }
}

impl Vault {
    pub closed spec fn spec_config(&self) -> VaultConfig {
        self.config
    }

    /// What the engine keeps about `asset`.
    pub closed spec fn state_of(&self, asset: Address) -> AssetEscrow {
        if exists|i: int| 0 <= i < self.escrows@.len() && #[trigger] self.escrows@[i].asset == asset {
            self.escrows@[choose|i: int| 0 <= i < self.escrows@.len() && #[trigger] self.escrows@[i].asset == asset]
        } else {
            free_escrow(asset)
        }
    }

    /// Each entry is well formed and holds a record, and no two share an asset.
    pub closed spec fn wf(&self) -> bool {
        &&& forall|i: int| 0 <= i < self.escrows@.len() ==> (#[trigger] self.escrows@[i]).wf() && self.escrows@[i].in_custody()
        &&& forall|i: int, j: int|
            0 <= i < j < self.escrows@.len() ==> (#[trigger] self.escrows@[i]).asset != (#[trigger] self.escrows@[j]).asset
    }

    /// Every asset's state is well formed and about that asset.
    pub proof fn lemma_state_of_wf(&self, asset: Address)
        requires
            self.wf(),
        ensures
            self.state_of(asset).wf(),
            self.state_of(asset).asset == asset,
    {
        if exists|i: int| 0 <= i < self.escrows@.len() && #[trigger] self.escrows@[i].asset == asset {
            let i = choose|i: int| 0 <= i < self.escrows@.len() && #[trigger] self.escrows@[i].asset == asset;
            assert(self.escrows@[i].wf());
        }
    }

    proof fn lemma_state_at(&self, i: int)
        requires
            self.wf(),
            0 <= i < self.escrows@.len(),
        ensures
            self.state_of(self.escrows@[i].asset) == self.escrows@[i],
    {
        let asset = self.escrows@[i].asset;
        assert(exists|k: int| 0 <= k < self.escrows@.len() && #[trigger] self.escrows@[k].asset == asset);
        let k = choose|k: int| 0 <= k < self.escrows@.len() && #[trigger] self.escrows@[k].asset == asset;
        if k < i {
            assert(self.escrows@[k].asset != self.escrows@[i].asset);
        } else if i < k {
            assert(self.escrows@[i].asset != self.escrows@[k].asset);
        }
    }

    /// An engine that holds nothing, with the given configuration.
    pub fn new(config: VaultConfig) -> (r: Vault)
        ensures
            r.wf(),
            r.spec_config() == config,
            forall|asset: Address| #[trigger] r.state_of(asset) == free_escrow(asset),
    {
        Vault { config, escrows: Vec::new() }
    }

    pub fn config(&self) -> (r: VaultConfig)
        ensures
            r == self.spec_config(),
    {
        self.config
    }

    /// Opens a loan request on `asset`, staked by `owner`.
    pub fn stake_nft_for_loan(
        &mut self,
        asset: &Address,
        owner: &Address,
        owner_units: u64,
        loan_amount: u64,
        interest_amount: u64,
        duration: i64,
    ) -> (r: Result<Effects, ErrorCode>)
        requires
            old(self).wf(),
        ensures
            final(self).wf(),
            final(self).only_changed(old(self), *asset),
            follows(
                old(self).state_of(*asset),
                final(self).state_of(*asset),
                r,
                open_loan_step(old(self).state_of(*asset), *owner, owner_units, loan_amount, interest_amount, duration),
            ),
    {
        let (mut e, at) = self.slot(asset);
        let r = e.stake_nft_for_loan(owner, owner_units, loan_amount, interest_amount, duration);
        if r.is_ok() {
            self.store(at, e);
        }
        r
    }

    /// Funds the loan request on `asset`.
    pub fn provide_loan_liquidity(
        &mut self,
        asset: &Address,
        lender: &Address,
        lender_balance: u64,
        now: i64,
    ) -> (r: Result<Effects, ErrorCode>)
        requires
            old(self).wf(),
        ensures
            final(self).wf(),
            final(self).only_changed(old(self), *asset),
            follows(
                old(self).state_of(*asset),
                final(self).state_of(*asset),
                r,
                fund_loan_step(old(self).state_of(*asset), *lender, lender_balance, now),
            ),
    {
        let (mut e, at) = self.slot(asset);
        let r = e.provide_loan_liquidity(lender, lender_balance, now);
        if r.is_ok() {
            self.store(at, e);
        }
        r
    }

    /// Repays the loan on `asset`.
    pub fn repay_loan(
        &mut self,
        asset: &Address,
        caller: &Address,
        now: i64,
    ) -> (r: Result<Effects, ErrorCode>)
        requires
            old(self).wf(),
        ensures
            final(self).wf(),
            final(self).only_changed(old(self), *asset),
            follows(
                old(self).state_of(*asset),
                final(self).state_of(*asset),
                r,
                repay_loan_step(old(self).state_of(*asset), *caller, now),
            ),
    {
        let (mut e, at) = self.slot(asset);
        let r = e.repay_loan(caller, now);
        if r.is_ok() {
            self.store(at, e);
        }
        r
    }

    /// Hands the collateral of the expired loan on `asset` to its lender.
    pub fn claim_delinquent_nft(
        &mut self,
        asset: &Address,
        caller: &Address,
        now: i64,
    ) -> (r: Result<Effects, ErrorCode>)
        requires
            old(self).wf(),
        ensures
            final(self).wf(),
            final(self).only_changed(old(self), *asset),
            follows(
                old(self).state_of(*asset),
                final(self).state_of(*asset),
                r,
                claim_default_step(old(self).state_of(*asset), *caller, now),
            ),
    {
        let (mut e, at) = self.slot(asset);
        let r = e.claim_delinquent_nft(caller, now);
        if r.is_ok() {
            self.store(at, e);
        }
        r
    }

    /// Withdraws the unfunded loan request on `asset`.
    pub fn cancel_loan_request(
        &mut self,
        asset: &Address,
        caller: &Address,
    ) -> (r: Result<Effects, ErrorCode>)
        requires
            old(self).wf(),
        ensures
            final(self).wf(),
            final(self).only_changed(old(self), *asset),
            follows(
                old(self).state_of(*asset),
                final(self).state_of(*asset),
                r,
                cancel_loan_step(old(self).state_of(*asset), *caller),
            ),
    {
        let (mut e, at) = self.slot(asset);
        let r = e.cancel_loan_request(caller);
        if r.is_ok() {
            self.store(at, e);
        }
        r
    }

    /// Hands `asset` over for redemption.
    pub fn create_asset_redemption_request(
        &mut self,
        asset: &Address,
        owner: &Address,
        owner_units: u64,
        now: i64,
    ) -> (r: Result<Effects, ErrorCode>)
        requires
            old(self).wf(),
        ensures
            final(self).wf(),
            final(self).only_changed(old(self), *asset),
            follows(
                old(self).state_of(*asset),
                final(self).state_of(*asset),
                r,
                open_redemption_step(old(self).state_of(*asset), *owner, owner_units, now),
            ),
    {
        let (mut e, at) = self.slot(asset);
        let r = e.create_asset_redemption_request(owner, owner_units, now);
        if r.is_ok() {
            self.store(at, e);
        }
        r
    }

    /// Withdraws the unfulfilled redemption request on `asset`.
    pub fn cancel_asset_redemption_request(
        &mut self,
        asset: &Address,
        caller: &Address,
    ) -> (r: Result<Effects, ErrorCode>)
        requires
            old(self).wf(),
        ensures
            final(self).wf(),
            final(self).only_changed(old(self), *asset),
            follows(
                old(self).state_of(*asset),
                final(self).state_of(*asset),
                r,
                cancel_redemption_step(old(self).state_of(*asset), *caller),
            ),
    {
        let (mut e, at) = self.slot(asset);
        let r = e.cancel_asset_redemption_request(caller);
        if r.is_ok() {
            self.store(at, e);
        }
        r
    }

    /// Marks the redemption request on `asset` fulfilled; only the configured administrator may.
    pub fn fulfill_asset_redemption_request(
        &mut self,
        asset: &Address,
        caller: &Address,
    ) -> (r: Result<Effects, ErrorCode>)
        requires
            old(self).wf(),
        ensures
            final(self).wf(),
            final(self).only_changed(old(self), *asset),
            follows(
                old(self).state_of(*asset),
                final(self).state_of(*asset),
                r,
                fulfill_redemption_step(old(self).state_of(*asset), *caller, old(self).spec_config().admin),
            ),
    {
        let (mut e, at) = self.slot(asset);
        let r = e.fulfill_asset_redemption_request(caller, &self.config);
        if r.is_ok() {
            self.store(at, e);
        }
        r
    }

    /// The loan record of `asset`, if any.
    pub fn loan(&self, asset: &Address) -> (r: Option<LoanInfo>)
        requires
            self.wf(),
        ensures
            r == self.state_of(*asset).loan,
    {
        self.slot(asset).0.loan
    }

    /// The redemption record of `asset`, if any.
    pub fn redemption(&self, asset: &Address) -> (r: Option<AssetRedemptionInfo>)
        requires
            self.wf(),
        ensures
            r == self.state_of(*asset).redemption,
    {
        self.slot(asset).0.redemption
    }

    /// The configuration is kept, and every asset but `asset` keeps its state.
    pub open spec fn only_changed(&self, before: &Vault, asset: Address) -> bool {
        &&& self.spec_config() == before.spec_config()
        &&& forall|a: Address| a != asset ==> #[trigger] self.state_of(a) == before.state_of(a)
    }

    /// Position of the entry for `asset`, if there is one.
    fn find(&self, asset: &Address) -> (r: Option<usize>)
        requires
            self.wf(),
        ensures
            match r {
                Some(i) => i < self.escrows@.len() && self.escrows@[i as int].asset == *asset,
                None => forall|i: int| 0 <= i < self.escrows@.len() ==> #[trigger] self.escrows@[i].asset != *asset,
            },
    {
        let mut i: usize = 0;
        while i < self.escrows.len()
            invariant
                0 <= i <= self.escrows@.len(),
                forall|j: int| 0 <= j < i ==> #[trigger] self.escrows@[j].asset != *asset,
            decreases self.escrows@.len() - i,
        {
            if self.escrows[i].asset.same_as(asset) {
                return Some(i);
            }
            i = i + 1;
        }
        None
    }

    /// The current state of `asset`, and where its entry stands.
    fn slot(&self, asset: &Address) -> (r: (AssetEscrow, Option<usize>))
        requires
            self.wf(),
        ensures
            r.0 == self.state_of(*asset),
            r.0.wf(),
            match r.1 {
                Some(i) => i < self.escrows@.len() && self.escrows@[i as int].asset == *asset,
                None => forall|i: int| 0 <= i < self.escrows@.len() ==> #[trigger] self.escrows@[i].asset != *asset,
            },
    {
        proof {
            self.lemma_state_of_wf(*asset);
        }
        match self.find(asset) {
            Some(i) => {
                proof {
                    self.lemma_state_at(i as int);
                }
                (self.escrows[i], Some(i))
            },
            None => (AssetEscrow::new(*asset), None),
        }
    }

    /// Writes back the new state `e` of the asset whose entry stands at `at`.
    fn store(&mut self, at: Option<usize>, e: AssetEscrow)
        requires
            old(self).wf(),
            e.wf(),
            match at {
                Some(i) => i < old(self).escrows@.len() && old(self).escrows@[i as int].asset == e.asset,
                None => forall|i: int| 0 <= i < old(self).escrows@.len() ==> #[trigger] old(self).escrows@[i].asset != e.asset,
            },
        ensures
            final(self).wf(),
            final(self).spec_config() == old(self).spec_config(),
            final(self).state_of(e.asset) == e,
            forall|a: Address| a != e.asset ==> #[trigger] final(self).state_of(a) == old(self).state_of(a),
    {
        let ghost before = *self;
        match at {
            Some(i) => {
                if e.loan.is_some() || e.redemption.is_some() {
                    self.escrows.set(i, e);
                    proof {
                        self.lemma_state_at(i as int);
                        assert forall|a: Address| a != e.asset implies #[trigger] self.state_of(a) == before.state_of(a) by {
                            self.lemma_same_entries(&before, a, i as int);
                        }
                    }
                } else {
                    self.escrows.remove(i);
                    proof {
                        self.lemma_removed(&before, e.asset, i as int);
                        assert forall|a: Address| a != e.asset implies #[trigger] self.state_of(a) == before.state_of(a) by {
                            self.lemma_removed(&before, a, i as int);
                        }
                    }
                }
            },
            None => {
                if e.loan.is_some() || e.redemption.is_some() {
                    self.escrows.push(e);
                    proof {
                        let n = before.escrows@.len() as int;
                        self.lemma_state_at(n);
                        assert forall|a: Address| a != e.asset implies #[trigger] self.state_of(a) == before.state_of(a) by {
                            self.lemma_same_entries(&before, a, n);
                        }
                    }
                }
            },
        }
    }

    /// Entries for `a` are the same in both engines, but for position `i`,
    /// which holds another asset in `self`, and in `before` if it exists there.
    proof fn lemma_same_entries(&self, before: &Vault, a: Address, i: int)
        requires
            self.wf(),
            before.wf(),
            0 <= i < self.escrows@.len(),
            self.escrows@[i].asset != a,
            i < before.escrows@.len() ==> before.escrows@[i].asset == self.escrows@[i].asset,
            self.escrows@.len() == before.escrows@.len() || self.escrows@.len() == before.escrows@.len() + 1,
            forall|j: int| 0 <= j < self.escrows@.len() && j != i ==> j < before.escrows@.len() && self.escrows@[j] == before.escrows@[j],
        ensures
            self.state_of(a) == before.state_of(a),
    {
        if exists|k: int| 0 <= k < self.escrows@.len() && #[trigger] self.escrows@[k].asset == a {
            let k = choose|k: int| 0 <= k < self.escrows@.len() && #[trigger] self.escrows@[k].asset == a;
            self.lemma_state_at(k);
            before.lemma_state_at(k);
        } else if exists|k: int| 0 <= k < before.escrows@.len() && #[trigger] before.escrows@[k].asset == a {
            let k = choose|k: int| 0 <= k < before.escrows@.len() && #[trigger] before.escrows@[k].asset == a;
            assert(self.escrows@[k].asset == a);
        }
    }

    /// After the entry at `i` of `before` was removed, `a` keeps its state
    /// unless it is the removed entry's asset, which is then free.
    proof fn lemma_removed(&self, before: &Vault, a: Address, i: int)
        requires
            before.wf(),
            0 <= i < before.escrows@.len(),
            self.escrows@ == before.escrows@.remove(i),
        ensures
            self.wf(),
            a != before.escrows@[i].asset ==> self.state_of(a) == before.state_of(a),
            a == before.escrows@[i].asset ==> self.state_of(a) == free_escrow(a),
    {
        let old_s = before.escrows@;
        let s = self.escrows@;
        assert forall|j: int| 0 <= j < s.len() implies s[j] == old_s[if j < i { j } else { j + 1 }] by {}
        assert forall|p: int, q: int| 0 <= p < q < s.len() implies (#[trigger] s[p]).asset != (#[trigger] s[q]).asset by {
            let p2 = if p < i { p } else { p + 1 };
            let q2 = if q < i { q } else { q + 1 };
            assert(old_s[p2].asset != old_s[q2].asset);
        }
        assert forall|j: int| 0 <= j < s.len() implies (#[trigger] s[j]).wf() && s[j].in_custody() by {
            let j2 = if j < i { j } else { j + 1 };
            assert(old_s[j2].wf() && old_s[j2].in_custody());
        }
        if exists|k: int| 0 <= k < s.len() && #[trigger] s[k].asset == a {
            let k = choose|k: int| 0 <= k < s.len() && #[trigger] s[k].asset == a;
            let k2 = if k < i { k } else { k + 1 };
            self.lemma_state_at(k);
            before.lemma_state_at(k2);
            if k < i {
                assert(old_s[k].asset != old_s[i].asset);
            } else {
                assert(old_s[i].asset != old_s[k + 1].asset);
            }
        } else if exists|k: int| 0 <= k < old_s.len() && #[trigger] old_s[k].asset == a {
            let k = choose|k: int| 0 <= k < old_s.len() && #[trigger] old_s[k].asset == a;
            if k < i {
                assert(s[k].asset == a);
            } else if k > i {
                assert(s[k - 1].asset == a);
            }
        }
    }
}

} // verus!
