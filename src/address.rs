use anchor_lang::prelude::Pubkey;
use std::str::FromStr;
use vstd::prelude::*;

verus! {

/// Identity of an account or of an asset: the 32 bytes of a public key.
#[derive(Clone, Copy, Debug)]
pub struct Address {
    pub bytes: [u8; 32],
}

impl Address {
    pub fn new(bytes: [u8; 32]) -> (r: Address)
        ensures
            r.bytes == bytes,
    {
        Address { bytes }
    }

    /// Byte-wise comparison of two identities.
    pub fn same_as(&self, other: &Address) -> (r: bool)
        ensures
            r == (*self == *other),
    {
        let mut i: usize = 0;
        while i < 32
            invariant
                0 <= i <= 32,
                forall|j: int| 0 <= j < i ==> self.bytes[j] == other.bytes[j],
            decreases 32 - i,
        {
            if self.bytes[i] != other.bytes[i] {
                return false;
            }
            i = i + 1;
        }
        assert(self.bytes =~= other.bytes);
        true
    }
}

impl PartialEq for Address {
    fn eq(&self, other: &Address) -> (r: bool) {
        self.same_as(other)
    }
}

impl vstd::std_specs::cmp::PartialEqSpecImpl for Address {
    open spec fn obeys_eq_spec() -> bool {
        true
    }

    open spec fn eq_spec(&self, other: &Address) -> bool {
        *self == *other
    }
}

impl Eq for Address {}

/// Base58 text of the administrative account's public key.
pub const ADMIN_ACCOUNT_PUBLIC_KEY_STR: &'static str = "9eAekUa3P7QSvCmKTEyLFgaMLX7Zv9VLbeFfQEDuUBLr";

/// Base58 text of the USDC mint on mainnet.
pub const MAINNET_USDC_MINT: &'static str = "EPjFWdd5AufqSSqeM2qN1xzybapC8G4wEGGkZwyTDt1v";

/// Base58 text of the USDC mint on devnet.
pub const DEVNET_USDC_MINT: &'static str = "4zMMC9srt5Ri5X14GAgXhaHii3GnPAEERYPJgZJDncDU";

/// The 32 bytes that a base58 public-key text decodes to, if it is one.
pub uninterp spec fn base58_key(text: Seq<char>) -> Option<Seq<u8>>;

/// The bytes of an optional identity.
pub open spec fn key_bytes(a: Option<Address>) -> Option<Seq<u8>> {
    match a {
        Some(a) => Some(a.bytes@),
        None => None,
    }
}

/// Relies on `Pubkey::from_str` (solana-program, through anchor-lang): it
/// decodes base58 text into the 32 bytes of a key, or fails; the outcome
/// depends on the text alone.
#[verifier::external_body]
fn decode_address(text: &str) -> (r: Option<Address>)
    ensures
        key_bytes(r) == base58_key(text@),
{
    match Pubkey::from_str(text) {
        Ok(key) => Some(Address { bytes: key.to_bytes() }),
        Err(_) => None,
    }
}

/// Parses a base58 public key.
pub fn parse_address(text: &str) -> (r: Option<Address>)
    ensures
        key_bytes(r) == base58_key(text@),
{
    decode_address(text)
}

/// The administrative account, the only identity that may fulfil a
/// redemption request.
pub fn get_admin_account_pubkey() -> (r: Option<Address>)
    ensures
        key_bytes(r) == base58_key(ADMIN_ACCOUNT_PUBLIC_KEY_STR@),
{
    decode_address(ADMIN_ACCOUNT_PUBLIC_KEY_STR)
}

/// The USDC mint of the cluster in use (devnet).
pub fn get_usdc_mint_pubkey() -> (r: Option<Address>)
    ensures
        key_bytes(r) == base58_key(DEVNET_USDC_MINT@),
{
    decode_address(DEVNET_USDC_MINT)
}

} // verus!
