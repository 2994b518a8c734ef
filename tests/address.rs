use collectible_vault::address::{
    get_admin_account_pubkey, get_usdc_mint_pubkey, parse_address, Address, MAINNET_USDC_MINT,
};

const ADMIN_BYTES: [u8; 32] = [
    128, 98, 229, 201, 76, 172, 231, 16, 138, 255, 251, 21, 159, 254, 139, 204, 246, 21, 69, 228,
    32, 17, 47, 224, 255, 109, 129, 4, 97, 84, 157, 159,
];

const DEVNET_USDC_BYTES: [u8; 32] = [
    59, 68, 44, 179, 145, 33, 87, 241, 58, 147, 61, 1, 52, 40, 45, 3, 43, 95, 254, 205, 1, 162,
    219, 241, 183, 121, 6, 8, 223, 0, 46, 167,
];

#[test]
fn admin_key_decodes_to_its_bytes() {
    assert_eq!(get_admin_account_pubkey(), Some(Address::new(ADMIN_BYTES)));
}

#[test]
fn usdc_mint_decodes_to_its_bytes() {
    assert_eq!(get_usdc_mint_pubkey(), Some(Address::new(DEVNET_USDC_BYTES)));
}

#[test]
fn all_ones_text_is_the_zero_key() {
    assert_eq!(parse_address("11111111111111111111111111111111"), Some(Address::new([0u8; 32])));
}

#[test]
fn mainnet_mint_parses() {
    let a = parse_address(MAINNET_USDC_MINT).unwrap();
    assert_ne!(a, Address::new([0u8; 32]));
}

#[test]
fn invalid_base58_is_rejected() {
    assert_eq!(parse_address("0OIl0OIl0OIl0OIl0OIl0OIl0OIl0OIl"), None);
}

#[test]
fn short_text_is_rejected() {
    assert_eq!(parse_address("abc"), None);
}

#[test]
fn overlong_text_is_rejected() {
    assert_eq!(parse_address("9eAekUa3P7QSvCmKTEyLFgaMLX7Zv9VLbeFfQEDuUBLr9eAekUa3P7QSvCmKTEyLFgaML"), None);
}

#[test]
fn addresses_compare_by_bytes() {
    let mut b = ADMIN_BYTES;
    let a = Address::new(ADMIN_BYTES);
    assert!(a.same_as(&Address::new(ADMIN_BYTES)));
    b[31] = 0;
    assert!(!a.same_as(&Address::new(b)));
    assert!(a != Address::new(b));
}
