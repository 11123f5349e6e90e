use pumpfun::address::{
    derive_address, get_associated_token_address,
    get_associated_token_address_with_program_id, Address,
};
use pumpfun::amm::PumpAmm;
use pumpfun::constants::{
    ASSOCIATED_TOKEN_PROGRAM, NATIVE_MINT, PUMPAMM, PUMPFUN, SYSTEM_PROGRAM, TOKEN_2022_PROGRAM,
    TOKEN_PROGRAM,
};
use solana_sdk::pubkey::Pubkey;
use std::str::FromStr;

fn key(address: &Address) -> Pubkey {
    Pubkey::new_from_array(address.to_bytes())
}

fn sample(seed: u8) -> Address {
    let mut bytes = [0u8; 32];
    for (i, b) in bytes.iter_mut().enumerate() {
        *b = seed.wrapping_mul(31).wrapping_add(i as u8);
    }
    Address::new(bytes)
}

#[test]
fn program_identifiers_match_their_text() {
    assert_eq!(Pubkey::new_from_array(PUMPAMM), Pubkey::from_str("pAMMBay6oceH9fJKBRHGP5D4bD4sWpmSwMn52FMfXEA").unwrap());
    assert_eq!(Pubkey::new_from_array(PUMPFUN), Pubkey::from_str("6EF8rrecthR5Dkzon8Nwu78hRvfCKubJ14M5uBEwF6P").unwrap());
    assert_eq!(Pubkey::new_from_array(SYSTEM_PROGRAM), solana_sdk::system_program::ID);
    assert_eq!(Pubkey::new_from_array(TOKEN_PROGRAM), spl_token::ID);
    assert_eq!(Pubkey::new_from_array(NATIVE_MINT), spl_token::native_mint::ID);
    assert_eq!(Pubkey::new_from_array(ASSOCIATED_TOKEN_PROGRAM), spl_associated_token_account::ID);
    assert_eq!(Pubkey::new_from_array(TOKEN_2022_PROGRAM), Pubkey::from_str("TokenzQdBNbLqP5VEhdkAS6EPFLC1PHnBqCXEpPxuEb").unwrap());
}

#[test]
fn address_basics() {
    let a = sample(1);
    let b = sample(2);
    assert!(a.same(&a));
    assert!(!a.same(&b));
    assert!(!a.is_zero());
    assert!(Address::zero().is_zero());
    assert!(Address::default().is_zero());
    assert_eq!(a.to_vec(), a.to_bytes().to_vec());
    let mut almost = [0u8; 32];
    almost[31] = 1;
    assert!(!Address::new(almost).is_zero());
}

#[test]
fn derive_agrees_with_the_search() {
    let program = Address::new(PUMPAMM);
    let seeds = vec![b"pool".to_vec(), vec![1, 0], sample(3).to_vec()];
    let (address, bump) = pumpfun::address::derive(&seeds, &program).unwrap();
    let slices: Vec<&[u8]> = seeds.iter().map(|s| s.as_slice()).collect();
    let (expected, expected_bump) = Pubkey::find_program_address(&slices, &key(&program));
    assert_eq!(key(&address), expected);
    assert_eq!(bump, expected_bump);
    assert_eq!(derive_address(&seeds, &program), Some(address));
}

#[test]
fn derive_is_deterministic_and_sensitive_to_seeds() {
    let program = Address::new(PUMPAMM);
    let seeds = vec![b"pool".to_vec(), sample(3).to_vec()];
    let again = vec![b"pool".to_vec(), sample(3).to_vec()];
    assert_eq!(pumpfun::address::derive(&seeds, &program), pumpfun::address::derive(&again, &program));
    let mut changed = again.clone();
    changed[1][7] ^= 1;
    assert_ne!(pumpfun::address::derive(&seeds, &program), pumpfun::address::derive(&changed, &program));
    assert_ne!(pumpfun::address::derive(&seeds, &program), pumpfun::address::derive(&seeds, &Address::new(PUMPFUN)));
}

#[test]
fn derive_rejects_what_the_search_rejects() {
    let program = Address::new(PUMPAMM);
    let long = vec![vec![0u8; 33]];
    assert_eq!(pumpfun::address::derive(&long, &program), None);
    let many: Vec<Vec<u8>> = (0..16).map(|i| vec![i as u8]).collect();
    assert_eq!(pumpfun::address::derive(&many, &program), None);
    let most: Vec<Vec<u8>> = (0..15).map(|i| vec![i as u8]).collect();
    assert!(pumpfun::address::derive(&most, &program).is_some());
    assert!(pumpfun::address::derive(&vec![vec![0u8; 32]], &program).is_some());
    assert!(pumpfun::address::derive(&Vec::new(), &program).is_some());
}

#[test]
fn associated_token_addresses_agree() {
    let wallet = sample(5);
    let mint = sample(6);
    let token_2022 = Address::new(TOKEN_2022_PROGRAM);
    let ours = get_associated_token_address_with_program_id(&wallet, &mint, &token_2022).unwrap();
    let theirs = spl_associated_token_account::get_associated_token_address_with_program_id(
        &key(&wallet),
        &key(&mint),
        &key(&token_2022),
    );
    assert_eq!(key(&ours), theirs);
    let ours = get_associated_token_address(&wallet, &mint).unwrap();
    let theirs =
        spl_associated_token_account::get_associated_token_address(&key(&wallet), &key(&mint));
    assert_eq!(key(&ours), theirs);
}

#[test]
fn pool_addresses_follow_their_recipes() {
    let amm = Pubkey::new_from_array(PUMPAMM);
    let owner = sample(7);
    let base = sample(8);
    let quote = sample(9);
    let expected = Pubkey::find_program_address(&[b"global_config"], &amm).0;
    assert_eq!(key(&PumpAmm::get_global_config_pda().unwrap()), expected);
    let index: u16 = 0x0102;
    let expected = Pubkey::find_program_address(
        &[b"pool", &index.to_le_bytes(), &owner.to_bytes(), &base.to_bytes(), &quote.to_bytes()],
        &amm,
    )
    .0;
    let pool = PumpAmm::get_pool_pda(index, &owner, &base, &quote).unwrap();
    assert_eq!(key(&pool), expected);
    assert_ne!(PumpAmm::get_pool_pda(0x0201, &owner, &base, &quote), Some(pool));
    let expected = Pubkey::find_program_address(&[b"pool_lp_mint", &pool.to_bytes()], &amm).0;
    assert_eq!(key(&PumpAmm::get_lp_mint_pda(&pool).unwrap()), expected);
    let expected = Pubkey::find_program_address(
        &[b"pool-authority", &base.to_bytes()],
        &Pubkey::new_from_array(PUMPFUN),
    )
    .0;
    assert_eq!(key(&PumpAmm::get_pool_authority_pda(&base).unwrap()), expected);
    let expected = Pubkey::find_program_address(&[b"__event_authority"], &amm).0;
    assert_eq!(key(&PumpAmm::get_event_authority_pda().unwrap()), expected);
    let expected = Pubkey::find_program_address(&[b"creator_vault", &owner.to_bytes()], &amm).0;
    assert_eq!(key(&PumpAmm::get_coin_creator_vault_authority_pda(&owner).unwrap()), expected);
    let expected =
        Pubkey::find_program_address(&[b"user_volume_accumulator", &owner.to_bytes()], &amm).0;
    assert_eq!(key(&PumpAmm::get_user_volume_accumulator_pda(&owner).unwrap()), expected);
}
