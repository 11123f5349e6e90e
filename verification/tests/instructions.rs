use pumpfun::accounts::amm::{GlobalConfigAccount, PoolAccount};
use pumpfun::address::Address;
use pumpfun::amm::assemble::PoolSnapshot;
use pumpfun::amm::PumpAmm;
use pumpfun::common::types::{SwapDirection, SwapInput};
use pumpfun::constants::{
    ASSOCIATED_TOKEN_PROGRAM, NATIVE_MINT, POOL_ACCOUNT_SIZE, PUMPAMM, SYSTEM_PROGRAM,
    TOKEN_2022_PROGRAM, TOKEN_PROGRAM,
};
use pumpfun::error::ClientError;
use pumpfun::instruction::{AccountMeta, Instruction};
use pumpfun::instructions::amm::accounts::{
    create_pool_accounts, extend_account_accounts, liquidity_accounts, swap_accounts,
    CreatePoolAddresses, LiquidityAddresses, SwapAddresses,
};
use pumpfun::instructions::amm::{
    buy, create_pool, deposit, extend_account, sell, withdraw, Buy, CreatePool, Deposit,
    ExtendAccount, Sell, Withdraw,
};
use solana_sdk::pubkey::Pubkey;

fn key(address: &Address) -> Pubkey {
    Pubkey::new_from_array(address.to_bytes())
}

fn address(key: &Pubkey) -> Address {
    Address::new(key.to_bytes())
}

fn sample(seed: u8) -> Address {
    let mut bytes = [0u8; 32];
    for (i, b) in bytes.iter_mut().enumerate() {
        *b = seed.wrapping_mul(17).wrapping_add(i as u8);
    }
    Address::new(bytes)
}

fn ata(wallet: &Address, mint: &Address, program: &Address) -> Address {
    address(&spl_associated_token_account::get_associated_token_address_with_program_id(
        &key(wallet),
        &key(mint),
        &key(program),
    ))
}

fn pda(seeds: &[&[u8]]) -> Address {
    address(&Pubkey::find_program_address(seeds, &Pubkey::new_from_array(PUMPAMM)).0)
}

fn w(pubkey: Address, is_signer: bool) -> AccountMeta {
    AccountMeta { pubkey, is_signer, is_writable: true }
}

fn r(pubkey: Address) -> AccountMeta {
    AccountMeta { pubkey, is_signer: false, is_writable: false }
}

fn converted(built: solana_sdk::instruction::Instruction) -> Instruction {
    Instruction {
        program_id: address(&built.program_id),
        accounts: built
            .accounts
            .iter()
            .map(|m| AccountMeta {
                pubkey: address(&m.pubkey),
                is_signer: m.is_signer,
                is_writable: m.is_writable,
            })
            .collect(),
        data: built.data,
    }
}

fn snapshot(base_mint: Address, quote_mint: Address, data_len: usize) -> PoolSnapshot {
    PoolSnapshot {
        account: PoolAccount::new(
            254,
            0,
            sample(20),
            base_mint,
            quote_mint,
            sample(21),
            sample(22),
            sample(23),
            1_000_000,
        ),
        data_len,
        base_token_program: Address::new(TOKEN_2022_PROGRAM),
        quote_token_program: Address::new(TOKEN_PROGRAM),
    }
}

fn config() -> GlobalConfigAccount {
    let mut recipients = [Address::zero(); 8];
    for (i, slot) in recipients.iter_mut().enumerate() {
        *slot = sample(100 + i as u8);
    }
    GlobalConfigAccount::new(sample(99), 20, 5, 0, recipients)
}

#[test]
fn account_meta_constructors() {
    let a = sample(1);
    assert_eq!(AccountMeta::new(a, true), AccountMeta { pubkey: a, is_signer: true, is_writable: true });
    assert_eq!(
        AccountMeta::new_readonly(a, false),
        AccountMeta { pubkey: a, is_signer: false, is_writable: false }
    );
    let i = Instruction::new_with_bytes(a, &[1, 2, 3], vec![AccountMeta::new(a, false)]);
    assert_eq!(i.program_id, a);
    assert_eq!(i.data, vec![1, 2, 3]);
    assert_eq!(i.accounts, vec![w(a, false)]);
}

#[test]
fn argument_bytes_are_discriminator_then_borsh() {
    let args = Buy { base_amount_out: 0x0102030405060708, max_quote_amount_in: 9 };
    let mut expected = vec![102, 6, 61, 18, 1, 218, 235, 234];
    expected.extend(borsh::to_vec(&(0x0102030405060708u64, 9u64)).unwrap());
    assert_eq!(args.data(), expected);
    assert_eq!(&args.data()[8..16], &[8, 7, 6, 5, 4, 3, 2, 1]);

    let args = Sell { base_amount_in: u64::MAX, min_quote_amount_out: 0 };
    let mut expected = vec![51, 230, 133, 164, 1, 127, 131, 173];
    expected.extend(borsh::to_vec(&(u64::MAX, 0u64)).unwrap());
    assert_eq!(args.data(), expected);

    let args = Deposit { lp_token_amount_out: 1, max_base_amount_in: 2, max_quote_amount_in: 3 };
    let mut expected = vec![242, 35, 198, 137, 82, 225, 242, 182];
    expected.extend(borsh::to_vec(&(1u64, 2u64, 3u64)).unwrap());
    assert_eq!(args.data(), expected);

    let args = Withdraw { lp_token_amount_in: 1 << 40, min_base_amount_out: 2, min_quote_amount_out: 3 };
    let mut expected = vec![183, 18, 70, 156, 148, 109, 161, 34];
    expected.extend(borsh::to_vec(&(1u64 << 40, 2u64, 3u64)).unwrap());
    assert_eq!(args.data(), expected);

    assert_eq!(ExtendAccount {}.data(), vec![234, 102, 194, 203, 150, 72, 62, 229]);

    let creator = sample(4);
    let args = CreatePool { index: 0x1234, base_amount_in: 5, quote_amount_in: 6, coin_creator: creator };
    let mut expected = vec![233, 146, 209, 142, 207, 104, 64, 188];
    expected.extend(borsh::to_vec(&(0x1234u16, 5u64, 6u64, creator.to_bytes())).unwrap());
    assert_eq!(args.data(), expected);
    assert_eq!(args.data().len(), 8 + 2 + 8 + 8 + 32);
}

#[test]
fn buy_instruction_accounts() {
    let (user, pool, base, quote, recipient, creator) =
        (sample(1), sample(2), sample(3), sample(4), sample(5), sample(6));
    let (btp, qtp) = (Address::new(TOKEN_2022_PROGRAM), Address::new(TOKEN_PROGRAM));
    let token = Address::new(TOKEN_PROGRAM);
    let args = Buy { base_amount_out: 10, max_quote_amount_in: 20 };
    let built = buy(&user, &pool, &base, &quote, &btp, &qtp, &recipient, &creator, args).unwrap();
    let vault_authority = pda(&[b"creator_vault", &creator.to_bytes()]);
    assert_eq!(built.program_id, Address::new(PUMPAMM));
    assert_eq!(built.data, args.data());
    assert_eq!(
        built.accounts,
        vec![
            w(pool, false),
            w(user, true),
            r(pda(&[b"global_config"])),
            r(base),
            r(quote),
            w(ata(&user, &base, &token), false),
            w(ata(&user, &quote, &token), false),
            w(ata(&pool, &base, &btp), false),
            w(ata(&pool, &quote, &qtp), false),
            r(recipient),
            w(ata(&recipient, &quote, &qtp), false),
            r(btp),
            r(qtp),
            r(Address::new(SYSTEM_PROGRAM)),
            r(Address::new(ASSOCIATED_TOKEN_PROGRAM)),
            r(pda(&[b"__event_authority"])),
            r(Address::new(PUMPAMM)),
            w(ata(&vault_authority, &quote, &qtp), false),
            r(vault_authority),
        ]
    );
}

#[test]
fn sell_instruction_accounts() {
    let (user, pool, base, quote, recipient, creator) =
        (sample(1), sample(2), sample(3), sample(4), sample(5), sample(6));
    let (btp, qtp) = (Address::new(TOKEN_2022_PROGRAM), Address::new(TOKEN_PROGRAM));
    let args = Sell { base_amount_in: 10, min_quote_amount_out: 20 };
    let built = sell(&user, &pool, &base, &quote, &btp, &qtp, &recipient, &creator, args).unwrap();
    let vault_authority = pda(&[b"creator_vault", &creator.to_bytes()]);
    assert_eq!(built.program_id, Address::new(PUMPAMM));
    assert_eq!(built.data, args.data());
    assert_eq!(
        built.accounts,
        vec![
            w(pool, false),
            w(user, true),
            r(pda(&[b"global_config"])),
            r(base),
            r(quote),
            w(ata(&user, &base, &btp), false),
            w(ata(&user, &quote, &qtp), false),
            w(ata(&pool, &base, &btp), false),
            w(ata(&pool, &quote, &qtp), false),
            r(recipient),
            w(ata(&recipient, &quote, &qtp), false),
            r(btp),
            r(qtp),
            r(Address::new(SYSTEM_PROGRAM)),
            r(Address::new(ASSOCIATED_TOKEN_PROGRAM)),
            r(pda(&[b"__event_authority"])),
            r(Address::new(PUMPAMM)),
            w(ata(&vault_authority, &quote, &qtp), false),
            r(vault_authority),
        ]
    );
}

#[test]
fn create_pool_instruction_accounts() {
    let (creator, base, quote) = (sample(1), sample(3), sample(4));
    let (btp, qtp) = (Address::new(TOKEN_2022_PROGRAM), Address::new(TOKEN_PROGRAM));
    let t22 = Address::new(TOKEN_2022_PROGRAM);
    let args = CreatePool { index: 7, base_amount_in: 10, quote_amount_in: 20, coin_creator: sample(9) };
    let built = create_pool(&creator, &base, &quote, &btp, &qtp, args).unwrap();
    let pool = pda(&[b"pool", &7u16.to_le_bytes(), &creator.to_bytes(), &base.to_bytes(), &quote.to_bytes()]);
    let lp_mint = pda(&[b"pool_lp_mint", &pool.to_bytes()]);
    assert_eq!(built.data, args.data());
    assert_eq!(
        built.accounts,
        vec![
            w(pool, false),
            r(pda(&[b"global_config"])),
            w(creator, true),
            r(base),
            r(quote),
            w(lp_mint, false),
            w(ata(&creator, &base, &btp), false),
            w(ata(&creator, &quote, &qtp), false),
            w(ata(&creator, &lp_mint, &t22), false),
            w(ata(&pool, &base, &btp), false),
            w(ata(&pool, &quote, &qtp), false),
            r(Address::new(SYSTEM_PROGRAM)),
            r(t22),
            r(btp),
            r(qtp),
            r(Address::new(ASSOCIATED_TOKEN_PROGRAM)),
            r(pda(&[b"__event_authority"])),
            r(Address::new(PUMPAMM)),
        ]
    );
}

#[test]
fn deposit_and_withdraw_instruction_accounts() {
    let (user, pool, base, quote) = (sample(1), sample(2), sample(3), sample(4));
    let (btp, qtp) = (Address::new(TOKEN_2022_PROGRAM), Address::new(TOKEN_PROGRAM));
    let (token, t22) = (Address::new(TOKEN_PROGRAM), Address::new(TOKEN_2022_PROGRAM));
    let lp_mint = pda(&[b"pool_lp_mint", &pool.to_bytes()]);
    let args = Deposit { lp_token_amount_out: 1, max_base_amount_in: 2, max_quote_amount_in: 3 };
    let built = deposit(&user, &pool, &base, &quote, &btp, &qtp, args).unwrap();
    assert_eq!(built.data, args.data());
    assert_eq!(
        built.accounts,
        vec![
            w(pool, false),
            r(pda(&[b"global_config"])),
            w(user, true),
            r(base),
            r(quote),
            w(lp_mint, false),
            w(ata(&user, &base, &token), false),
            w(ata(&user, &quote, &token), false),
            w(ata(&user, &lp_mint, &t22), false),
            w(ata(&pool, &base, &btp), false),
            w(ata(&pool, &quote, &qtp), false),
            r(token),
            r(t22),
            r(pda(&[b"__event_authority"])),
            r(Address::new(PUMPAMM)),
        ]
    );
    let args = Withdraw { lp_token_amount_in: 1, min_base_amount_out: 2, min_quote_amount_out: 3 };
    let built = withdraw(&user, &pool, &base, &quote, &btp, &qtp, args).unwrap();
    assert_eq!(built.data, args.data());
    assert_eq!(
        built.accounts,
        vec![
            w(pool, false),
            r(pda(&[b"global_config"])),
            w(user, true),
            r(base),
            r(quote),
            w(lp_mint, false),
            w(ata(&user, &base, &token), false),
            w(ata(&user, &quote, &token), false),
            w(ata(&user, &lp_mint, &t22), false),
            w(ata(&pool, &base, &btp), false),
            w(ata(&pool, &quote, &qtp), false),
            r(token),
            r(t22),
            r(pda(&[b"__event_authority"])),
            r(Address::new(PUMPAMM)),
        ]
    );
    let signers: Vec<usize> =
        (0..built.accounts.len()).filter(|i| built.accounts[*i].is_signer).collect();
    assert_eq!(signers, vec![2]);
    assert_eq!(built.accounts.len(), 15);
    assert_eq!(built.program_id, Address::new(PUMPAMM));
    let added = deposit(&user, &pool, &base, &quote, &btp, &qtp,
        Deposit { lp_token_amount_out: 1, max_base_amount_in: 2, max_quote_amount_in: 3 }).unwrap();
    assert_eq!(built.accounts, added.accounts);
}

#[test]
fn extend_account_instruction_accounts() {
    let (user, account) = (sample(1), sample(2));
    let built = extend_account(&user, &account, ExtendAccount {}).unwrap();
    assert_eq!(built.program_id, Address::new(PUMPAMM));
    assert_eq!(built.data, vec![234, 102, 194, 203, 150, 72, 62, 229]);
    assert_eq!(
        built.accounts,
        vec![
            w(account, false),
            w(user, true),
            r(Address::new(SYSTEM_PROGRAM)),
            r(pda(&[b"__event_authority"])),
            r(Address::new(PUMPAMM)),
        ]
    );
    let amm = PumpAmm::new(user);
    assert_eq!(amm.get_extend_account_instruction(account), Some(built));
}

#[test]
fn wrapping_native_tokens() {
    let payer = sample(1);
    let amm = PumpAmm::new(payer);
    let native = Address::new(NATIVE_MINT);
    let token = Address::new(TOKEN_PROGRAM);
    let account = ata(&payer, &native, &token);
    assert_eq!(amm.get_with_wsol_instructions(sample(3), account, 5, true), Ok(vec![]));
    assert_eq!(amm.get_with_wsol_instructions(native, account, 0, false), Ok(vec![]));
    let moved = converted(solana_sdk::system_instruction::transfer(&key(&payer), &key(&account), 5));
    let synced = converted(spl_token::instruction::sync_native(&spl_token::ID, &key(&account)).unwrap());
    let created = converted(
        spl_associated_token_account::instruction::create_associated_token_account_idempotent(
            &key(&payer),
            &key(&payer),
            &spl_token::native_mint::ID,
            &spl_token::ID,
        ),
    );
    assert_eq!(
        amm.get_with_wsol_instructions(native, account, 5, false),
        Ok(vec![moved.clone(), synced.clone()])
    );
    assert_eq!(
        amm.get_with_wsol_instructions(native, account, 5, true),
        Ok(vec![created.clone(), moved.clone(), synced.clone()])
    );
    assert_eq!(amm.get_with_wsol_instructions(native, account, 0, true), Ok(vec![created.clone()]));
    assert_eq!(moved.data, vec![2, 0, 0, 0, 5, 0, 0, 0, 0, 0, 0, 0]);
    assert_eq!(moved.accounts, vec![w(payer, true), w(account, false)]);
    assert_eq!(synced.data, vec![17]);
    assert_eq!(synced.accounts, vec![w(account, false)]);
    assert_eq!(created.data, vec![1]);
    assert_eq!(
        created.accounts,
        vec![w(payer, true), w(account, false), r(payer), r(native), r(Address::new(SYSTEM_PROGRAM)), r(token)]
    );
}

#[test]
fn creation_and_extension_lists() {
    let payer = sample(1);
    let amm = PumpAmm::new(payer);
    let (wallet, mint) = (sample(2), sample(3));
    let t22 = Address::new(TOKEN_2022_PROGRAM);
    assert_eq!(amm.get_creation_instructions(&wallet, &mint, &t22, true), Ok(vec![]));
    let created = converted(
        spl_associated_token_account::instruction::create_associated_token_account_idempotent(
            &key(&payer),
            &key(&wallet),
            &key(&mint),
            &key(&t22),
        ),
    );
    assert_eq!(amm.get_creation_instructions(&wallet, &mint, &t22, false), Ok(vec![created]));
    let pool = sample(4);
    let extend = extend_account(&payer, &pool, ExtendAccount {}).unwrap();
    assert_eq!(amm.get_extension_instructions(pool, (POOL_ACCOUNT_SIZE - 1) as usize), Ok(vec![extend]));
    assert_eq!(amm.get_extension_instructions(pool, POOL_ACCOUNT_SIZE as usize), Ok(vec![]));
}

#[test]
fn buy_and_sell_lists() {
    let payer = sample(1);
    let amm = PumpAmm::new(payer);
    let pool = sample(2);
    let native = Address::new(NATIVE_MINT);
    let base = sample(3);
    let cfg = config();
    let short = snapshot(base, native, 211);
    let qtp = short.quote_token_program;
    let btp = short.base_token_program;
    let user_quote = ata(&payer, &native, &qtp);
    let mut expected = amm.get_with_wsol_instructions(native, user_quote, 20, false).unwrap();
    assert_eq!(expected.len(), 2);
    expected.push(extend_account(&payer, &pool, ExtendAccount {}).unwrap());
    expected.push(
        buy(&payer, &pool, &base, &native, &btp, &qtp, &cfg.protocol_fee_recipients[0], &sample(60),
            Buy { base_amount_out: 10, max_quote_amount_in: 20 }).unwrap(),
    );
    assert_eq!(
        amm.get_buy_instructions(pool, 10, 20, None, &cfg, &short, &sample(60), false),
        Ok(expected)
    );

    let full = snapshot(base, sample(4), 300);
    let named = sample(50);
    let expected = vec![
        buy(&payer, &pool, &base, &sample(4), &btp, &qtp, &named, &sample(60),
            Buy { base_amount_out: 10, max_quote_amount_in: 20 }).unwrap(),
    ];
    assert_eq!(
        amm.get_buy_instructions(pool, 10, 20, Some(named), &cfg, &full, &sample(60), true),
        Ok(expected)
    );

    let creator = sample(60);
    let expected = vec![
        sell(&payer, &pool, &base, &sample(4), &btp, &qtp, &cfg.protocol_fee_recipients[0], &creator,
            Sell { base_amount_in: 10, min_quote_amount_out: 20 }).unwrap(),
    ];
    assert_eq!(
        amm.get_sell_instructions(pool, 10, 20, None, &cfg, &full, &creator, false),
        Ok(expected)
    );
}

#[test]
fn deposit_withdraw_and_create_pool_lists() {
    let payer = sample(1);
    let amm = PumpAmm::new(payer);
    let pool = sample(2);
    let (base, quote) = (sample(3), sample(4));
    let snap = snapshot(base, quote, 300);
    let (btp, qtp) = (snap.base_token_program, snap.quote_token_program);
    let t22 = Address::new(TOKEN_2022_PROGRAM);
    let lp_mint = snap.account.lp_mint;
    let mut expected = amm.get_creation_instructions(&payer, &lp_mint, &t22, false).unwrap();
    expected.push(
        deposit(&payer, &pool, &base, &quote, &btp, &qtp,
            Deposit { lp_token_amount_out: 1, max_base_amount_in: 2, max_quote_amount_in: 3 }).unwrap(),
    );
    assert_eq!(amm.get_deposit_instructions(pool, 1, 2, 3, &snap, false, false), Ok(expected.clone()));
    assert_eq!(
        amm.get_deposit_instructions(pool, 1, 2, 3, &snap, true, false),
        Ok(expected[1..].to_vec())
    );

    let mut expected = amm.get_creation_instructions(&payer, &base, &btp, false).unwrap();
    expected.extend(amm.get_creation_instructions(&payer, &quote, &qtp, false).unwrap());
    expected.push(
        withdraw(&payer, &pool, &base, &quote, &btp, &qtp,
            Withdraw { lp_token_amount_in: 1, min_base_amount_out: 2, min_quote_amount_out: 3 }).unwrap(),
    );
    assert_eq!(amm.get_withdraw_instructions(pool, 1, 2, 3, &snap, false, false), Ok(expected.clone()));
    assert_eq!(
        amm.get_withdraw_instructions(pool, 1, 2, 3, &snap, true, true),
        Ok(expected[2..].to_vec())
    );

    let new_pool = PumpAmm::get_pool_pda(3, &payer, &base, &quote).unwrap();
    let mut expected = amm.get_creation_instructions(&new_pool, &base, &btp, false).unwrap();
    expected.extend(amm.get_creation_instructions(&new_pool, &quote, &qtp, false).unwrap());
    expected.push(
        create_pool(&payer, &base, &quote, &btp, &qtp,
            CreatePool { index: 3, base_amount_in: 5, quote_amount_in: 6, coin_creator: Address::new(SYSTEM_PROGRAM) }).unwrap(),
    );
    assert_eq!(
        amm.get_create_pool_instructions(3, base, quote, 5, 6, btp, qtp, false, false, false),
        Ok(expected)
    );
}

#[test]
fn whole_operations() {
    let payer = sample(1);
    let amm = PumpAmm::new(payer);
    let pool = sample(2);
    let (base, quote) = (sample(3), sample(4));
    let snap = snapshot(base, quote, 300);
    let cfg = config();
    let creator = sample(60);

    assert_eq!(
        pumpfun::amm::operations::swap_amounts(
            1000, 1, SwapInput::Base, SwapDirection::QuoteToBase, 1_000_000, 1_000_000, &cfg, 5, &creator),
        Ok((1000, 1_002u64.checked_add(3 + 1).unwrap() * 101 / 100))
    );
    assert_eq!(
        pumpfun::amm::operations::swap_amounts(
            1000, 1, SwapInput::Quote, SwapDirection::BaseToQuote, 1_000_000, 1_000_000, &cfg, 5, &creator),
        Ok((1006, 990))
    );
    let bought = amm
        .swap(pool, 1000, 1, SwapInput::Base, SwapDirection::QuoteToBase, &cfg, &snap, 1_000_000, 1_000_000, 5, &creator, false)
        .unwrap();
    assert_eq!(
        bought,
        amm.get_buy_instructions(pool, 1000, 1016, None, &cfg, &snap, &creator, false).unwrap()
    );
    let sold = amm
        .swap(pool, 1000, 1, SwapInput::Quote, SwapDirection::BaseToQuote, &cfg, &snap, 1_000_000, 1_000_000, 5, &creator, false)
        .unwrap();
    assert_eq!(sold, amm.get_sell_instructions(pool, 1006, 990, None, &cfg, &snap, &creator, false).unwrap());
    assert_eq!(
        amm.swap(pool, 0, 1, SwapInput::Base, SwapDirection::QuoteToBase, &cfg, &snap, 1_000_000, 1_000_000, 5, &creator, false),
        Err(ClientError::ZeroAmount)
    );

    let added = amm.deposit(pool, 100_000, 1, &snap, 10_000_000, 10_000_000, true, false).unwrap();
    assert_eq!(added, amm.get_deposit_instructions(pool, 100_000, 1_010_000, 1_010_000, &snap, true, false).unwrap());
    let removed = amm.withdraw(pool, 100_000, 1, &snap, 10_000_000, 10_000_000, true, true).unwrap();
    assert_eq!(removed, amm.get_withdraw_instructions(pool, 100_000, 990_000, 990_000, &snap, true, true).unwrap());
    assert_eq!(
        amm.withdraw(pool, 0, 1, &snap, 10_000_000, 10_000_000, true, true),
        Err(ClientError::ZeroAmount)
    );
    assert_eq!(PumpAmm::fee_recipient(None, &cfg), cfg.protocol_fee_recipients[0]);
    assert_eq!(PumpAmm::fee_recipient(Some(creator), &cfg), creator);
}

fn signers(accounts: &[AccountMeta]) -> Vec<usize> {
    (0..accounts.len()).filter(|i| accounts[*i].is_signer).collect()
}

fn writers(accounts: &[AccountMeta]) -> Vec<usize> {
    (0..accounts.len()).filter(|i| accounts[*i].is_writable).collect()
}

#[test]
fn swap_accounts_on_given_addresses() {
    let a = SwapAddresses {
        pool: sample(1),
        user: sample(2),
        global_config: sample(3),
        base_mint: sample(4),
        quote_mint: sample(5),
        user_base: sample(6),
        user_quote: sample(7),
        pool_base: sample(8),
        pool_quote: sample(9),
        protocol_fee_recipient: sample(10),
        fee_account: sample(11),
        base_token_program: sample(12),
        quote_token_program: sample(13),
        event_authority: sample(14),
        vault: sample(15),
        vault_authority: sample(16),
    };
    let list = swap_accounts(&a);
    let keys: Vec<Address> = list.iter().map(|m| m.pubkey).collect();
    assert_eq!(
        keys,
        vec![
            sample(1), sample(2), sample(3), sample(4), sample(5), sample(6), sample(7),
            sample(8), sample(9), sample(10), sample(11), sample(12), sample(13),
            Address::new(SYSTEM_PROGRAM), Address::new(ASSOCIATED_TOKEN_PROGRAM), sample(14),
            Address::new(PUMPAMM), sample(15), sample(16),
        ]
    );
    assert_eq!(signers(&list), vec![1]);
    assert_eq!(writers(&list), vec![0, 1, 5, 6, 7, 8, 10, 17]);
}

#[test]
fn liquidity_accounts_on_given_addresses() {
    let a = LiquidityAddresses {
        pool: sample(1),
        global_config: sample(2),
        user: sample(3),
        base_mint: sample(4),
        quote_mint: sample(5),
        lp_mint: sample(6),
        user_base: sample(7),
        user_quote: sample(8),
        user_lp: sample(9),
        pool_base: sample(10),
        pool_quote: sample(11),
        event_authority: sample(12),
    };
    let list = liquidity_accounts(&a);
    let keys: Vec<Address> = list.iter().map(|m| m.pubkey).collect();
    assert_eq!(
        keys,
        vec![
            sample(1), sample(2), sample(3), sample(4), sample(5), sample(6), sample(7),
            sample(8), sample(9), sample(10), sample(11), Address::new(TOKEN_PROGRAM),
            Address::new(TOKEN_2022_PROGRAM), sample(12), Address::new(PUMPAMM),
        ]
    );
    assert_eq!(signers(&list), vec![2]);
    assert_eq!(writers(&list), vec![0, 2, 5, 6, 7, 8, 9, 10]);
}

#[test]
fn create_pool_and_extend_accounts_on_given_addresses() {
    let a = CreatePoolAddresses {
        pool: sample(1),
        global_config: sample(2),
        creator: sample(3),
        base_mint: sample(4),
        quote_mint: sample(5),
        lp_mint: sample(6),
        creator_base: sample(7),
        creator_quote: sample(8),
        creator_lp: sample(9),
        pool_base: sample(10),
        pool_quote: sample(11),
        base_token_program: sample(12),
        quote_token_program: sample(13),
        event_authority: sample(14),
    };
    let list = create_pool_accounts(&a);
    let keys: Vec<Address> = list.iter().map(|m| m.pubkey).collect();
    assert_eq!(
        keys,
        vec![
            sample(1), sample(2), sample(3), sample(4), sample(5), sample(6), sample(7),
            sample(8), sample(9), sample(10), sample(11), Address::new(SYSTEM_PROGRAM),
            Address::new(TOKEN_2022_PROGRAM), sample(12), sample(13),
            Address::new(ASSOCIATED_TOKEN_PROGRAM), sample(14), Address::new(PUMPAMM),
        ]
    );
    assert_eq!(signers(&list), vec![2]);
    assert_eq!(writers(&list), vec![0, 2, 5, 6, 7, 8, 9, 10]);

    let list = extend_account_accounts(&sample(1), &sample(2), &sample(3));
    assert_eq!(
        list,
        vec![
            w(sample(1), false),
            w(sample(2), true),
            r(Address::new(SYSTEM_PROGRAM)),
            r(sample(3)),
            r(Address::new(PUMPAMM)),
        ]
    );
    assert_eq!(signers(&list), vec![1]);
}
