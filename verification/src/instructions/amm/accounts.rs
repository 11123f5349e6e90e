//! The account lists of the market maker's instructions, on given
//! addresses.
//!
//! Each list is a fixed sequence: which account stands where, whether the
//! program may write to it, and whether it must sign. In every list the
//! user is the only signer: every other account is a derived address, a
//! token account, a mint or a program, and none of these holds a key.
//!
//! The lists are those of the program version that pays a fee to the coin's
//! creator: a purchase and a sale both end with the creator's fee vault and
//! the authority that owns it.

use crate::address::Address;
use crate::constants::{
    ASSOCIATED_TOKEN_PROGRAM, PUMPAMM, SYSTEM_PROGRAM, TOKEN_2022_PROGRAM, TOKEN_PROGRAM,
};
use crate::instruction::{accounts_view, readonly, writable, AccountMeta, AccountMetaView};
use vstd::prelude::*;

verus! {

/// The addresses that a purchase or a sale names besides the fixed
/// programs.
#[derive(Debug, Clone, Copy, PartialEq, Eq)]
pub struct SwapAddresses {
    /// The pool.
    pub pool: Address,
    /// The user, who pays and signs.
    pub user: Address,
    /// The global configuration.
    pub global_config: Address,
    /// Mint of the base token.
    pub base_mint: Address,
    /// Mint of the quote token.
    pub quote_mint: Address,
    /// The user's account of base tokens.
    pub user_base: Address,
    /// The user's account of quote tokens.
    pub user_quote: Address,
    /// The pool's account of base tokens.
    pub pool_base: Address,
    /// The pool's account of quote tokens.
    pub pool_quote: Address,
    /// The account that receives the protocol fee.
    pub protocol_fee_recipient: Address,
    /// The fee recipient's account of quote tokens.
    pub fee_account: Address,
    /// The token program of the base mint.
    pub base_token_program: Address,
    /// The token program of the quote mint.
    pub quote_token_program: Address,
    /// The event authority.
    pub event_authority: Address,
    /// The creator's fee vault: the vault authority's account of quote
    /// tokens.
    pub vault: Address,
    /// The authority that owns the creator's fee vault.
    pub vault_authority: Address,
}

/// The bytes of the addresses that a purchase or a sale names.
pub struct SwapAddressesView {
    pub pool: Seq<u8>,
    pub user: Seq<u8>,
    pub global_config: Seq<u8>,
    pub base_mint: Seq<u8>,
    pub quote_mint: Seq<u8>,
    pub user_base: Seq<u8>,
    pub user_quote: Seq<u8>,
    pub pool_base: Seq<u8>,
    pub pool_quote: Seq<u8>,
    pub protocol_fee_recipient: Seq<u8>,
    pub fee_account: Seq<u8>,
    pub base_token_program: Seq<u8>,
    pub quote_token_program: Seq<u8>,
    pub event_authority: Seq<u8>,
    pub vault: Seq<u8>,
    pub vault_authority: Seq<u8>,
}

impl View for SwapAddresses {
    type V = SwapAddressesView;

    open spec fn view(&self) -> SwapAddressesView {
        SwapAddressesView {
            pool: self.pool@,
            user: self.user@,
            global_config: self.global_config@,
            base_mint: self.base_mint@,
            quote_mint: self.quote_mint@,
            user_base: self.user_base@,
            user_quote: self.user_quote@,
            pool_base: self.pool_base@,
            pool_quote: self.pool_quote@,
            protocol_fee_recipient: self.protocol_fee_recipient@,
            fee_account: self.fee_account@,
            base_token_program: self.base_token_program@,
            quote_token_program: self.quote_token_program@,
            event_authority: self.event_authority@,
            vault: self.vault@,
            vault_authority: self.vault_authority@,
        }
    }
}

/// The addresses that a deposit or a withdrawal names besides the fixed
/// programs.
#[derive(Debug, Clone, Copy, PartialEq, Eq)]
pub struct LiquidityAddresses {
    /// The pool.
    pub pool: Address,
    /// The global configuration.
    pub global_config: Address,
    /// The user, who pays and signs.
    pub user: Address,
    /// Mint of the base token.
    pub base_mint: Address,
    /// Mint of the quote token.
    pub quote_mint: Address,
    /// Mint of the liquidity-provider token.
    pub lp_mint: Address,
    /// The user's account of base tokens.
    pub user_base: Address,
    /// The user's account of quote tokens.
    pub user_quote: Address,
    /// The user's account of liquidity-provider tokens.
    pub user_lp: Address,
    /// The pool's account of base tokens.
    pub pool_base: Address,
    /// The pool's account of quote tokens.
    pub pool_quote: Address,
    /// The event authority.
    pub event_authority: Address,
}

/// The bytes of the addresses that a deposit or a withdrawal names.
pub struct LiquidityAddressesView {
    pub pool: Seq<u8>,
    pub global_config: Seq<u8>,
    pub user: Seq<u8>,
    pub base_mint: Seq<u8>,
    pub quote_mint: Seq<u8>,
    pub lp_mint: Seq<u8>,
    pub user_base: Seq<u8>,
    pub user_quote: Seq<u8>,
    pub user_lp: Seq<u8>,
    pub pool_base: Seq<u8>,
    pub pool_quote: Seq<u8>,
    pub event_authority: Seq<u8>,
}

impl View for LiquidityAddresses {
    type V = LiquidityAddressesView;

    open spec fn view(&self) -> LiquidityAddressesView {
        LiquidityAddressesView {
            pool: self.pool@,
            global_config: self.global_config@,
            user: self.user@,
            base_mint: self.base_mint@,
            quote_mint: self.quote_mint@,
            lp_mint: self.lp_mint@,
            user_base: self.user_base@,
            user_quote: self.user_quote@,
            user_lp: self.user_lp@,
            pool_base: self.pool_base@,
            pool_quote: self.pool_quote@,
            event_authority: self.event_authority@,
        }
    }
}

/// The addresses that the creation of a pool names besides the fixed
/// programs.
#[derive(Debug, Clone, Copy, PartialEq, Eq)]
pub struct CreatePoolAddresses {
    /// The pool.
    pub pool: Address,
    /// The global configuration.
    pub global_config: Address,
    /// The creator of the pool, who pays and signs.
    pub creator: Address,
    /// Mint of the base token.
    pub base_mint: Address,
    /// Mint of the quote token.
    pub quote_mint: Address,
    /// Mint of the liquidity-provider token.
    pub lp_mint: Address,
    /// The creator's account of base tokens.
    pub creator_base: Address,
    /// The creator's account of quote tokens.
    pub creator_quote: Address,
    /// The creator's account of liquidity-provider tokens.
    pub creator_lp: Address,
    /// The pool's account of base tokens.
    pub pool_base: Address,
    /// The pool's account of quote tokens.
    pub pool_quote: Address,
    /// The token program of the base mint.
    pub base_token_program: Address,
    /// The token program of the quote mint.
    pub quote_token_program: Address,
    /// The event authority.
    pub event_authority: Address,
}

/// The bytes of the addresses that the creation of a pool names.
pub struct CreatePoolAddressesView {
    pub pool: Seq<u8>,
    pub global_config: Seq<u8>,
    pub creator: Seq<u8>,
    pub base_mint: Seq<u8>,
    pub quote_mint: Seq<u8>,
    pub lp_mint: Seq<u8>,
    pub creator_base: Seq<u8>,
    pub creator_quote: Seq<u8>,
    pub creator_lp: Seq<u8>,
    pub pool_base: Seq<u8>,
    pub pool_quote: Seq<u8>,
    pub base_token_program: Seq<u8>,
    pub quote_token_program: Seq<u8>,
    pub event_authority: Seq<u8>,
}

impl View for CreatePoolAddresses {
    type V = CreatePoolAddressesView;

    open spec fn view(&self) -> CreatePoolAddressesView {
        CreatePoolAddressesView {
            pool: self.pool@,
            global_config: self.global_config@,
            creator: self.creator@,
            base_mint: self.base_mint@,
            quote_mint: self.quote_mint@,
            lp_mint: self.lp_mint@,
            creator_base: self.creator_base@,
            creator_quote: self.creator_quote@,
            creator_lp: self.creator_lp@,
            pool_base: self.pool_base@,
            pool_quote: self.pool_quote@,
            base_token_program: self.base_token_program@,
            quote_token_program: self.quote_token_program@,
            event_authority: self.event_authority@,
        }
    }
}

/// The accounts of a purchase or a sale, in the order in which the program
/// reads them.
pub open spec fn swap_accounts_spec(a: SwapAddressesView) -> Seq<AccountMetaView> {
    seq![
        writable(a.pool, false),
        writable(a.user, true),
        readonly(a.global_config, false),
        readonly(a.base_mint, false),
        readonly(a.quote_mint, false),
        writable(a.user_base, false),
        writable(a.user_quote, false),
        writable(a.pool_base, false),
        writable(a.pool_quote, false),
        readonly(a.protocol_fee_recipient, false),
        writable(a.fee_account, false),
        readonly(a.base_token_program, false),
        readonly(a.quote_token_program, false),
        readonly(SYSTEM_PROGRAM@, false),
        readonly(ASSOCIATED_TOKEN_PROGRAM@, false),
        readonly(a.event_authority, false),
        readonly(PUMPAMM@, false),
        writable(a.vault, false),
        readonly(a.vault_authority, false),
    ]
}

/// The accounts of a deposit or a withdrawal, in the order in which the
/// program reads them.
pub open spec fn liquidity_accounts_spec(a: LiquidityAddressesView) -> Seq<AccountMetaView> {
    seq![
        writable(a.pool, false),
        readonly(a.global_config, false),
        writable(a.user, true),
        readonly(a.base_mint, false),
        readonly(a.quote_mint, false),
        writable(a.lp_mint, false),
        writable(a.user_base, false),
        writable(a.user_quote, false),
        writable(a.user_lp, false),
        writable(a.pool_base, false),
        writable(a.pool_quote, false),
        readonly(TOKEN_PROGRAM@, false),
        readonly(TOKEN_2022_PROGRAM@, false),
        readonly(a.event_authority, false),
        readonly(PUMPAMM@, false),
    ]
}

/// The accounts of the creation of a pool, in the order in which the
/// program reads them.
pub open spec fn create_pool_accounts_spec(a: CreatePoolAddressesView) -> Seq<AccountMetaView> {
    seq![
        writable(a.pool, false),
        readonly(a.global_config, false),
        writable(a.creator, true),
        readonly(a.base_mint, false),
        readonly(a.quote_mint, false),
        writable(a.lp_mint, false),
        writable(a.creator_base, false),
        writable(a.creator_quote, false),
        writable(a.creator_lp, false),
        writable(a.pool_base, false),
        writable(a.pool_quote, false),
        readonly(SYSTEM_PROGRAM@, false),
        readonly(TOKEN_2022_PROGRAM@, false),
        readonly(a.base_token_program, false),
        readonly(a.quote_token_program, false),
        readonly(ASSOCIATED_TOKEN_PROGRAM@, false),
        readonly(a.event_authority, false),
        readonly(PUMPAMM@, false),
    ]
}

/// The accounts of the extension of an account, in the order in which the
/// program reads them.
pub open spec fn extend_account_accounts_spec(
    account: Seq<u8>,
    user: Seq<u8>,
    event_authority: Seq<u8>,
) -> Seq<AccountMetaView> {
    seq![
        writable(account, false),
        writable(user, true),
        readonly(SYSTEM_PROGRAM@, false),
        readonly(event_authority, false),
        readonly(PUMPAMM@, false),
    ]
}

/// Whether the account at `signer` is the one account of the list that
/// signs.
pub open spec fn only_signer(accounts: Seq<AccountMetaView>, signer: int) -> bool {
    &&& 0 <= signer < accounts.len()
    &&& forall|i: int| 0 <= i < accounts.len() ==> (#[trigger] accounts[i].is_signer <==> i == signer)
}

/// Builds the account list of a purchase or a sale from the addresses that
/// it names.
pub fn swap_accounts(a: &SwapAddresses) -> (r: Vec<AccountMeta>)
    ensures
        accounts_view(r@) == swap_accounts_spec(a@),
        r.len() == 19,
        only_signer(accounts_view(r@), 1),
{
    let accounts: Vec<AccountMeta> = vec![
        AccountMeta::new(a.pool, false),
        AccountMeta::new(a.user, true),
        AccountMeta::new_readonly(a.global_config, false),
        AccountMeta::new_readonly(a.base_mint, false),
        AccountMeta::new_readonly(a.quote_mint, false),
        AccountMeta::new(a.user_base, false),
        AccountMeta::new(a.user_quote, false),
        AccountMeta::new(a.pool_base, false),
        AccountMeta::new(a.pool_quote, false),
        AccountMeta::new_readonly(a.protocol_fee_recipient, false),
        AccountMeta::new(a.fee_account, false),
        AccountMeta::new_readonly(a.base_token_program, false),
        AccountMeta::new_readonly(a.quote_token_program, false),
        AccountMeta::new_readonly(Address::new(SYSTEM_PROGRAM), false),
        AccountMeta::new_readonly(Address::new(ASSOCIATED_TOKEN_PROGRAM), false),
        AccountMeta::new_readonly(a.event_authority, false),
        AccountMeta::new_readonly(Address::new(PUMPAMM), false),
        AccountMeta::new(a.vault, false),
        AccountMeta::new_readonly(a.vault_authority, false),
    ];
    assert(accounts_view(accounts@) =~= swap_accounts_spec(a@));
    accounts
}

/// Builds the account list of a deposit or a withdrawal from the addresses
/// that it names.
pub fn liquidity_accounts(a: &LiquidityAddresses) -> (r: Vec<AccountMeta>)
    ensures
        accounts_view(r@) == liquidity_accounts_spec(a@),
        r.len() == 15,
        only_signer(accounts_view(r@), 2),
{
    let accounts: Vec<AccountMeta> = vec![
        AccountMeta::new(a.pool, false),
        AccountMeta::new_readonly(a.global_config, false),
        AccountMeta::new(a.user, true),
        AccountMeta::new_readonly(a.base_mint, false),
        AccountMeta::new_readonly(a.quote_mint, false),
        AccountMeta::new(a.lp_mint, false),
        AccountMeta::new(a.user_base, false),
        AccountMeta::new(a.user_quote, false),
        AccountMeta::new(a.user_lp, false),
        AccountMeta::new(a.pool_base, false),
        AccountMeta::new(a.pool_quote, false),
        AccountMeta::new_readonly(Address::new(TOKEN_PROGRAM), false),
        AccountMeta::new_readonly(Address::new(TOKEN_2022_PROGRAM), false),
        AccountMeta::new_readonly(a.event_authority, false),
        AccountMeta::new_readonly(Address::new(PUMPAMM), false),
    ];
    assert(accounts_view(accounts@) =~= liquidity_accounts_spec(a@));
    accounts
}

/// Builds the account list of the creation of a pool from the addresses
/// that it names.
pub fn create_pool_accounts(a: &CreatePoolAddresses) -> (r: Vec<AccountMeta>)
    ensures
        accounts_view(r@) == create_pool_accounts_spec(a@),
        r.len() == 18,
        only_signer(accounts_view(r@), 2),
{
    let accounts: Vec<AccountMeta> = vec![
        AccountMeta::new(a.pool, false),
        AccountMeta::new_readonly(a.global_config, false),
        AccountMeta::new(a.creator, true),
        AccountMeta::new_readonly(a.base_mint, false),
        AccountMeta::new_readonly(a.quote_mint, false),
        AccountMeta::new(a.lp_mint, false),
        AccountMeta::new(a.creator_base, false),
        AccountMeta::new(a.creator_quote, false),
        AccountMeta::new(a.creator_lp, false),
        AccountMeta::new(a.pool_base, false),
        AccountMeta::new(a.pool_quote, false),
        AccountMeta::new_readonly(Address::new(SYSTEM_PROGRAM), false),
        AccountMeta::new_readonly(Address::new(TOKEN_2022_PROGRAM), false),
        AccountMeta::new_readonly(a.base_token_program, false),
        AccountMeta::new_readonly(a.quote_token_program, false),
        AccountMeta::new_readonly(Address::new(ASSOCIATED_TOKEN_PROGRAM), false),
        AccountMeta::new_readonly(a.event_authority, false),
        AccountMeta::new_readonly(Address::new(PUMPAMM), false),
    ];
    assert(accounts_view(accounts@) =~= create_pool_accounts_spec(a@));
    accounts
}

/// Builds the account list of the extension of `account` by `user`.
pub fn extend_account_accounts(account: &Address, user: &Address, event_authority: &Address) -> (r:
    Vec<AccountMeta>)
    ensures
        accounts_view(r@) == extend_account_accounts_spec(account@, user@, event_authority@),
        r.len() == 5,
        only_signer(accounts_view(r@), 1),
{
    let accounts: Vec<AccountMeta> = vec![
        AccountMeta::new(*account, false),
        AccountMeta::new(*user, true),
        AccountMeta::new_readonly(Address::new(SYSTEM_PROGRAM), false),
        AccountMeta::new_readonly(*event_authority, false),
        AccountMeta::new_readonly(Address::new(PUMPAMM), false),
    ];
    assert(accounts_view(accounts@) =~= extend_account_accounts_spec(
        account@,
        user@,
        event_authority@,
    ));
    accounts
}

} // verus!
