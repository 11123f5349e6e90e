//! The lists of instructions that carry out one operation on a pool.
//!
//! What the caller has read from the chain comes in as plain values: the
//! pool's account and the size of its data, the programs of the two mints,
//! and whether the token accounts that an operation needs exist.

use crate::accounts::amm::{GlobalConfigAccount, PoolAccount};
use crate::address::{
    associated_token_address_spec, get_associated_token_address_with_program_id, Address,
};
use crate::amm::outside::{
    create_associated_token_account_idempotent, create_idempotent_spec, sync_native,
    sync_native_spec, transfer, transfer_spec,
};
use crate::amm::{pool_pda_spec, PumpAmm};
use crate::constants::{
    NATIVE_MINT, POOL_ACCOUNT_SIZE, SYSTEM_PROGRAM, TOKEN_2022_PROGRAM, TOKEN_PROGRAM,
};
use crate::error::ClientError;
use crate::instruction::{instruction_view, instructions_view, Instruction, InstructionView};
use crate::instructions::amm::{
    buy, buy_spec, create_pool, create_pool_spec, deposit, deposit_spec, extend_account,
    extend_account_spec, sell, sell_spec, withdraw, withdraw_spec, Buy, CreatePool, Deposit,
    ExtendAccount, Sell, Withdraw,
};
use vstd::prelude::*;

verus! {

/// What the client has read about a pool before it builds instructions.
#[derive(Debug, Clone, Copy, PartialEq, Eq)]
pub struct PoolSnapshot {
    /// The pool's account.
    pub account: PoolAccount,
    /// Number of bytes of the account's data.
    pub data_len: usize,
    /// The token program that owns the base mint.
    pub base_token_program: Address,
    /// The token program that owns the quote mint.
    pub quote_token_program: Address,
}

/// What a list of instructions, or the failure to build one, holds.
pub open spec fn instructions_result_view(r: Result<Vec<Instruction>, ClientError>) -> Result<
    Seq<InstructionView>,
    ClientError,
> {
    match r {
        Ok(instructions) => Ok(instructions_view(instructions@)),
        Err(e) => Err(e),
    }
}

/// An instruction that must exist, or the failure to derive an address.
pub open spec fn required(instruction: Option<InstructionView>) -> Result<
    Seq<InstructionView>,
    ClientError,
> {
    match instruction {
        Some(i) => Ok(seq![i]),
        None => Err(ClientError::NoProgramAddress),
    }
}

/// One list of instructions followed by another, or the first failure.
pub open spec fn followed_by(
    first: Result<Seq<InstructionView>, ClientError>,
    second: Result<Seq<InstructionView>, ClientError>,
) -> Result<Seq<InstructionView>, ClientError> {
    match first {
        Err(e) => Err(e),
        Ok(a) => match second {
            Err(e) => Err(e),
            Ok(b) => Ok(a + b),
        },
    }
}

/// The instructions that wrap native tokens before an operation pays with
/// them.
///
/// None unless `mint` is the native mint. Then, where `create_ata` is set,
/// the payer's token account for the native mint is created if it is
/// missing; and where `amount` is positive, `amount` lamports are moved to
/// `ata` and the token balance of `ata` is brought in line.
pub open spec fn with_wsol_spec(
    payer: Seq<u8>,
    mint: Seq<u8>,
    ata: Seq<u8>,
    amount: u64,
    create_ata: bool,
) -> Result<Seq<InstructionView>, ClientError> {
    if mint != NATIVE_MINT@ {
        Ok(seq![])
    } else {
        let create = if create_ata {
            match associated_token_address_spec(payer, NATIVE_MINT@, TOKEN_PROGRAM@) {
                Some(account) => Ok(
                    seq![
                        create_idempotent_spec(payer, account, payer, NATIVE_MINT@, TOKEN_PROGRAM@),
                    ],
                ),
                None => Err(ClientError::NoProgramAddress),
            }
        } else {
            Ok(seq![])
        };
        let fund = if amount > 0 {
            Ok(seq![transfer_spec(payer, ata, amount), sync_native_spec(TOKEN_PROGRAM@, ata)])
        } else {
            Ok(seq![])
        };
        followed_by(create, fund)
    }
}

/// The instruction that extends the pool's account, where its data are
/// shorter than a pool account is now.
pub open spec fn extension_spec(payer: Seq<u8>, pool: Seq<u8>, data_len: usize) -> Result<
    Seq<InstructionView>,
    ClientError,
> {
    if data_len < POOL_ACCOUNT_SIZE {
        required(extend_account_spec(payer, pool, ExtendAccount {  }))
    } else {
        Ok(seq![])
    }
}

/// The instruction that creates the token account of `wallet` for `mint`,
/// where it does not exist yet.
pub open spec fn creation_spec(
    payer: Seq<u8>,
    wallet: Seq<u8>,
    mint: Seq<u8>,
    token_program: Seq<u8>,
    exists: bool,
) -> Result<Seq<InstructionView>, ClientError> {
    if exists {
        Ok(seq![])
    } else {
        match associated_token_address_spec(wallet, mint, token_program) {
            Some(account) => Ok(
                seq![create_idempotent_spec(payer, account, wallet, mint, token_program)],
            ),
            None => Err(ClientError::NoProgramAddress),
        }
    }
}

/// The account that receives the protocol fee: the one that the caller
/// names, or else the first of the configuration.
pub open spec fn fee_recipient_spec(named: Option<Address>, config: GlobalConfigAccount) -> Seq<u8> {
    match named {
        Some(recipient) => recipient@,
        None => config.protocol_fee_recipients@[0]@,
    }
}

/// The instructions of a purchase: wrapping of native tokens where the
/// quote mint is the native mint, extension of the pool's account where it
/// is short, and the purchase itself.
pub open spec fn buy_instructions_spec(
    payer: Seq<u8>,
    pool: Seq<u8>,
    base_out: u64,
    max_quote_in: u64,
    fee_recipient: Seq<u8>,
    snapshot: PoolSnapshot,
    coin_creator: Seq<u8>,
    create_ata: bool,
) -> Result<Seq<InstructionView>, ClientError> {
    match associated_token_address_spec(
        payer,
        snapshot.account.quote_mint@,
        snapshot.quote_token_program@,
    ) {
        None => Err(ClientError::NoProgramAddress),
        Some(user_quote) => followed_by(
            followed_by(
                with_wsol_spec(
                    payer,
                    snapshot.account.quote_mint@,
                    user_quote,
                    max_quote_in,
                    create_ata,
                ),
                extension_spec(payer, pool, snapshot.data_len),
            ),
            required(
                buy_spec(
                    payer,
                    pool,
                    snapshot.account.base_mint@,
                    snapshot.account.quote_mint@,
                    snapshot.base_token_program@,
                    snapshot.quote_token_program@,
                    fee_recipient,
                    coin_creator,
                    Buy { base_amount_out: base_out, max_quote_amount_in: max_quote_in },
                ),
            ),
        ),
    }
}

/// Appends `more` to `instructions`.
pub(crate) fn append_instructions(instructions: &mut Vec<Instruction>, more: Vec<Instruction>)
    ensures
        instructions_view(final(instructions)@) == instructions_view(old(instructions)@)
            + instructions_view(more@),
{
    let mut more = more;
    let ghost added: Seq<Instruction> = more@;
    instructions.append(&mut more);
    assert(instructions_view(instructions@) =~= instructions_view(old(instructions)@)
        + instructions_view(added));
}

/// A list that holds the one instruction, or the failure to derive an
/// address where there is none.
pub(crate) fn require(instruction: Option<Instruction>) -> (r: Result<Vec<Instruction>, ClientError>)
    ensures
        instructions_result_view(r) == required(instruction_view(instruction)),
{
    match instruction {
        Some(i) => {
            let list: Vec<Instruction> = vec![i];
            assert(instructions_view(list@) =~= seq![i@]);
            Ok(list)
        },
        None => Err(ClientError::NoProgramAddress),
    }
}

impl PumpAmm {
    /// The account that receives the protocol fee: the one that the caller
    /// names, or else the first of the configuration.
    pub fn fee_recipient(named: Option<Address>, config: &GlobalConfigAccount) -> (r: Address)
        ensures
            r@ == fee_recipient_spec(named, *config),
    {
        match named {
            Some(recipient) => recipient,
            None => config.protocol_fee_recipients[0],
        }
    }

    /// Builds the instruction by which the payer extends `account`.
    pub fn get_extend_account_instruction(&self, account: Address) -> (r: Option<Instruction>)
        ensures
            instruction_view(r) == extend_account_spec(self.payer@, account@, ExtendAccount {  }),
    {
        extend_account(&self.payer, &account, ExtendAccount {  })
    }

    /// Builds the instruction that extends the pool's account where its
    /// data are short, and none where they are not.
    pub fn get_extension_instructions(&self, pool: Address, data_len: usize) -> (r: Result<
        Vec<Instruction>,
        ClientError,
    >)
        ensures
            instructions_result_view(r) == extension_spec(self.payer@, pool@, data_len),
    {
        if (data_len as u64) < POOL_ACCOUNT_SIZE {
            require(self.get_extend_account_instruction(pool))
        } else {
            let list: Vec<Instruction> = Vec::new();
            assert(instructions_view(list@) =~= seq![]);
            Ok(list)
        }
    }

    /// Builds the instruction that creates the token account of `wallet`
    /// for `mint` where it does not exist yet, and none where it does.
    pub fn get_creation_instructions(
        &self,
        wallet: &Address,
        mint: &Address,
        token_program: &Address,
        exists: bool,
    ) -> (r: Result<Vec<Instruction>, ClientError>)
        ensures
            instructions_result_view(r) == creation_spec(
                self.payer@,
                wallet@,
                mint@,
                token_program@,
                exists,
            ),
    {
        if exists {
            let list: Vec<Instruction> = Vec::new();
            assert(instructions_view(list@) =~= seq![]);
            return Ok(list);
        }
        match get_associated_token_address_with_program_id(wallet, mint, token_program) {
            Some(_) => {
                let created = create_associated_token_account_idempotent(
                    &self.payer,
                    wallet,
                    mint,
                    token_program,
                );
                let list: Vec<Instruction> = vec![created];
                assert(instructions_view(list@) =~= seq![created@]);
                Ok(list)
            },
            None => Err(ClientError::NoProgramAddress),
        }
    }

    /// Builds the instructions that wrap native tokens before an operation
    /// pays `amount` of `mint` from the token account `ata`.
    pub fn get_with_wsol_instructions(
        &self,
        mint: Address,
        ata: Address,
        amount: u64,
        create_ata: bool,
    ) -> (r: Result<Vec<Instruction>, ClientError>)
        ensures
            instructions_result_view(r) == with_wsol_spec(
                self.payer@,
                mint@,
                ata@,
                amount,
                create_ata,
            ),
    {
        let native = Address::new(NATIVE_MINT);
        let token_program = Address::new(TOKEN_PROGRAM);
        let mut instructions: Vec<Instruction> = Vec::new();
        assert(instructions_view(instructions@) =~= seq![]);
        if mint.same(&native) {
            if create_ata {
                let created = self.get_creation_instructions(
                    &self.payer,
                    &native,
                    &token_program,
                    false,
                )?;
                append_instructions(&mut instructions, created);
            }
            if amount > 0 {
                let moved = transfer(&self.payer, &ata, amount);
                let synced = match sync_native(&token_program, &ata) {
                    Some(i) => i,
                    None => {
                        return Err(ClientError::IncorrectTokenProgram);
                    },
                };
                let fund: Vec<Instruction> = vec![moved, synced];
                assert(instructions_view(fund@) =~= seq![moved@, synced@]);
                append_instructions(&mut instructions, fund);
            }
            assert(instructions_view(instructions@) =~= with_wsol_spec(
                self.payer@,
                mint@,
                ata@,
                amount,
                create_ata,
            )->Ok_0);
        }
        Ok(instructions)
    }

    /// Builds the instructions of a purchase of `base_out` base tokens for
    /// at most `max_quote_in` quote tokens.
    ///
    /// Fails where an address cannot be derived.
    pub fn get_buy_instructions(
        &self,
        pool: Address,
        base_out: u64,
        max_quote_in: u64,
        protocol_fee_recipient: Option<Address>,
        config: &GlobalConfigAccount,
        snapshot: &PoolSnapshot,
        coin_creator: &Address,
        create_ata: bool,
    ) -> (r: Result<Vec<Instruction>, ClientError>)
        ensures
            instructions_result_view(r) == buy_instructions_spec(
                self.payer@,
                pool@,
                base_out,
                max_quote_in,
                fee_recipient_spec(protocol_fee_recipient, *config),
                *snapshot,
                coin_creator@,
                create_ata,
            ),
    {
        let recipient = Self::fee_recipient(protocol_fee_recipient, config);
        let user_quote = match get_associated_token_address_with_program_id(
            &self.payer,
            &snapshot.account.quote_mint,
            &snapshot.quote_token_program,
        ) {
            Some(a) => a,
            None => {
                return Err(ClientError::NoProgramAddress);
            },
        };
        let mut instructions = self.get_with_wsol_instructions(
            snapshot.account.quote_mint,
            user_quote,
            max_quote_in,
            create_ata,
        )?;
        let extension = self.get_extension_instructions(pool, snapshot.data_len)?;
        append_instructions(&mut instructions, extension);
        let purchase = require(
            buy(
                &self.payer,
                &pool,
                &snapshot.account.base_mint,
                &snapshot.account.quote_mint,
                &snapshot.base_token_program,
                &snapshot.quote_token_program,
                &recipient,
                coin_creator,
                Buy { base_amount_out: base_out, max_quote_amount_in: max_quote_in },
            ),
        )?;
        append_instructions(&mut instructions, purchase);
        Ok(instructions)
    }

    /// Builds the instructions of a sale of `base_amount_in` base tokens
    /// for at least `min_quote_amount_out` quote tokens.
    ///
    /// Fails where an address cannot be derived.
    pub fn get_sell_instructions(
        &self,
        pool: Address,
        base_amount_in: u64,
        min_quote_amount_out: u64,
        protocol_fee_recipient: Option<Address>,
        config: &GlobalConfigAccount,
        snapshot: &PoolSnapshot,
        coin_creator: &Address,
        create_ata: bool,
    ) -> (r: Result<Vec<Instruction>, ClientError>)
        ensures
            instructions_result_view(r) == sell_instructions_spec(
                self.payer@,
                pool@,
                base_amount_in,
                min_quote_amount_out,
                fee_recipient_spec(protocol_fee_recipient, *config),
                *snapshot,
                coin_creator@,
                create_ata,
            ),
    {
        let recipient = Self::fee_recipient(protocol_fee_recipient, config);
        let user_base = match get_associated_token_address_with_program_id(
            &self.payer,
            &snapshot.account.base_mint,
            &snapshot.base_token_program,
        ) {
            Some(a) => a,
            None => {
                return Err(ClientError::NoProgramAddress);
            },
        };
        let mut instructions = self.get_with_wsol_instructions(
            snapshot.account.base_mint,
            user_base,
            base_amount_in,
            create_ata,
        )?;
        let extension = self.get_extension_instructions(pool, snapshot.data_len)?;
        append_instructions(&mut instructions, extension);
        let sale = require(
            sell(
                &self.payer,
                &pool,
                &snapshot.account.base_mint,
                &snapshot.account.quote_mint,
                &snapshot.base_token_program,
                &snapshot.quote_token_program,
                &recipient,
                coin_creator,
                Sell { base_amount_in, min_quote_amount_out },
            ),
        )?;
        append_instructions(&mut instructions, sale);
        Ok(instructions)
    }

    /// Builds the instructions of a deposit that mints `lp_token`
    /// liquidity-provider tokens for at most `max_base` and `max_quote`.
    ///
    /// `user_pool_token_account_exists` says whether the payer's account
    /// for the liquidity-provider token exists. Fails where an address
    /// cannot be derived.
    pub fn get_deposit_instructions(
        &self,
        pool: Address,
        lp_token: u64,
        max_base: u64,
        max_quote: u64,
        snapshot: &PoolSnapshot,
        user_pool_token_account_exists: bool,
        create_ata: bool,
    ) -> (r: Result<Vec<Instruction>, ClientError>)
        ensures
            instructions_result_view(r) == deposit_instructions_spec(
                self.payer@,
                pool@,
                lp_token,
                max_base,
                max_quote,
                *snapshot,
                user_pool_token_account_exists,
                create_ata,
            ),
    {
        let user_quote = match get_associated_token_address_with_program_id(
            &self.payer,
            &snapshot.account.quote_mint,
            &snapshot.quote_token_program,
        ) {
            Some(a) => a,
            None => {
                return Err(ClientError::NoProgramAddress);
            },
        };
        let mut instructions = self.get_with_wsol_instructions(
            snapshot.account.quote_mint,
            user_quote,
            max_quote,
            create_ata,
        )?;
        let extension = self.get_extension_instructions(pool, snapshot.data_len)?;
        append_instructions(&mut instructions, extension);
        let created = self.get_creation_instructions(
            &self.payer,
            &snapshot.account.lp_mint,
            &Address::new(TOKEN_2022_PROGRAM),
            user_pool_token_account_exists,
        )?;
        append_instructions(&mut instructions, created);
        let added = require(
            deposit(
                &self.payer,
                &pool,
                &snapshot.account.base_mint,
                &snapshot.account.quote_mint,
                &snapshot.base_token_program,
                &snapshot.quote_token_program,
                Deposit {
                    lp_token_amount_out: lp_token,
                    max_base_amount_in: max_base,
                    max_quote_amount_in: max_quote,
                },
            ),
        )?;
        append_instructions(&mut instructions, added);
        Ok(instructions)
    }

    /// Builds the instructions of a withdrawal that burns
    /// `lp_token_amount_in` liquidity-provider tokens for at least
    /// `min_base_amount_out` and `min_quote_amount_out`.
    ///
    /// The two flags say whether the payer's accounts for the base and the
    /// quote token exist. Fails where an address cannot be derived.
    pub fn get_withdraw_instructions(
        &self,
        pool: Address,
        lp_token_amount_in: u64,
        min_base_amount_out: u64,
        min_quote_amount_out: u64,
        snapshot: &PoolSnapshot,
        user_base_token_account_exists: bool,
        user_quote_token_account_exists: bool,
    ) -> (r: Result<Vec<Instruction>, ClientError>)
        ensures
            instructions_result_view(r) == withdraw_instructions_spec(
                self.payer@,
                pool@,
                lp_token_amount_in,
                min_base_amount_out,
                min_quote_amount_out,
                *snapshot,
                user_base_token_account_exists,
                user_quote_token_account_exists,
            ),
    {
        let mut instructions = self.get_extension_instructions(pool, snapshot.data_len)?;
        let created_base = self.get_creation_instructions(
            &self.payer,
            &snapshot.account.base_mint,
            &snapshot.base_token_program,
            user_base_token_account_exists,
        )?;
        append_instructions(&mut instructions, created_base);
        let created_quote = self.get_creation_instructions(
            &self.payer,
            &snapshot.account.quote_mint,
            &snapshot.quote_token_program,
            user_quote_token_account_exists,
        )?;
        append_instructions(&mut instructions, created_quote);
        let removed = require(
            withdraw(
                &self.payer,
                &pool,
                &snapshot.account.base_mint,
                &snapshot.account.quote_mint,
                &snapshot.base_token_program,
                &snapshot.quote_token_program,
                Withdraw { lp_token_amount_in, min_base_amount_out, min_quote_amount_out },
            ),
        )?;
        append_instructions(&mut instructions, removed);
        Ok(instructions)
    }

    /// Builds the instructions that create the pool of the payer at `index`
    /// for the two mints, started with the two amounts.
    ///
    /// The two flags say whether the pool's accounts for the base and the
    /// quote token exist. The coin's creator is set to the system program.
    /// Fails where an address cannot be derived.
    pub fn get_create_pool_instructions(
        &self,
        index: u16,
        base_mint: Address,
        quote_mint: Address,
        base_amount_in: u64,
        quote_amount_in: u64,
        base_token_program: Address,
        quote_token_program: Address,
        pool_base_token_account_exists: bool,
        pool_quote_token_account_exists: bool,
        create_ata: bool,
    ) -> (r: Result<Vec<Instruction>, ClientError>)
        ensures
            instructions_result_view(r) == create_pool_instructions_spec(
                self.payer@,
                index,
                base_mint@,
                quote_mint@,
                base_amount_in,
                quote_amount_in,
                base_token_program@,
                quote_token_program@,
                pool_base_token_account_exists,
                pool_quote_token_account_exists,
                create_ata,
            ),
    {
        let pool = match Self::get_pool_pda(index, &self.payer, &base_mint, &quote_mint) {
            Some(a) => a,
            None => {
                return Err(ClientError::NoProgramAddress);
            },
        };
        let user_quote = match get_associated_token_address_with_program_id(
            &self.payer,
            &quote_mint,
            &quote_token_program,
        ) {
            Some(a) => a,
            None => {
                return Err(ClientError::NoProgramAddress);
            },
        };
        let mut instructions = self.get_with_wsol_instructions(
            quote_mint,
            user_quote,
            quote_amount_in,
            create_ata,
        )?;
        let created_base = self.get_creation_instructions(
            &pool,
            &base_mint,
            &base_token_program,
            pool_base_token_account_exists,
        )?;
        append_instructions(&mut instructions, created_base);
        let created_quote = self.get_creation_instructions(
            &pool,
            &quote_mint,
            &quote_token_program,
            pool_quote_token_account_exists,
        )?;
        append_instructions(&mut instructions, created_quote);
        let creator = Address::new(SYSTEM_PROGRAM);
        let created = require(
            create_pool(
                &self.payer,
                &base_mint,
                &quote_mint,
                &base_token_program,
                &quote_token_program,
                CreatePool { index, base_amount_in, quote_amount_in, coin_creator: creator },
            ),
        )?;
        append_instructions(&mut instructions, created);
        Ok(instructions)
    }
}

/// The instructions of a sale: wrapping of native tokens where the base
/// mint is the native mint, extension of the pool's account where it is
/// short, and the sale itself.
pub open spec fn sell_instructions_spec(
    payer: Seq<u8>,
    pool: Seq<u8>,
    base_amount_in: u64,
    min_quote_amount_out: u64,
    fee_recipient: Seq<u8>,
    snapshot: PoolSnapshot,
    coin_creator: Seq<u8>,
    create_ata: bool,
) -> Result<Seq<InstructionView>, ClientError> {
    match associated_token_address_spec(
        payer,
        snapshot.account.base_mint@,
        snapshot.base_token_program@,
    ) {
        None => Err(ClientError::NoProgramAddress),
        Some(user_base) => followed_by(
            followed_by(
                with_wsol_spec(
                    payer,
                    snapshot.account.base_mint@,
                    user_base,
                    base_amount_in,
                    create_ata,
                ),
                extension_spec(payer, pool, snapshot.data_len),
            ),
            required(
                sell_spec(
                    payer,
                    pool,
                    snapshot.account.base_mint@,
                    snapshot.account.quote_mint@,
                    snapshot.base_token_program@,
                    snapshot.quote_token_program@,
                    fee_recipient,
                    coin_creator,
                    Sell { base_amount_in, min_quote_amount_out },
                ),
            ),
        ),
    }
}

/// The instructions of a deposit: wrapping of native tokens where the quote
/// mint is the native mint, extension of the pool's account where it is
/// short, creation of the payer's account for the liquidity-provider token
/// where it is missing, and the deposit itself.
pub open spec fn deposit_instructions_spec(
    payer: Seq<u8>,
    pool: Seq<u8>,
    lp_token: u64,
    max_base: u64,
    max_quote: u64,
    snapshot: PoolSnapshot,
    user_pool_token_account_exists: bool,
    create_ata: bool,
) -> Result<Seq<InstructionView>, ClientError> {
    match associated_token_address_spec(
        payer,
        snapshot.account.quote_mint@,
        snapshot.quote_token_program@,
    ) {
        None => Err(ClientError::NoProgramAddress),
        Some(user_quote) => followed_by(
            followed_by(
                followed_by(
                    with_wsol_spec(
                        payer,
                        snapshot.account.quote_mint@,
                        user_quote,
                        max_quote,
                        create_ata,
                    ),
                    extension_spec(payer, pool, snapshot.data_len),
                ),
                creation_spec(
                    payer,
                    payer,
                    snapshot.account.lp_mint@,
                    TOKEN_2022_PROGRAM@,
                    user_pool_token_account_exists,
                ),
            ),
            required(
                deposit_spec(
                    payer,
                    pool,
                    snapshot.account.base_mint@,
                    snapshot.account.quote_mint@,
                    snapshot.base_token_program@,
                    snapshot.quote_token_program@,
                    Deposit {
                        lp_token_amount_out: lp_token,
                        max_base_amount_in: max_base,
                        max_quote_amount_in: max_quote,
                    },
                ),
            ),
        ),
    }
}

/// The instructions of a withdrawal: extension of the pool's account where
/// it is short, creation of the payer's accounts for the base and the quote
/// token where they are missing, and the withdrawal itself.
pub open spec fn withdraw_instructions_spec(
    payer: Seq<u8>,
    pool: Seq<u8>,
    lp_token_amount_in: u64,
    min_base_amount_out: u64,
    min_quote_amount_out: u64,
    snapshot: PoolSnapshot,
    user_base_token_account_exists: bool,
    user_quote_token_account_exists: bool,
) -> Result<Seq<InstructionView>, ClientError> {
    followed_by(
        followed_by(
            followed_by(
                extension_spec(payer, pool, snapshot.data_len),
                creation_spec(
                    payer,
                    payer,
                    snapshot.account.base_mint@,
                    snapshot.base_token_program@,
                    user_base_token_account_exists,
                ),
            ),
            creation_spec(
                payer,
                payer,
                snapshot.account.quote_mint@,
                snapshot.quote_token_program@,
                user_quote_token_account_exists,
            ),
        ),
        required(
            withdraw_spec(
                payer,
                pool,
                snapshot.account.base_mint@,
                snapshot.account.quote_mint@,
                snapshot.base_token_program@,
                snapshot.quote_token_program@,
                Withdraw { lp_token_amount_in, min_base_amount_out, min_quote_amount_out },
            ),
        ),
    )
}

/// The instructions that create a pool: wrapping of native tokens where the
/// quote mint is the native mint, creation of the pool's accounts for the
/// base and the quote token where they are missing, and the creation of the
/// pool itself, with the system program as the coin's creator.
pub open spec fn create_pool_instructions_spec(
    payer: Seq<u8>,
    index: u16,
    base_mint: Seq<u8>,
    quote_mint: Seq<u8>,
    base_amount_in: u64,
    quote_amount_in: u64,
    base_token_program: Seq<u8>,
    quote_token_program: Seq<u8>,
    pool_base_token_account_exists: bool,
    pool_quote_token_account_exists: bool,
    create_ata: bool,
) -> Result<Seq<InstructionView>, ClientError> {
    match pool_pda_spec(index, payer, base_mint, quote_mint) {
        None => Err(ClientError::NoProgramAddress),
        Some(pool) => match associated_token_address_spec(payer, quote_mint, quote_token_program) {
            None => Err(ClientError::NoProgramAddress),
            Some(user_quote) => followed_by(
                followed_by(
                    followed_by(
                        with_wsol_spec(payer, quote_mint, user_quote, quote_amount_in, create_ata),
                        creation_spec(
                            payer,
                            pool,
                            base_mint,
                            base_token_program,
                            pool_base_token_account_exists,
                        ),
                    ),
                    creation_spec(
                        payer,
                        pool,
                        quote_mint,
                        quote_token_program,
                        pool_quote_token_account_exists,
                    ),
                ),
                required(
                    create_pool_spec(
                        payer,
                        base_mint,
                        quote_mint,
                        base_token_program,
                        quote_token_program,
                        create_pool_args(index, base_amount_in, quote_amount_in),
                    ),
                ),
            ),
        },
    }
}

/// The arguments of the creation of a pool whose coin has the system
/// program as its creator.
pub open spec fn create_pool_args(index: u16, base_amount_in: u64, quote_amount_in: u64) -> CreatePool {
    CreatePool {
        index,
        base_amount_in,
        quote_amount_in,
        coin_creator: Address { bytes: SYSTEM_PROGRAM },
    }
}

} // verus!
