//! Instructions of other programs, built by the crates that define them.

use crate::address::{associated_token_address_spec, Address};
use crate::constants::{ASSOCIATED_TOKEN_PROGRAM, SYSTEM_PROGRAM, TOKEN_PROGRAM};
use crate::encoding::le_bytes;
use crate::instruction::{
    instruction_view, readonly, writable, AccountMeta, Instruction, InstructionView,
};
use vstd::prelude::*;

verus! {

/// The instruction of the system program that moves `lamports` from `from`
/// to `to`: the number of the transfer, 2, in four little-endian bytes, and
/// the amount in eight.
pub open spec fn transfer_spec(from: Seq<u8>, to: Seq<u8>, lamports: u64) -> InstructionView {
    InstructionView {
        program_id: SYSTEM_PROGRAM@,
        accounts: seq![writable(from, true), writable(to, false)],
        data: seq![2u8, 0u8, 0u8, 0u8] + le_bytes(lamports as nat, 8),
    }
}

/// The instruction of the token program that brings the balance of a token
/// account of the native mint in line with its lamports: the one byte 17.
pub open spec fn sync_native_spec(token_program: Seq<u8>, account: Seq<u8>) -> InstructionView {
    InstructionView {
        program_id: token_program,
        accounts: seq![writable(account, false)],
        data: seq![17u8],
    }
}

/// The instruction of the associated-token-account program by which
/// `funder` creates, if it does not exist yet, the token account of
/// `wallet` for `mint` at the address `account`: the one byte 1.
pub open spec fn create_idempotent_spec(
    funder: Seq<u8>,
    account: Seq<u8>,
    wallet: Seq<u8>,
    mint: Seq<u8>,
    token_program: Seq<u8>,
) -> InstructionView {
    InstructionView {
        program_id: ASSOCIATED_TOKEN_PROGRAM@,
        accounts: seq![
            writable(funder, true),
            writable(account, false),
            readonly(wallet, false),
            readonly(mint, false),
            readonly(SYSTEM_PROGRAM@, false),
            readonly(token_program, false),
        ],
        data: seq![1u8],
    }
}

/// Calls `solana_sdk::system_instruction::transfer`.
///
/// Trusted: the instruction is that of `transfer_spec`.
#[verifier::external_body]
pub(crate) fn transfer(from: &Address, to: &Address, lamports: u64) -> (r: Instruction)
    ensures
        r@ == transfer_spec(from@, to@, lamports),
{
    let from_key = solana_sdk::pubkey::Pubkey::new_from_array(from.bytes);
    let to_key = solana_sdk::pubkey::Pubkey::new_from_array(to.bytes);
    let built = solana_sdk::system_instruction::transfer(&from_key, &to_key, lamports);
    Instruction {
        program_id: Address { bytes: built.program_id.to_bytes() },
        accounts: built.accounts.iter().map(|meta| AccountMeta {
            pubkey: Address { bytes: meta.pubkey.to_bytes() },
            is_signer: meta.is_signer,
            is_writable: meta.is_writable,
        }).collect(),
        data: built.data,
    }
}

/// Calls `spl_token::instruction::sync_native`.
///
/// Trusted: where `token_program` is the token program, the instruction is
/// that of `sync_native_spec`; for any other program there is none.
#[verifier::external_body]
pub(crate) fn sync_native(token_program: &Address, account: &Address) -> (r: Option<Instruction>)
    ensures
        instruction_view(r) == (if token_program@ == TOKEN_PROGRAM@ {
            Some(sync_native_spec(token_program@, account@))
        } else {
            None
        }),
{
    let program_key = solana_sdk::pubkey::Pubkey::new_from_array(token_program.bytes);
    let account_key = solana_sdk::pubkey::Pubkey::new_from_array(account.bytes);
    match spl_token::instruction::sync_native(&program_key, &account_key) {
        Ok(built) => Some(Instruction {
            program_id: Address { bytes: built.program_id.to_bytes() },
            accounts: built.accounts.iter().map(|meta| AccountMeta {
                pubkey: Address { bytes: meta.pubkey.to_bytes() },
                is_signer: meta.is_signer,
                is_writable: meta.is_writable,
            }).collect(),
            data: built.data,
        }),
        Err(_) => None,
    }
}

/// Calls
/// `spl_associated_token_account::instruction::create_associated_token_account_idempotent`.
///
/// The call derives the address of the token account and does not return
/// where there is none: that is left out. Trusted: the instruction is that
/// of `create_idempotent_spec`, for the derived address.
#[verifier::external_body]
pub(crate) fn create_associated_token_account_idempotent(
    funder: &Address,
    wallet: &Address,
    mint: &Address,
    token_program: &Address,
) -> (r: Instruction)
    requires
        associated_token_address_spec(wallet@, mint@, token_program@) is Some,
    ensures
        r@ == create_idempotent_spec(
            funder@,
            associated_token_address_spec(wallet@, mint@, token_program@)->0,
            wallet@,
            mint@,
            token_program@,
        ),
{
    let built = spl_associated_token_account::instruction::create_associated_token_account_idempotent(
        &solana_sdk::pubkey::Pubkey::new_from_array(funder.bytes),
        &solana_sdk::pubkey::Pubkey::new_from_array(wallet.bytes),
        &solana_sdk::pubkey::Pubkey::new_from_array(mint.bytes),
        &solana_sdk::pubkey::Pubkey::new_from_array(token_program.bytes),
    );
    Instruction {
        program_id: Address { bytes: built.program_id.to_bytes() },
        accounts: built.accounts.iter().map(|meta| AccountMeta {
            pubkey: Address { bytes: meta.pubkey.to_bytes() },
            is_signer: meta.is_signer,
            is_writable: meta.is_writable,
        }).collect(),
        data: built.data,
    }
}

} // verus!
