//! Instructions: a program to call, the accounts it is handed, and the
//! bytes of its arguments.

use crate::address::Address;
use crate::encoding::put_bytes;
use vstd::prelude::*;

verus! {

/// One account handed to a program, with the rights it is handed with.
#[derive(Debug, Clone, Copy, PartialEq, Eq)]
pub struct AccountMeta {
    /// The account's address.
    pub pubkey: Address,
    /// Whether the transaction must carry this account's signature.
    pub is_signer: bool,
    /// Whether the program may write to the account.
    pub is_writable: bool,
}

/// What an account reference holds: the bytes of the address and the two
/// flags.
pub struct AccountMetaView {
    pub pubkey: Seq<u8>,
    pub is_signer: bool,
    pub is_writable: bool,
}

impl View for AccountMeta {
    type V = AccountMetaView;

    open spec fn view(&self) -> AccountMetaView {
        AccountMetaView {
            pubkey: self.pubkey@,
            is_signer: self.is_signer,
            is_writable: self.is_writable,
        }
    }
}

/// A reference to an account that the program may write to.
pub open spec fn writable(pubkey: Seq<u8>, is_signer: bool) -> AccountMetaView {
    AccountMetaView { pubkey, is_signer, is_writable: true }
}

/// A reference to an account that the program may only read.
pub open spec fn readonly(pubkey: Seq<u8>, is_signer: bool) -> AccountMetaView {
    AccountMetaView { pubkey, is_signer, is_writable: false }
}

impl AccountMeta {
    /// A reference to an account that the program may write to.
    pub fn new(pubkey: Address, is_signer: bool) -> (r: AccountMeta)
        ensures
            r@ == writable(pubkey@, is_signer),
    {
        AccountMeta { pubkey, is_signer, is_writable: true }
    }

    /// A reference to an account that the program may only read.
    pub fn new_readonly(pubkey: Address, is_signer: bool) -> (r: AccountMeta)
        ensures
            r@ == readonly(pubkey@, is_signer),
    {
        AccountMeta { pubkey, is_signer, is_writable: false }
    }
}

/// A call of a program.
#[derive(Debug, Clone, PartialEq, Eq)]
pub struct Instruction {
    /// The program that is called.
    pub program_id: Address,
    /// The accounts it is handed, in the order it expects them.
    pub accounts: Vec<AccountMeta>,
    /// The bytes of its arguments.
    pub data: Vec<u8>,
}

/// What an instruction holds.
pub struct InstructionView {
    pub program_id: Seq<u8>,
    pub accounts: Seq<AccountMetaView>,
    pub data: Seq<u8>,
}

/// What a list of account references holds.
pub open spec fn accounts_view(accounts: Seq<AccountMeta>) -> Seq<AccountMetaView> {
    Seq::new(accounts.len(), |i: int| accounts[i]@)
}

impl View for Instruction {
    type V = InstructionView;

    open spec fn view(&self) -> InstructionView {
        InstructionView {
            program_id: self.program_id@,
            accounts: accounts_view(self.accounts@),
            data: self.data@,
        }
    }
}

/// What an instruction that may be absent holds.
pub open spec fn instruction_view(instruction: Option<Instruction>) -> Option<InstructionView> {
    match instruction {
        Some(i) => Some(i@),
        None => None,
    }
}

/// What a list of instructions holds.
pub open spec fn instructions_view(instructions: Seq<Instruction>) -> Seq<InstructionView> {
    Seq::new(instructions.len(), |i: int| instructions[i]@)
}

impl Instruction {
    /// The call of `program_id` with these argument bytes and accounts.
    pub fn new_with_bytes(program_id: Address, data: &[u8], accounts: Vec<AccountMeta>) -> (r:
        Instruction)
        ensures
            r@ == (InstructionView {
                program_id: program_id@,
                accounts: accounts_view(accounts@),
                data: data@,
            }),
    {
        let mut bytes: Vec<u8> = Vec::with_capacity(data.len());
        put_bytes(&mut bytes, data);
        assert(bytes@ =~= data@);
        Instruction { program_id, accounts, data: bytes }
    }
}

} // verus!
