//! The instruction that extends a pool account to its current size.

use crate::address::Address;
use crate::amm::{event_authority_pda_spec, PumpAmm};
use crate::constants::PUMPAMM;
use crate::encoding::put_bytes;
use crate::instruction::{instruction_view, Instruction, InstructionView};
use crate::instructions::amm::accounts::{extend_account_accounts, extend_account_accounts_spec};
use vstd::prelude::*;

verus! {

/// Arguments of the instruction: none.
#[derive(Debug, Clone, Copy, PartialEq, Eq)]
pub struct ExtendAccount {}

impl ExtendAccount {
    /// The eight bytes that select the instruction.
    pub const DISCRIMINATOR: [u8; 8] = [234, 102, 194, 203, 150, 72, 62, 229];

    /// The instruction's bytes: the discriminator alone.
    pub open spec fn encoding(&self) -> Seq<u8> {
        Self::DISCRIMINATOR@
    }

    /// The instruction's bytes.
    pub fn data(&self) -> (r: Vec<u8>)
        ensures
            r@ == self.encoding(),
    {
        let mut data: Vec<u8> = Vec::with_capacity(256);
        put_bytes(&mut data, Self::DISCRIMINATOR.as_slice());
        assert(data@ =~= self.encoding());
        data
    }
}

/// The instruction that `extend_account` builds, where the event authority
/// can be derived.
pub open spec fn extend_account_spec(user: Seq<u8>, account: Seq<u8>, args: ExtendAccount) -> Option<
    InstructionView,
> {
    match event_authority_pda_spec() {
        Some(event_authority) => Some(
            InstructionView {
                program_id: PUMPAMM@,
                accounts: extend_account_accounts_spec(account, user, event_authority),
                data: args.encoding(),
            },
        ),
        None => None,
    }
}

/// Builds the instruction by which `user` extends `account`.
pub fn extend_account(user: &Address, account: &Address, args: ExtendAccount) -> (r: Option<
    Instruction,
>)
    ensures
        instruction_view(r) == extend_account_spec(user@, account@, args),
{
    let event_authority = PumpAmm::get_event_authority_pda()?;
    let accounts = extend_account_accounts(account, user, &event_authority);
    let data = args.data();
    Some(Instruction::new_with_bytes(Address::new(PUMPAMM), data.as_slice(), accounts))
}

} // verus!
