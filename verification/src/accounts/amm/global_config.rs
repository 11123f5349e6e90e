//! The account that holds the market maker's configuration.

use crate::address::Address;
use crate::common::codec::{address_at, read_address, read_u64, u64_at};
use vstd::prelude::*;

verus! {

/// The configuration of the market maker.
#[derive(Debug, Clone, Copy, PartialEq, Eq)]
pub struct GlobalConfigAccount {
    /// The administrator.
    pub admin: Address,
    /// Fee of the liquidity providers, in basis points.
    pub lp_fee_basis_points: u64,
    /// Fee of the protocol, in basis points.
    pub protocol_fee_basis_points: u64,
    /// Bits that switch off instructions: bit 0 pool creation, bit 1
    /// deposit, bit 2 withdrawal, bit 3 purchase, bit 4 sale.
    pub disable_flags: u8,
    /// The accounts that may receive the protocol fee.
    pub protocol_fee_recipients: [Address; 8],
}

/// What a configuration account holds.
pub struct GlobalConfigAccountView {
    pub admin: Seq<u8>,
    pub lp_fee_basis_points: u64,
    pub protocol_fee_basis_points: u64,
    pub disable_flags: u8,
    pub protocol_fee_recipients: Seq<Seq<u8>>,
}

impl View for GlobalConfigAccount {
    type V = GlobalConfigAccountView;

    open spec fn view(&self) -> GlobalConfigAccountView {
        GlobalConfigAccountView {
            admin: self.admin@,
            lp_fee_basis_points: self.lp_fee_basis_points,
            protocol_fee_basis_points: self.protocol_fee_basis_points,
            disable_flags: self.disable_flags,
            protocol_fee_recipients: Seq::new(8, |i: int| self.protocol_fee_recipients@[i]@),
        }
    }
}

/// The configuration that the data of an account describe: after the first
/// eight bytes, the fields in order; what follows them is not read. None
/// where the data are too short to hold them.
pub open spec fn parse_global_config(data: Seq<u8>) -> Option<GlobalConfigAccountView> {
    if data.len() < GlobalConfigAccount::DATA_LEN {
        None
    } else {
        Some(
            GlobalConfigAccountView {
                admin: address_at(data, 8),
                lp_fee_basis_points: u64_at(data, 40),
                protocol_fee_basis_points: u64_at(data, 48),
                disable_flags: data[56],
                protocol_fee_recipients: Seq::new(8, |i: int| address_at(data, 57 + 32 * i)),
            },
        )
    }
}

impl GlobalConfigAccount {
    /// Bit of `disable_flags` that switches off pool creation.
    pub const CREATE_POOL_FLAG: u8 = 0;

    /// Bit of `disable_flags` that switches off deposits.
    pub const DEPOSIT_FLAG: u8 = 1;

    /// Bit of `disable_flags` that switches off withdrawals.
    pub const WITHDRAW_FLAG: u8 = 2;

    /// Bit of `disable_flags` that switches off purchases.
    pub const BUY_FLAG: u8 = 3;

    /// Bit of `disable_flags` that switches off sales.
    pub const SELL_FLAG: u8 = 4;

    /// Number of bytes that the data of a configuration account hold at
    /// least: eight that name the kind of account, and the fields.
    pub const DATA_LEN: usize = 313;

    /// A configuration with these fields.
    pub fn new(
        admin: Address,
        lp_fee_basis_points: u64,
        protocol_fee_basis_points: u64,
        disable_flags: u8,
        protocol_fee_recipients: [Address; 8],
    ) -> (r: GlobalConfigAccount)
        ensures
            r == (GlobalConfigAccount {
                admin,
                lp_fee_basis_points,
                protocol_fee_basis_points,
                disable_flags,
                protocol_fee_recipients,
            }),
    {
        GlobalConfigAccount {
            admin,
            lp_fee_basis_points,
            protocol_fee_basis_points,
            disable_flags,
            protocol_fee_recipients,
        }
    }

    /// Reads a configuration from the data of its account.
    pub fn from_account_data(data: &[u8]) -> (r: Option<GlobalConfigAccount>)
        ensures
            match r {
                Some(config) => parse_global_config(data@) == Some(config@),
                None => parse_global_config(data@) is None,
            },
    {
        if data.len() < Self::DATA_LEN {
            return None;
        }
        let mut recipients: [Address; 8] = [Address::zero(); 8];
        let mut i: usize = 0;
        while i < 8
            invariant
                i <= 8,
                data.len() >= 313,
                forall|j: int| 0 <= j < i ==> recipients@[j]@ == address_at(data@, 57 + 32 * j),
            decreases 8 - i,
        {
            recipients[i] = read_address(data, 57 + 32 * i);
            i += 1;
        }
        let config = GlobalConfigAccount {
            admin: read_address(data, 8),
            lp_fee_basis_points: read_u64(data, 40),
            protocol_fee_basis_points: read_u64(data, 48),
            disable_flags: data[56],
            protocol_fee_recipients: recipients,
        };
        assert(config@.protocol_fee_recipients =~= Seq::new(
            8,
            |i: int| address_at(data@, 57 + 32 * i),
        ));
        Some(config)
    }
}

} // verus!
