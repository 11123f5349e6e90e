//! The market maker's instructions: for each, the argument record, its
//! bytes, and the ordered list of accounts.

pub mod accounts;
mod buy;
mod create_pool;
mod deposit;
mod extend_account;
mod sell;
mod withdraw;

pub use buy::{buy, buy_spec, Buy};
pub use create_pool::{create_pool, create_pool_spec, CreatePool};
pub use deposit::{deposit, deposit_spec, Deposit};
pub use extend_account::{extend_account, extend_account_spec, ExtendAccount};
pub use sell::{sell, sell_spec, Sell};
pub use withdraw::{withdraw, withdraw_spec, Withdraw};
