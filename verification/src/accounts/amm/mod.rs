//! The accounts of the market maker.

mod global_config;
mod pool;

pub use global_config::{parse_global_config, GlobalConfigAccount, GlobalConfigAccountView};
pub use pool::{parse_pool, PoolAccount, PoolAccountView};
