//! Client-side quoting, address derivation, instruction encoding and event
//! decoding for a constant-product market maker, with every result stated
//! as a contract and proved.

pub mod accounts;
pub mod address;
pub mod amm;
pub mod common;
pub mod constants;
pub mod encoding;
pub mod error;
pub mod instruction;
pub mod instructions;
pub mod streams;
pub mod utils;
