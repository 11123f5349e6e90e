//! The accounts that the programs keep.

pub mod amm;
