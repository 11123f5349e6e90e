//! Builders of the instructions that the programs accept.

pub mod amm;
