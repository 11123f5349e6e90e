//! The failures that the client can report.

use vstd::prelude::*;

verus! {

/// Why a quote could not be computed or an instruction not be built.
///
/// Every failure is returned as a value. The variants fall into four
/// groups: rejected inputs, arithmetic that left its range, requests that
/// would drain a reserve, and addresses or instructions that cannot be had.
#[derive(Debug, Clone, Copy, PartialEq, Eq)]
pub enum ClientError {
    /// An amount that must be positive was zero.
    ZeroAmount,
    /// One of the pool's reserves was zero.
    ZeroReserve,
    /// The total supply of liquidity-provider tokens was zero.
    ZeroLpSupply,
    /// The slippage tolerance was above 100 percent.
    InvalidSlippage,
    /// The request would take a whole reserve or more.
    PoolDepleted,
    /// A product left the range of its double-width type.
    MultiplicationOverflow,
    /// A sum left the range of its type.
    AdditionOverflow,
    /// A difference fell below zero.
    SubtractionUnderflow,
    /// A divisor was zero.
    DivisionByZero,
    /// A double-width result did not fit in 64 bits.
    ConversionOverflow,
    /// The search for a program address found none.
    NoProgramAddress,
    /// No instruction could be built for the token program that was named.
    IncorrectTokenProgram,
}

} // verus!
