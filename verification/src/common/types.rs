//! Choices that a caller makes for a swap.

use vstd::prelude::*;

verus! {

/// Which of the two amounts of a swap the caller fixes.
#[derive(Debug, Clone, Copy, PartialEq, Eq)]
pub enum SwapInput {
    /// The amount of base tokens.
    Base,
    /// The amount of quote tokens.
    Quote,
}

/// Which way a swap goes.
#[derive(Debug, Clone, Copy, PartialEq, Eq)]
pub enum SwapDirection {
    /// Quote tokens are paid for base tokens: a purchase.
    QuoteToBase,
    /// Base tokens are paid for quote tokens: a sale.
    BaseToQuote,
}

} // verus!
