//! Plain values exchanged with the constant-product curve: the arguments of
//! each curve computation the pool asks for, and the amounts it answers.
use vstd::prelude::*;

verus! {

/// Token amounts of the two sides of the pool.
#[derive(Debug, Clone, Copy, PartialEq, Eq, Structural)]
pub struct XYAmounts {
    pub x: u64,
    pub y: u64,
}

/// Which side of the pool a swap pays in.
#[derive(Debug, Clone, Copy, PartialEq, Eq, Structural)]
pub enum LiquidityPair {
    X,
    Y,
}

/// What a swap on the curve answers: the amount paid into the pool, the
/// amount paid out of it, and the fee kept.
#[derive(Debug, Clone, Copy, PartialEq, Eq, Structural)]
pub struct SwapResult {
    pub deposit: u64,
    pub withdraw: u64,
    pub fee: u64,
}

/// Arguments of a curve computation of the X and Y amounts that go with `a`
/// LP tokens, for a pool holding `x` and `y` against an LP supply of `l`.
#[derive(Debug, Clone, Copy, PartialEq, Eq, Structural)]
pub struct XYQuery {
    pub x: u64,
    pub y: u64,
    pub l: u64,
    pub a: u64,
    pub precision: u32,
}

/// Arguments of a swap on the curve: the curve is set up with the reserves
/// `x`, `y`, the LP supply `l`, the fee in basis points and the optional
/// precision, then swaps `amount` of `pair` with `min` as the least output.
#[derive(Debug, Clone, Copy, PartialEq, Eq, Structural)]
pub struct SwapQuery {
    pub x: u64,
    pub y: u64,
    pub l: u64,
    pub fee: u16,
    pub precision: Option<u8>,
    pub pair: LiquidityPair,
    pub amount: u64,
    pub min: u64,
}

/// Precision handed to the curve when it computes liquidity amounts.
pub const LIQUIDITY_PRECISION: u32 = 6;

/// The first step of a deposit or a withdrawal that was not refused.
#[derive(Debug, PartialEq, Eq)]
pub enum LiquidityStep {
    /// The amounts are known without the curve: carry out these instructions.
    Execute(Vec<crate::token::TokenInstruction>),
    /// The curve must give the amounts for these arguments; the operation is
    /// then finished with them.
    Quote(XYQuery),
}

} // verus!
