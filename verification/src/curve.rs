use vstd::prelude::*;

verus! {

/// The precision with which LP amounts are priced against the vaults.
pub const LP_PRECISION: u8 = 6;

/// A request to price an amount of LP tokens against the pool's vaults:
/// the arguments of the constant-product curve's deposit and withdrawal
/// quotes (`x`, `y` the vault balances, `l` the LP supply, `a` the LP amount).
#[derive(Clone, Copy, Debug, PartialEq, Eq, Structural)]
pub struct LiquidityQuery {
    pub x: u64,
    pub y: u64,
    pub l: u64,
    pub a: u64,
    pub precision: u8,
}

/// The curve's answer to a [`LiquidityQuery`]: amounts of token x and token y.
#[derive(Clone, Copy, Debug, PartialEq, Eq, Structural)]
pub struct XYAmounts {
    pub x: u64,
    pub y: u64,
}

/// A request to price a swap on the constant-product curve: a curve made
/// from the vault balances `x`, `y`, the LP supply `l` and the pool's `fee`,
/// then a swap of `amount` of token x (`is_x`) or token y with the lower
/// bound `min` on what comes out.
#[derive(Clone, Copy, Debug, PartialEq, Eq, Structural)]
pub struct SwapQuery {
    pub x: u64,
    pub y: u64,
    pub l: u64,
    pub fee: u16,
    pub is_x: bool,
    pub amount: u64,
    pub min: u64,
}

/// The curve's answer to a [`SwapQuery`].
#[derive(Clone, Copy, Debug, PartialEq, Eq, Structural)]
pub struct SwapResult {
    pub deposit: u64,
    pub withdraw: u64,
    pub fee: u64,
}

} // verus!
