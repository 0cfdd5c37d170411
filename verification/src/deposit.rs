use vstd::prelude::*;

use crate::curve::{LiquidityQuery, XYAmounts, LP_PRECISION};
use crate::errors::AmmError;
use crate::roots::{floor_sqrt, is_floor_sqrt, lemma_floor_sqrt_is, lemma_floor_sqrt_spec, sqrt_u128};
use crate::states::Config;

verus! {

/// What a deposit reads of its accounts.
#[derive(Clone, Copy, Debug)]
pub struct Deposit {
    pub config: Config,
    /// Balance of the pool's vault of token x.
    pub mint_x_vault_amount: u64,
    /// Balance of the pool's vault of token y.
    pub mint_y_vault_amount: u64,
    /// LP tokens in circulation.
    pub lp_token_supply: u64,
}

/// What an accepted deposit moves: `x` and `y` from the depositor into the
/// vaults, and `lp` LP tokens minted to the depositor.
#[derive(Clone, Copy, Debug, PartialEq, Eq, Structural)]
pub struct DepositAmounts {
    pub x: u64,
    pub y: u64,
    pub lp: u64,
}

/// LP tokens minted by the first deposit: the truncated square root of
/// `max_x * max_y`.
pub open spec fn first_deposit_lp(max_x: u64, max_y: u64) -> nat {
    floor_sqrt((max_x * max_y) as nat)
}

/// The amounts of a deposit of `lp_amount` LP tokens. The first deposit (no
/// LP supply) takes all of `max_x` and `max_y` and sets the price; later
/// ones take what the curve quoted.
pub open spec fn deposit_amounts_spec(
    lp_supply: u64,
    lp_amount: u64,
    max_x: u64,
    max_y: u64,
    quote: Option<XYAmounts>,
) -> Result<DepositAmounts, AmmError> {
    if lp_supply == 0 {
        Ok(DepositAmounts { x: max_x, y: max_y, lp: first_deposit_lp(max_x, max_y) as u64 })
    } else {
        match quote {
            Some(q) => Ok(DepositAmounts { x: q.x, y: q.y, lp: lp_amount }),
            None => Err(AmmError::CurveError),
        }
    }
}

/// The outcome of a deposit of `amount` LP tokens bounded by `max_x` and
/// `max_y`, given the curve's answer to the pool's query.
pub open spec fn deposit_outcome(
    pool: Deposit,
    amount: u64,
    max_x: u64,
    max_y: u64,
    quote: Option<XYAmounts>,
) -> Result<DepositAmounts, AmmError> {
    if pool.config.locked {
        Err(AmmError::PoolLocked)
    } else if amount == 0 || max_x == 0 || max_y == 0 {
        Err(AmmError::InvalidAmount)
    } else {
        match deposit_amounts_spec(pool.lp_token_supply, amount, max_x, max_y, quote) {
            Err(e) => Err(e),
            Ok(a) => if a.x <= max_x && a.y <= max_y {
                Ok(a)
            } else {
                Err(AmmError::SlippageExceeded)
            },
        }
    }
}

impl Deposit {
    /// What the curve is asked when `lp_amount` LP tokens are deposited:
    /// nothing on the first deposit, else the vault balances, the LP supply
    /// and `lp_amount`.
    pub open spec fn curve_query_spec(self, lp_amount: u64) -> Option<LiquidityQuery> {
        if self.lp_token_supply == 0 {
            None
        } else {
            Some(
                LiquidityQuery {
                    x: self.mint_x_vault_amount,
                    y: self.mint_y_vault_amount,
                    l: self.lp_token_supply,
                    a: lp_amount,
                    precision: LP_PRECISION,
                },
            )
        }
    }

    /// The query to hand to the curve's deposit quote, if one is needed.
    pub fn curve_query(&self, lp_amount: u64) -> (q: Option<LiquidityQuery>)
        ensures
            q == self.curve_query_spec(lp_amount),
            self.lp_token_supply == 0 ==> q is None,
            self.lp_token_supply > 0 ==> q == Some(
                LiquidityQuery {
                    x: self.mint_x_vault_amount,
                    y: self.mint_y_vault_amount,
                    l: self.lp_token_supply,
                    a: lp_amount,
                    precision: LP_PRECISION,
                },
            ),
    {
        if self.lp_token_supply == 0 {
            None
        } else {
            Some(
                LiquidityQuery {
                    x: self.mint_x_vault_amount,
                    y: self.mint_y_vault_amount,
                    l: self.lp_token_supply,
                    a: lp_amount,
                    precision: LP_PRECISION,
                },
            )
        }
    }

    /// The amounts of a deposit of `lp_amount` LP tokens; `quote` is the
    /// curve's answer to [`Deposit::curve_query`] (`None` where it refused).
    pub fn calculate_deposit_amounts(
        &self,
        lp_amount: u64,
        max_x: u64,
        max_y: u64,
        quote: Option<XYAmounts>,
    ) -> (r: Result<DepositAmounts, AmmError>)
        ensures
            r == deposit_amounts_spec(self.lp_token_supply, lp_amount, max_x, max_y, quote),
            self.lp_token_supply == 0 ==> (r matches Ok(a) && a.x == max_x && a.y == max_y
                && is_floor_sqrt(a.lp as int, max_x * max_y)),
            self.lp_token_supply > 0 ==> match quote {
                Some(q) => r == Ok::<DepositAmounts, AmmError>(
                    DepositAmounts { x: q.x, y: q.y, lp: lp_amount },
                ),
                None => r == Err::<DepositAmounts, AmmError>(AmmError::CurveError),
            },
    {
        let is_first_deposit = self.lp_token_supply == 0;
        if is_first_deposit {
            // the first depositor sets the price ratio with all of max_x and max_y
            assert((max_x as int) * (max_y as int) <= (u64::MAX as int) * (u64::MAX as int)) by (nonlinear_arith)
                requires
                    max_x <= u64::MAX,
                    max_y <= u64::MAX,
            ;
            let product = match (max_x as u128).checked_mul(max_y as u128) {
                Some(p) => p,
                None => return Err(AmmError::Overflow),
            };
            let root = sqrt_u128(product);
            assert(root <= u64::MAX) by (nonlinear_arith)
                requires
                    root * root <= product,
                    product <= (u64::MAX as int) * (u64::MAX as int),
            ;
            proof {
                lemma_floor_sqrt_is(root as nat, (max_x * max_y) as nat);
            }
            let lp = root as u64;
            Ok(DepositAmounts { x: max_x, y: max_y, lp })
        } else {
            match quote {
                Some(q) => Ok(DepositAmounts { x: q.x, y: q.y, lp: lp_amount }),
                None => Err(AmmError::CurveError),
            }
        }
    }

    /// Decides a deposit of `amount` LP tokens that takes at most `max_x` of
    /// token x and `max_y` of token y. On success the caller moves the
    /// returned amounts and mints the LP tokens.
    pub fn deposit(&mut self, amount: u64, max_x: u64, max_y: u64, quote: Option<XYAmounts>) -> (r:
        Result<DepositAmounts, AmmError>)
        ensures
            *final(self) == *old(self),
            r == deposit_outcome(*old(self), amount, max_x, max_y, quote),
            r matches Ok(a) ==> a.x <= max_x && a.y <= max_y && a.lp > 0,
            old(self).lp_token_supply == 0 ==> (r matches Ok(a) ==> a.x == max_x && a.y == max_y
                && is_floor_sqrt(a.lp as int, max_x * max_y)),
            old(self).lp_token_supply > 0 ==> (r matches Ok(a) ==> quote == Some(
                XYAmounts { x: a.x, y: a.y },
            ) && a.lp == amount),
    {
        if self.config.locked {
            return Err(AmmError::PoolLocked);
        }
        if amount == 0 {
            return Err(AmmError::InvalidAmount);
        }
        if !(max_x > 0 && max_y > 0) {
            return Err(AmmError::InvalidAmount);
        }
        let amounts = match self.calculate_deposit_amounts(amount, max_x, max_y, quote) {
            Ok(a) => a,
            Err(e) => return Err(e),
        };
        if !(amounts.x <= max_x && amounts.y <= max_y) {
            return Err(AmmError::SlippageExceeded);
        }
        if self.lp_token_supply == 0 {
            assert(amounts.lp > 0) by (nonlinear_arith)
                requires
                    is_floor_sqrt(amounts.lp as int, max_x * max_y),
                    max_x > 0,
                    max_y > 0,
            ;
        }
        Ok(amounts)
    }
}


/// An accepted later deposit (the pool already has LP supply) moves exactly
/// the curve's quote and mints exactly the LP amount asked for; the bounds
/// `max_x`, `max_y` only decide whether it is accepted.
pub proof fn lemma_later_deposit_moves_the_quote(
    pool: Deposit,
    amount: u64,
    max_x: u64,
    max_y: u64,
    quote: Option<XYAmounts>,
)
    requires
        pool.lp_token_supply > 0,
    ensures
        deposit_outcome(pool, amount, max_x, max_y, quote) matches Ok(a) ==> quote == Some(
            XYAmounts { x: a.x, y: a.y },
        ) && a.lp == amount && a.x <= max_x && a.y <= max_y,
{
}

/// A later deposit into an open pool, with positive amounts and a quote
/// within the bounds, is accepted and moves the quote.
pub proof fn lemma_later_deposit_accepted(
    pool: Deposit,
    amount: u64,
    max_x: u64,
    max_y: u64,
    q: XYAmounts,
)
    requires
        pool.lp_token_supply > 0,
        !pool.config.locked,
        amount > 0,
        max_x > 0,
        max_y > 0,
        q.x <= max_x,
        q.y <= max_y,
    ensures
        deposit_outcome(pool, amount, max_x, max_y, Some(q)) == Ok::<DepositAmounts, AmmError>(
            DepositAmounts { x: q.x, y: q.y, lp: amount },
        ),
{
}

/// The first deposit into an open pool, with positive amounts, is always
/// accepted: it takes all of `max_x` and `max_y` and mints the truncated
/// square root of their product, whatever LP amount was asked for.
pub proof fn lemma_first_deposit_accepted(
    pool: Deposit,
    amount: u64,
    max_x: u64,
    max_y: u64,
    quote: Option<XYAmounts>,
)
    requires
        pool.lp_token_supply == 0,
        !pool.config.locked,
        amount > 0,
        max_x > 0,
        max_y > 0,
    ensures
        deposit_outcome(pool, amount, max_x, max_y, quote) matches Ok(a) && a.x == max_x && a.y
            == max_y && a.lp > 0 && (a.lp as int) * (a.lp as int) <= max_x * max_y && max_x * max_y
            < (a.lp + 1) * (a.lp + 1),
{
    let n = (max_x * max_y) as nat;
    assert((max_x as int) * (max_y as int) <= (u64::MAX as int) * (u64::MAX as int)) by (nonlinear_arith)
        requires
            max_x <= u64::MAX,
            max_y <= u64::MAX,
    ;
    lemma_floor_sqrt_spec(n);
    let r = floor_sqrt(n);
    assert(r > 0) by (nonlinear_arith)
        requires
            is_floor_sqrt(r as int, max_x * max_y),
            max_x > 0,
            max_y > 0,
    ;
}

/// Exactly when a deposit is refused, and with which error.
pub proof fn lemma_deposit_refusals(
    pool: Deposit,
    amount: u64,
    max_x: u64,
    max_y: u64,
    quote: Option<XYAmounts>,
)
    ensures
        ({
            let r = deposit_outcome(pool, amount, max_x, max_y, quote);
            let open = !pool.config.locked;
            let positive = amount > 0 && max_x > 0 && max_y > 0;
            &&& (r == Err::<DepositAmounts, AmmError>(AmmError::PoolLocked)) <==> pool.config.locked
            &&& (r == Err::<DepositAmounts, AmmError>(AmmError::InvalidAmount)) <==> (open
                && !positive)
            &&& (r == Err::<DepositAmounts, AmmError>(AmmError::CurveError)) <==> (open && positive
                && pool.lp_token_supply > 0 && quote is None)
            &&& (r == Err::<DepositAmounts, AmmError>(AmmError::SlippageExceeded)) <==> (open
                && positive && pool.lp_token_supply > 0 && (quote matches Some(q) && (q.x > max_x
                || q.y > max_y)))
            &&& r != Err::<DepositAmounts, AmmError>(AmmError::Overflow)
            &&& r != Err::<DepositAmounts, AmmError>(AmmError::Insufficientbalance)
        }),
{
    if !pool.config.locked && amount > 0 && max_x > 0 && max_y > 0 && pool.lp_token_supply == 0 {
        lemma_first_deposit_accepted(pool, amount, max_x, max_y, quote);
    }
}

/// The curve is consulted only once the pool has LP supply, and then with
/// the pool's vault balances, its LP supply and the LP amount deposited.
pub proof fn lemma_deposit_query(pool: Deposit, lp_amount: u64)
    ensures
        pool.lp_token_supply == 0 ==> pool.curve_query_spec(lp_amount) is None,
        pool.lp_token_supply > 0 ==> (pool.curve_query_spec(lp_amount) matches Some(q) && q.x
            == pool.mint_x_vault_amount && q.y == pool.mint_y_vault_amount && q.l
            == pool.lp_token_supply && q.a == lp_amount && q.precision == LP_PRECISION),
{
}

} // verus!
