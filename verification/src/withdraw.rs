use vstd::prelude::*;

use crate::curve::{LiquidityQuery, XYAmounts, LP_PRECISION};
use crate::errors::AmmError;
use crate::states::Config;

verus! {

/// What a withdrawal reads of its accounts.
#[derive(Clone, Copy, Debug)]
pub struct Withdraw {
    pub config: Config,
    /// Balance of the pool's vault of token x.
    pub mint_x_vault_amount: u64,
    /// Balance of the pool's vault of token y.
    pub mint_y_vault_amount: u64,
    /// LP tokens in circulation.
    pub lp_token_supply: u64,
    /// LP tokens held by the withdrawing user.
    pub user_ata_lp_amount: u64,
}

/// What an accepted withdrawal moves: `lp` LP tokens burned from the user,
/// then `x` and `y` paid from the vaults to the user.
#[derive(Clone, Copy, Debug, PartialEq, Eq, Structural)]
pub struct WithdrawAmounts {
    pub lp: u64,
    pub x: u64,
    pub y: u64,
}

/// The outcome of a withdrawal that burns `amount` LP tokens and asks for at
/// least `min_x` and `min_y`, given the curve's answer to the pool's query.
pub open spec fn withdraw_outcome(
    pool: Withdraw,
    amount: u64,
    min_x: u64,
    min_y: u64,
    quote: Option<XYAmounts>,
) -> Result<WithdrawAmounts, AmmError> {
    if pool.config.locked {
        Err(AmmError::PoolLocked)
    } else if amount == 0 {
        Err(AmmError::InvalidAmount)
    } else if pool.user_ata_lp_amount < amount {
        Err(AmmError::Insufficientbalance)
    } else {
        match quote {
            None => Err(AmmError::CurveError),
            Some(q) => if q.x >= min_x && q.y >= min_y {
                Ok(WithdrawAmounts { lp: amount, x: q.x, y: q.y })
            } else {
                Err(AmmError::SlippageExceeded)
            },
        }
    }
}

impl Withdraw {
    /// What the curve is asked when `amount` LP tokens are withdrawn.
    pub open spec fn curve_query_spec(self, amount: u64) -> LiquidityQuery {
        LiquidityQuery {
            x: self.mint_x_vault_amount,
            y: self.mint_y_vault_amount,
            l: self.lp_token_supply,
            a: amount,
            precision: LP_PRECISION,
        }
    }

    /// The query to hand to the curve's withdrawal quote.
    pub fn curve_query(&self, amount: u64) -> (q: LiquidityQuery)
        ensures
            q == self.curve_query_spec(amount),
            q.x == self.mint_x_vault_amount && q.y == self.mint_y_vault_amount && q.l
                == self.lp_token_supply && q.a == amount && q.precision == LP_PRECISION,
    {
        LiquidityQuery {
            x: self.mint_x_vault_amount,
            y: self.mint_y_vault_amount,
            l: self.lp_token_supply,
            a: amount,
            precision: LP_PRECISION,
        }
    }

    /// Decides a withdrawal that burns `amount` LP tokens and pays at least
    /// `min_x` of token x and `min_y` of token y; `quote` is the curve's
    /// answer to [`Withdraw::curve_query`] (`None` where it refused). On
    /// success the caller burns and pays the returned amounts.
    pub fn withdraw(&mut self, amount: u64, min_x: u64, min_y: u64, quote: Option<XYAmounts>) -> (r:
        Result<WithdrawAmounts, AmmError>)
        ensures
            *final(self) == *old(self),
            r == withdraw_outcome(*old(self), amount, min_x, min_y, quote),
            r matches Ok(a) ==> a.x >= min_x && a.y >= min_y && 0 < a.lp == amount
                && a.lp <= old(self).user_ata_lp_amount,
            r matches Ok(a) ==> quote == Some(XYAmounts { x: a.x, y: a.y }),
    {
        if self.config.locked {
            return Err(AmmError::PoolLocked);
        }
        if amount == 0 {
            return Err(AmmError::InvalidAmount);
        }
        if !(self.user_ata_lp_amount >= amount) {
            return Err(AmmError::Insufficientbalance);
        }
        let amounts = match quote {
            Some(q) => q,
            None => return Err(AmmError::CurveError),
        };
        if !(amounts.x >= min_x && amounts.y >= min_y) {
            return Err(AmmError::SlippageExceeded);
        }
        Ok(WithdrawAmounts { lp: amount, x: amounts.x, y: amounts.y })
    }
}


/// An accepted withdrawal burns exactly the LP amount asked for and pays
/// exactly the curve's quote; `min_x`, `min_y` only decide acceptance.
pub proof fn lemma_withdraw_pays_the_quote(
    pool: Withdraw,
    amount: u64,
    min_x: u64,
    min_y: u64,
    quote: Option<XYAmounts>,
)
    ensures
        withdraw_outcome(pool, amount, min_x, min_y, quote) matches Ok(a) ==> quote == Some(
            XYAmounts { x: a.x, y: a.y },
        ) && a.lp == amount && 0 < amount <= pool.user_ata_lp_amount && a.x >= min_x && a.y
            >= min_y,
{
}

/// A withdrawal from an open pool of a positive amount the user holds, with
/// a quote that meets the minima, is accepted and pays the quote.
pub proof fn lemma_withdraw_accepted(
    pool: Withdraw,
    amount: u64,
    min_x: u64,
    min_y: u64,
    q: XYAmounts,
)
    requires
        !pool.config.locked,
        0 < amount <= pool.user_ata_lp_amount,
        q.x >= min_x,
        q.y >= min_y,
    ensures
        withdraw_outcome(pool, amount, min_x, min_y, Some(q)) == Ok::<WithdrawAmounts, AmmError>(
            WithdrawAmounts { lp: amount, x: q.x, y: q.y },
        ),
{
}

/// Exactly when a withdrawal is refused, and with which error.
pub proof fn lemma_withdraw_refusals(
    pool: Withdraw,
    amount: u64,
    min_x: u64,
    min_y: u64,
    quote: Option<XYAmounts>,
)
    ensures
        ({
            let r = withdraw_outcome(pool, amount, min_x, min_y, quote);
            let open = !pool.config.locked;
            &&& (r == Err::<WithdrawAmounts, AmmError>(AmmError::PoolLocked)) <==> pool.config.locked
            &&& (r == Err::<WithdrawAmounts, AmmError>(AmmError::InvalidAmount)) <==> (open && amount
                == 0)
            &&& (r == Err::<WithdrawAmounts, AmmError>(AmmError::Insufficientbalance)) <==> (open
                && amount > 0 && pool.user_ata_lp_amount < amount)
            &&& (r == Err::<WithdrawAmounts, AmmError>(AmmError::CurveError)) <==> (open && 0 < amount
                <= pool.user_ata_lp_amount && quote is None)
            &&& (r == Err::<WithdrawAmounts, AmmError>(AmmError::SlippageExceeded)) <==> (open && 0
                < amount <= pool.user_ata_lp_amount && (quote matches Some(q) && (q.x < min_x || q.y
                < min_y)))
            &&& r != Err::<WithdrawAmounts, AmmError>(AmmError::Overflow)
        }),
{
}

/// The curve is asked to price the withdrawal with the pool's vault
/// balances, its LP supply and the LP amount burned.
pub proof fn lemma_withdraw_query(pool: Withdraw, amount: u64)
    ensures
        ({
            let q = pool.curve_query_spec(amount);
            q.x == pool.mint_x_vault_amount && q.y == pool.mint_y_vault_amount && q.l
                == pool.lp_token_supply && q.a == amount && q.precision == LP_PRECISION
        }),
{
}

} // verus!
