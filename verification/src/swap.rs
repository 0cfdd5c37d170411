use vstd::prelude::*;

use crate::curve::{SwapQuery, SwapResult};
use crate::errors::AmmError;
use crate::states::Config;

verus! {

/// What a swap reads of its accounts.
#[derive(Clone, Copy, Debug)]
pub struct Swap {
    pub config: Config,
    /// Balance of the pool's vault of token x.
    pub mint_x_vault_amount: u64,
    /// Balance of the pool's vault of token y.
    pub mint_y_vault_amount: u64,
    /// LP tokens in circulation.
    pub lp_token_supply: u64,
}

/// What an accepted swap moves. Both transfers are on the side chosen by
/// `is_x` (token x where it holds, else token y): `deposit` from the user
/// into that vault, then `withdraw` from that vault back to the user.
#[derive(Clone, Copy, Debug, PartialEq, Eq, Structural)]
pub struct SwapTransfers {
    pub is_x: bool,
    pub deposit: u64,
    pub withdraw: u64,
}

/// The outcome of a swap of `amount`, given the curve's answer to the pool's
/// query (`None` where the curve refused).
pub open spec fn swap_outcome(pool: Swap, is_x: bool, amount: u64, quote: Option<SwapResult>) -> Result<
    SwapTransfers,
    AmmError,
> {
    if pool.config.locked {
        Err(AmmError::PoolLocked)
    } else if amount == 0 {
        Err(AmmError::InvalidAmount)
    } else {
        match quote {
            None => Err(AmmError::CurveError),
            Some(s) => if s.deposit != 0 || s.withdraw != 0 {
                Ok(SwapTransfers { is_x, deposit: amount, withdraw: amount })
            } else {
                Err(AmmError::InvalidAmount)
            },
        }
    }
}

impl Swap {
    /// What the curve is asked for a swap of `amount` with lower bound `min`.
    pub open spec fn curve_query_spec(self, is_x: bool, min: u64, amount: u64) -> SwapQuery {
        SwapQuery {
            x: self.mint_x_vault_amount,
            y: self.mint_y_vault_amount,
            l: self.lp_token_supply,
            fee: self.config.fee,
            is_x,
            amount,
            min,
        }
    }

    /// The query to hand to the curve: a curve made from the vaults, the LP
    /// supply and the pool's fee, and the swap to price on it.
    pub fn curve_query(&self, is_x: bool, min: u64, amount: u64) -> (q: SwapQuery)
        ensures
            q == self.curve_query_spec(is_x, min, amount),
            q.x == self.mint_x_vault_amount && q.y == self.mint_y_vault_amount && q.l
                == self.lp_token_supply && q.fee == self.config.fee && q.is_x == is_x && q.amount
                == amount && q.min == min,
    {
        SwapQuery {
            x: self.mint_x_vault_amount,
            y: self.mint_y_vault_amount,
            l: self.lp_token_supply,
            fee: self.config.fee,
            is_x,
            amount,
            min,
        }
    }

    /// Decides a swap of `amount` of token x (`is_x`) or token y, bounded
    /// below by `min` through the curve; `quote` is the curve's answer to
    /// [`Swap::curve_query`] for the same arguments. On success the caller
    /// performs the returned transfers.
    pub fn swap(&self, is_x: bool, min: u64, amount: u64, quote: Option<SwapResult>) -> (r: Result<
        SwapTransfers,
        AmmError,
    >)
        ensures
            r == swap_outcome(*self, is_x, amount, quote),
            r matches Ok(t) ==> t.is_x == is_x && t.deposit == amount && t.withdraw == amount
                && amount > 0,
            (!self.config.locked && amount > 0 && (quote matches Some(s) && (s.deposit != 0
                || s.withdraw != 0))) ==> r == Ok::<SwapTransfers, AmmError>(
                SwapTransfers { is_x, deposit: amount, withdraw: amount },
            ),
    {
        if self.config.locked {
            return Err(AmmError::PoolLocked);
        }
        if amount == 0 {
            return Err(AmmError::InvalidAmount);
        }
        let swap = match quote {
            Some(s) => s,
            None => return Err(AmmError::CurveError),
        };
        if !(swap.deposit != 0 || swap.withdraw != 0) {
            return Err(AmmError::InvalidAmount);
        }
        Ok(SwapTransfers { is_x, deposit: amount, withdraw: amount })
    }
}


/// A swap on an open pool of a positive amount, whose quote moves something,
/// is accepted: it deposits `amount` into the chosen side and withdraws
/// `amount` from it. No other property of the quote is checked.
pub proof fn lemma_swap_accepted(pool: Swap, is_x: bool, amount: u64, s: SwapResult)
    requires
        !pool.config.locked,
        amount > 0,
        s.deposit != 0 || s.withdraw != 0,
    ensures
        swap_outcome(pool, is_x, amount, Some(s)) == Ok::<SwapTransfers, AmmError>(
            SwapTransfers { is_x, deposit: amount, withdraw: amount },
        ),
{
}

/// Exactly when a swap is refused, and with which error.
pub proof fn lemma_swap_refusals(pool: Swap, is_x: bool, amount: u64, quote: Option<SwapResult>)
    ensures
        ({
            let r = swap_outcome(pool, is_x, amount, quote);
            let open = !pool.config.locked;
            &&& (r == Err::<SwapTransfers, AmmError>(AmmError::PoolLocked)) <==> pool.config.locked
            &&& (r == Err::<SwapTransfers, AmmError>(AmmError::InvalidAmount)) <==> (open && (amount
                == 0 || (quote matches Some(s) && s.deposit == 0 && s.withdraw == 0)))
            &&& (r == Err::<SwapTransfers, AmmError>(AmmError::CurveError)) <==> (open && amount > 0
                && quote is None)
            &&& r is Ok ==> r == Ok::<SwapTransfers, AmmError>(
                SwapTransfers { is_x, deposit: amount, withdraw: amount },
            )
            &&& r != Err::<SwapTransfers, AmmError>(AmmError::SlippageExceeded)
            &&& r != Err::<SwapTransfers, AmmError>(AmmError::Overflow)
            &&& r != Err::<SwapTransfers, AmmError>(AmmError::Insufficientbalance)
        }),
{
}

/// The curve prices a swap on the pool's own balances, in place for either
/// side, with the pool's LP supply and fee and the swap's side, amount and
/// lower bound.
pub proof fn lemma_swap_query(pool: Swap, is_x: bool, min: u64, amount: u64)
    ensures
        ({
            let q = pool.curve_query_spec(is_x, min, amount);
            &&& q.x == pool.mint_x_vault_amount
            &&& q.y == pool.mint_y_vault_amount
            &&& q.l == pool.lp_token_supply
            &&& q.fee == pool.config.fee
            &&& q.is_x == is_x
            &&& q.amount == amount
            &&& q.min == min
        }),
{
}

} // verus!
