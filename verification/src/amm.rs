use vstd::prelude::*;

use crate::curve::{SwapResult, XYAmounts};
use crate::deposit::{deposit_outcome, Deposit, DepositAmounts};
use crate::errors::AmmError;
use crate::initialize::{initial_config, Initialize, InitializeBumps};
use crate::states::{Address, Config};
use crate::swap::{swap_outcome, Swap, SwapTransfers};
use crate::withdraw::{withdraw_outcome, Withdraw, WithdrawAmounts};

verus! {

/// Creates a pool: fills its configuration from the given seed, fee and
/// optional authority, and the bumps of its derived addresses.
pub fn initialize(
    accounts: &mut Initialize,
    bumps: &InitializeBumps,
    seed: u64,
    fee: u16,
    authority: Option<Address>,
) -> (r: Result<(), AmmError>)
    ensures
        r is Ok,
        final(accounts).mint_x == old(accounts).mint_x,
        final(accounts).mint_y == old(accounts).mint_y,
        final(accounts).config == initial_config(
            old(accounts).mint_x,
            old(accounts).mint_y,
            seed,
            fee,
            authority,
            *bumps,
        ),
        final(accounts).config.seed == seed && final(accounts).config.fee == fee
            && final(accounts).config.authority == authority && final(accounts).config.mint_x == old(
            accounts,
        ).mint_x && final(accounts).config.mint_y == old(accounts).mint_y
            && final(accounts).config.bump == bumps.config && final(accounts).config.lp_bump
            == bumps.lp_token && !final(accounts).config.locked,
{
    accounts.initialize(seed, fee, authority, bumps)
}

/// Decides a deposit of `amount` LP tokens bounded by `max_x` and `max_y`.
pub fn deposit(
    accounts: &mut Deposit,
    amount: u64,
    max_x: u64,
    max_y: u64,
    quote: Option<XYAmounts>,
) -> (r: Result<DepositAmounts, AmmError>)
    ensures
        *final(accounts) == *old(accounts),
        r == deposit_outcome(*old(accounts), amount, max_x, max_y, quote),
        old(accounts).lp_token_supply > 0 ==> (r matches Ok(a) ==> quote == Some(
            XYAmounts { x: a.x, y: a.y },
        ) && a.lp == amount),
{
    accounts.deposit(amount, max_x, max_y, quote)
}

/// Decides a withdrawal of `amount` LP tokens bounded below by `min_x` and
/// `min_y`.
pub fn withdraw(
    accounts: &mut Withdraw,
    amount: u64,
    min_x: u64,
    min_y: u64,
    quote: Option<XYAmounts>,
) -> (r: Result<WithdrawAmounts, AmmError>)
    ensures
        *final(accounts) == *old(accounts),
        r == withdraw_outcome(*old(accounts), amount, min_x, min_y, quote),
        r matches Ok(a) ==> quote == Some(XYAmounts { x: a.x, y: a.y }) && a.lp == amount,
{
    accounts.withdraw(amount, min_x, min_y, quote)
}

/// Decides a swap of `amount` of token x (`is_x`) or token y, bounded below
/// by `min` through the curve.
pub fn swap(accounts: &Swap, is_x: bool, min: u64, amount: u64, quote: Option<SwapResult>) -> (r:
    Result<SwapTransfers, AmmError>)
    ensures
        r == swap_outcome(*accounts, is_x, amount, quote),
        (!accounts.config.locked && amount > 0 && (quote matches Some(s) && (s.deposit != 0
            || s.withdraw != 0))) ==> r == Ok::<SwapTransfers, AmmError>(
            SwapTransfers { is_x, deposit: amount, withdraw: amount },
        ),
{
    accounts.swap(is_x, min, amount, quote)
}

/// The accounts a deposit reads, for a pool with configuration `config`.
pub open spec fn deposit_view(config: Config, x: u64, y: u64, l: u64) -> Deposit {
    Deposit { config, mint_x_vault_amount: x, mint_y_vault_amount: y, lp_token_supply: l }
}

/// The accounts a withdrawal reads, for a pool with configuration `config`
/// and a user holding `user_lp` LP tokens.
pub open spec fn withdraw_view(config: Config, x: u64, y: u64, l: u64, user_lp: u64) -> Withdraw {
    Withdraw {
        config,
        mint_x_vault_amount: x,
        mint_y_vault_amount: y,
        lp_token_supply: l,
        user_ata_lp_amount: user_lp,
    }
}

/// The accounts a swap reads, for a pool with configuration `config`.
pub open spec fn swap_view(config: Config, x: u64, y: u64, l: u64) -> Swap {
    Swap { config, mint_x_vault_amount: x, mint_y_vault_amount: y, lp_token_supply: l }
}

/// A locked pool refuses every deposit, withdrawal and swap with
/// `PoolLocked`, whatever the amounts, bounds and curve answers.
pub proof fn lemma_locked_pool_refuses_all(
    config: Config,
    x: u64,
    y: u64,
    l: u64,
    user_lp: u64,
    amount: u64,
    bound_x: u64,
    bound_y: u64,
    is_x: bool,
    lp_quote: Option<XYAmounts>,
    swap_quote: Option<SwapResult>,
)
    requires
        config.locked,
    ensures
        deposit_outcome(deposit_view(config, x, y, l), amount, bound_x, bound_y, lp_quote)
            == Err::<DepositAmounts, AmmError>(AmmError::PoolLocked),
        withdraw_outcome(withdraw_view(config, x, y, l, user_lp), amount, bound_x, bound_y, lp_quote)
            == Err::<WithdrawAmounts, AmmError>(AmmError::PoolLocked),
        swap_outcome(swap_view(config, x, y, l), is_x, amount, swap_quote) == Err::<
            SwapTransfers,
            AmmError,
        >(AmmError::PoolLocked),
{
}

/// A newly initialized pool is open: none of its deposits, withdrawals or
/// swaps is refused with `PoolLocked`.
pub proof fn lemma_new_pool_is_open(
    mint_x: Address,
    mint_y: Address,
    seed: u64,
    fee: u16,
    authority: Option<Address>,
    bumps: InitializeBumps,
    x: u64,
    y: u64,
    l: u64,
    user_lp: u64,
    amount: u64,
    bound_x: u64,
    bound_y: u64,
    is_x: bool,
    lp_quote: Option<XYAmounts>,
    swap_quote: Option<SwapResult>,
)
    ensures
        ({
            let config = initial_config(mint_x, mint_y, seed, fee, authority, bumps);
            &&& !config.locked
            &&& deposit_outcome(deposit_view(config, x, y, l), amount, bound_x, bound_y, lp_quote)
                != Err::<DepositAmounts, AmmError>(AmmError::PoolLocked)
            &&& withdraw_outcome(
                withdraw_view(config, x, y, l, user_lp),
                amount,
                bound_x,
                bound_y,
                lp_quote,
            ) != Err::<WithdrawAmounts, AmmError>(AmmError::PoolLocked)
            &&& swap_outcome(swap_view(config, x, y, l), is_x, amount, swap_quote) != Err::<
                SwapTransfers,
                AmmError,
            >(AmmError::PoolLocked)
        }),
{
}

/// An open pool refuses a zero amount with `InvalidAmount`, for deposits,
/// withdrawals and swaps alike.
pub proof fn lemma_zero_amount_refused(
    config: Config,
    x: u64,
    y: u64,
    l: u64,
    user_lp: u64,
    bound_x: u64,
    bound_y: u64,
    is_x: bool,
    lp_quote: Option<XYAmounts>,
    swap_quote: Option<SwapResult>,
)
    requires
        !config.locked,
    ensures
        deposit_outcome(deposit_view(config, x, y, l), 0, bound_x, bound_y, lp_quote) == Err::<
            DepositAmounts,
            AmmError,
        >(AmmError::InvalidAmount),
        withdraw_outcome(withdraw_view(config, x, y, l, user_lp), 0, bound_x, bound_y, lp_quote)
            == Err::<WithdrawAmounts, AmmError>(AmmError::InvalidAmount),
        swap_outcome(swap_view(config, x, y, l), is_x, 0, swap_quote) == Err::<
            SwapTransfers,
            AmmError,
        >(AmmError::InvalidAmount),
{
}

/// The first deposit into a pool (no LP supply) does not consult the curve:
/// its outcome is the same whatever the curve would have answered.
pub proof fn lemma_first_deposit_ignores_curve(
    pool: Deposit,
    amount: u64,
    max_x: u64,
    max_y: u64,
    quote_a: Option<XYAmounts>,
    quote_b: Option<XYAmounts>,
)
    requires
        pool.lp_token_supply == 0,
    ensures
        deposit_outcome(pool, amount, max_x, max_y, quote_a) == deposit_outcome(
            pool,
            amount,
            max_x,
            max_y,
            quote_b,
        ),
        pool.curve_query_spec(amount) is None,
{
}

/// A refusal for a locked pool, a zero amount or a missing LP balance comes
/// before the curve is heard: these outcomes do not depend on its answer.
pub proof fn lemma_withdraw_checks_precede_curve(
    pool: Withdraw,
    amount: u64,
    min_x: u64,
    min_y: u64,
    quote_a: Option<XYAmounts>,
    quote_b: Option<XYAmounts>,
)
    requires
        pool.config.locked || amount == 0 || pool.user_ata_lp_amount < amount,
    ensures
        withdraw_outcome(pool, amount, min_x, min_y, quote_a) == withdraw_outcome(
            pool,
            amount,
            min_x,
            min_y,
            quote_b,
        ),
        withdraw_outcome(pool, amount, min_x, min_y, quote_a) is Err,
{
}

} // verus!
