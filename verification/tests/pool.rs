use amm::amm::{deposit, initialize, swap, withdraw};
use amm::curve::{LiquidityQuery, SwapQuery, SwapResult, XYAmounts, LP_PRECISION};
use amm::deposit::{Deposit, DepositAmounts};
use amm::errors::AmmError;
use amm::initialize::{Initialize, InitializeBumps};
use amm::states::Config;
use amm::swap::{Swap, SwapTransfers};
use amm::withdraw::{Withdraw, WithdrawAmounts};

fn config(locked: bool) -> Config {
    Config {
        seed: 7,
        authority: None,
        mint_x: [1u8; 32],
        mint_y: [2u8; 32],
        fee: 30,
        locked,
        bump: 254,
        lp_bump: 253,
    }
}

fn pool(locked: bool, x: u64, y: u64, l: u64) -> Deposit {
    Deposit { config: config(locked), mint_x_vault_amount: x, mint_y_vault_amount: y, lp_token_supply: l }
}

fn wpool(locked: bool, user_lp: u64) -> Withdraw {
    Withdraw {
        config: config(locked),
        mint_x_vault_amount: 1000,
        mint_y_vault_amount: 4000,
        lp_token_supply: 2000,
        user_ata_lp_amount: user_lp,
    }
}

fn spool(locked: bool) -> Swap {
    Swap { config: config(locked), mint_x_vault_amount: 1000, mint_y_vault_amount: 4000, lp_token_supply: 2000 }
}

#[test]
fn initialize_fills_an_open_config() {
    let mut acc = Initialize { mint_x: [9u8; 32], mint_y: [8u8; 32], config: config(true) };
    let bumps = InitializeBumps { config: 250, lp_token: 249 };
    assert_eq!(initialize(&mut acc, &bumps, 42, 25, Some([3u8; 32])), Ok(()));
    assert_eq!(acc.config.seed, 42);
    assert_eq!(acc.config.fee, 25);
    assert_eq!(acc.config.authority, Some([3u8; 32]));
    assert_eq!(acc.config.mint_x, [9u8; 32]);
    assert_eq!(acc.config.mint_y, [8u8; 32]);
    assert!(!acc.config.locked);
    assert_eq!(acc.config.bump, 250);
    assert_eq!(acc.config.lp_bump, 249);
    assert_eq!(acc.mint_x, [9u8; 32]);
}

#[test]
fn initialize_method_without_authority() {
    let mut acc = Initialize { mint_x: [9u8; 32], mint_y: [8u8; 32], config: config(false) };
    let bumps = InitializeBumps { config: 1, lp_token: 2 };
    assert_eq!(acc.initialize(1, 0, None, &bumps), Ok(()));
    assert_eq!(acc.config.authority, None);
    assert_eq!(acc.config.seed, 1);
}

#[test]
fn first_deposit_takes_both_maxima_and_mints_the_root_of_their_product() {
    let mut p = pool(false, 0, 0, 0);
    assert_eq!(deposit(&mut p, 1, 4, 9, None), Ok(DepositAmounts { x: 4, y: 9, lp: 6 }));
    assert_eq!(p.deposit(500, 2, 3, None), Ok(DepositAmounts { x: 2, y: 3, lp: 2 }));
    assert_eq!(p.deposit(1, 1, 1, None), Ok(DepositAmounts { x: 1, y: 1, lp: 1 }));
    assert_eq!(p.deposit(1, 1_000_000, 1_000_000, None), Ok(DepositAmounts { x: 1_000_000, y: 1_000_000, lp: 1_000_000 }));
}

#[test]
fn first_deposit_at_the_top_of_u64() {
    let mut p = pool(false, 0, 0, 0);
    assert_eq!(
        p.deposit(1, u64::MAX, u64::MAX, None),
        Ok(DepositAmounts { x: u64::MAX, y: u64::MAX, lp: u64::MAX })
    );
    assert_eq!(
        p.deposit(1, u64::MAX, 1, None),
        Ok(DepositAmounts { x: u64::MAX, y: 1, lp: 4294967295 })
    );
}

#[test]
fn first_deposit_ignores_the_curve() {
    let mut p = pool(false, 0, 0, 0);
    let q = Some(XYAmounts { x: 1, y: 1 });
    assert_eq!(p.deposit(3, 16, 25, q), p.deposit(3, 16, 25, None));
    assert_eq!(p.curve_query(3), None);
}

#[test]
fn later_deposit_takes_the_quote() {
    let mut p = pool(false, 1000, 4000, 2000);
    assert_eq!(
        p.curve_query(100),
        Some(LiquidityQuery { x: 1000, y: 4000, l: 2000, a: 100, precision: LP_PRECISION })
    );
    assert_eq!(LP_PRECISION, 6);
    assert_eq!(
        p.deposit(100, 50, 200, Some(XYAmounts { x: 50, y: 200 })),
        Ok(DepositAmounts { x: 50, y: 200, lp: 100 })
    );
}

#[test]
fn deposit_slippage() {
    let mut p = pool(false, 1000, 4000, 2000);
    assert_eq!(p.deposit(100, 49, 200, Some(XYAmounts { x: 50, y: 200 })), Err(AmmError::SlippageExceeded));
    assert_eq!(p.deposit(100, 50, 199, Some(XYAmounts { x: 50, y: 200 })), Err(AmmError::SlippageExceeded));
}

#[test]
fn deposit_refusals() {
    let mut locked = pool(true, 0, 0, 0);
    assert_eq!(locked.deposit(1, 1, 1, None), Err(AmmError::PoolLocked));
    let mut p = pool(false, 1000, 4000, 2000);
    assert_eq!(p.deposit(0, 1, 1, Some(XYAmounts { x: 1, y: 1 })), Err(AmmError::InvalidAmount));
    assert_eq!(p.deposit(1, 0, 1, Some(XYAmounts { x: 0, y: 1 })), Err(AmmError::InvalidAmount));
    assert_eq!(p.deposit(1, 1, 0, Some(XYAmounts { x: 1, y: 0 })), Err(AmmError::InvalidAmount));
    assert_eq!(p.deposit(1, 1, 1, None), Err(AmmError::CurveError));
    assert_eq!(p.calculate_deposit_amounts(1, 1, 1, None), Err(AmmError::CurveError));
}

#[test]
fn withdraw_pays_the_quote() {
    let mut w = wpool(false, 300);
    assert_eq!(
        w.curve_query(200),
        LiquidityQuery { x: 1000, y: 4000, l: 2000, a: 200, precision: 6 }
    );
    assert_eq!(
        withdraw(&mut w, 200, 100, 400, Some(XYAmounts { x: 100, y: 400 })),
        Ok(WithdrawAmounts { lp: 200, x: 100, y: 400 })
    );
    assert_eq!(
        w.withdraw(300, 0, 0, Some(XYAmounts { x: 150, y: 600 })),
        Ok(WithdrawAmounts { lp: 300, x: 150, y: 600 })
    );
}

#[test]
fn withdraw_refusals() {
    assert_eq!(wpool(true, 300).withdraw(1, 0, 0, None), Err(AmmError::PoolLocked));
    let mut w = wpool(false, 300);
    assert_eq!(w.withdraw(0, 0, 0, Some(XYAmounts { x: 1, y: 1 })), Err(AmmError::InvalidAmount));
    assert_eq!(w.withdraw(301, 0, 0, Some(XYAmounts { x: 1, y: 1 })), Err(AmmError::Insufficientbalance));
    assert_eq!(w.withdraw(200, 0, 0, None), Err(AmmError::CurveError));
    assert_eq!(w.withdraw(200, 101, 400, Some(XYAmounts { x: 100, y: 400 })), Err(AmmError::SlippageExceeded));
    assert_eq!(w.withdraw(200, 100, 401, Some(XYAmounts { x: 100, y: 400 })), Err(AmmError::SlippageExceeded));
}

#[test]
fn swap_moves_the_amount_on_the_chosen_side() {
    let s = spool(false);
    assert_eq!(
        s.curve_query(true, 90, 100),
        SwapQuery { x: 1000, y: 4000, l: 2000, fee: 30, is_x: true, amount: 100, min: 90 }
    );
    assert_eq!(
        swap(&s, true, 90, 100, Some(SwapResult { deposit: 100, withdraw: 362, fee: 1 })),
        Ok(SwapTransfers { is_x: true, deposit: 100, withdraw: 100 })
    );
    assert_eq!(
        s.swap(false, 0, 40, Some(SwapResult { deposit: 40, withdraw: 0, fee: 0 })),
        Ok(SwapTransfers { is_x: false, deposit: 40, withdraw: 40 })
    );
}

#[test]
fn swap_refusals() {
    let q = Some(SwapResult { deposit: 1, withdraw: 1, fee: 0 });
    assert_eq!(spool(true).swap(true, 0, 10, q), Err(AmmError::PoolLocked));
    let s = spool(false);
    assert_eq!(s.swap(true, 0, 0, q), Err(AmmError::InvalidAmount));
    assert_eq!(s.swap(true, 0, 10, None), Err(AmmError::CurveError));
    assert_eq!(
        s.swap(true, 0, 10, Some(SwapResult { deposit: 0, withdraw: 0, fee: 0 })),
        Err(AmmError::InvalidAmount)
    );
}

#[test]
fn locked_pool_refuses_everything() {
    let mut d = pool(true, 1000, 4000, 2000);
    let mut w = wpool(true, 10_000);
    let s = spool(true);
    let q = Some(XYAmounts { x: 1, y: 1 });
    assert_eq!(d.deposit(5, 100, 100, q), Err(AmmError::PoolLocked));
    assert_eq!(w.withdraw(5, 0, 0, q), Err(AmmError::PoolLocked));
    assert_eq!(s.swap(false, 0, 5, Some(SwapResult { deposit: 5, withdraw: 5, fee: 0 })), Err(AmmError::PoolLocked));
}

#[test]
fn new_pool_is_open() {
    let mut acc = Initialize { mint_x: [9u8; 32], mint_y: [8u8; 32], config: config(true) };
    let bumps = InitializeBumps { config: 1, lp_token: 2 };
    initialize(&mut acc, &bumps, 3, 30, None).unwrap();
    let mut d = Deposit { config: acc.config, mint_x_vault_amount: 0, mint_y_vault_amount: 0, lp_token_supply: 0 };
    assert_eq!(d.deposit(1, 9, 16, None), Ok(DepositAmounts { x: 9, y: 16, lp: 12 }));
}

#[test]
fn zero_amount_refused_everywhere() {
    let mut d = pool(false, 0, 0, 0);
    assert_eq!(d.deposit(0, 4, 4, None), Err(AmmError::InvalidAmount));
    assert_eq!(wpool(false, 5).withdraw(0, 0, 0, None), Err(AmmError::InvalidAmount));
    assert_eq!(spool(false).swap(true, 0, 0, None), Err(AmmError::InvalidAmount));
}

#[test]
fn refusals_leave_the_accounts_unchanged() {
    let mut d = pool(false, 1000, 4000, 2000);
    let _ = d.deposit(100, 1, 1, Some(XYAmounts { x: 50, y: 200 }));
    assert_eq!(d.mint_x_vault_amount, 1000);
    assert_eq!(d.lp_token_supply, 2000);
    let mut w = wpool(false, 10);
    let _ = w.withdraw(5, 0, 0, Some(XYAmounts { x: 1, y: 1 }));
    assert_eq!(w.user_ata_lp_amount, 10);
}
