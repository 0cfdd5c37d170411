# amm

A constant-product liquidity pool (token x, token y, LP token), verified with Verus.

- `src/` holds the pool's decisions for its four instructions — initialize,
  deposit, withdraw, swap — as functions over plain account values, each with a
  contract stated over spec functions (`deposit_outcome`, `withdraw_outcome`,
  `swap_outcome`, `initial_config`). `src/amm.rs` holds the entry points and the
  laws that relate the instructions.
- The curve quotes (deposit, withdrawal and swap pricing) are asked for by the
  caller with the queries the library builds (`curve_query`), and handed back
  to the decision functions.
- `app/` is the on-chain program: account validation, curve quotes, token
  transfers, minting and burning around the library's decisions.
