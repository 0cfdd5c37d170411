//! A constant-product liquidity pool: the decisions behind its four
//! instructions (initialize, deposit, withdraw, swap), with their contracts.
//!
//! Token movements and the curve arithmetic are performed by the caller; this
//! crate decides what is asked of them, what is refused, and what is moved.

pub mod errors;
pub mod states;
pub mod roots;
pub mod curve;
pub mod deposit;
pub mod withdraw;
pub mod swap;
pub mod initialize;
pub mod amm;
