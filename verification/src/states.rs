use vstd::prelude::*;

verus! {

/// An account address: the 32 bytes of a public key.
pub type Address = [u8; 32];

/// The pool's configuration account.
#[derive(Clone, Copy, Debug)]
pub struct Config {
    pub seed: u64,
    /// Optional authority of this pool.
    pub authority: Option<Address>,
    /// Mint address of token x.
    pub mint_x: Address,
    /// Mint address of token y.
    pub mint_y: Address,
    pub fee: u16,
    pub locked: bool,
    /// Bump of the configuration account's address.
    pub bump: u8,
    /// Bump of the LP mint's address.
    pub lp_bump: u8,
}

} // verus!
