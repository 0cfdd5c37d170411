use vstd::prelude::*;

use crate::errors::AmmError;
use crate::states::{Address, Config};

verus! {

/// What initialization reads of its accounts, and the configuration
/// account it fills.
#[derive(Clone, Copy, Debug)]
pub struct Initialize {
    /// Address of the mint of token x.
    pub mint_x: Address,
    /// Address of the mint of token y.
    pub mint_y: Address,
    /// The pool's configuration account.
    pub config: Config,
}

/// The bumps of the addresses derived for a new pool.
#[derive(Clone, Copy, Debug)]
pub struct InitializeBumps {
    pub config: u8,
    pub lp_token: u8,
}

/// The configuration of a new pool over the two mints.
pub open spec fn initial_config(
    mint_x: Address,
    mint_y: Address,
    seed: u64,
    fee: u16,
    authority: Option<Address>,
    bump: InitializeBumps,
) -> Config {
    Config {
        seed,
        authority,
        mint_x,
        mint_y,
        fee,
        locked: false,
        bump: bump.config,
        lp_bump: bump.lp_token,
    }
}

impl Initialize {
    /// Fills the configuration of a new, unlocked pool over the two mints.
    pub fn initialize(
        &mut self,
        seed: u64,
        fee: u16,
        authority: Option<Address>,
        bump: &InitializeBumps,
    ) -> (r: Result<(), AmmError>)
        ensures
            r is Ok,
            final(self).mint_x == old(self).mint_x,
            final(self).mint_y == old(self).mint_y,
            final(self).config == initial_config(
                old(self).mint_x,
                old(self).mint_y,
                seed,
                fee,
                authority,
                *bump,
            ),
            final(self).config.seed == seed && final(self).config.fee == fee
                && final(self).config.authority == authority && final(self).config.mint_x == old(
                self,
            ).mint_x && final(self).config.mint_y == old(self).mint_y && final(self).config.bump
                == bump.config && final(self).config.lp_bump == bump.lp_token
                && !final(self).config.locked,
    {
        self.config = Config {
            seed,
            authority,
            mint_x: self.mint_x,
            mint_y: self.mint_y,
            fee,
            bump: bump.config,
            lp_bump: bump.lp_token,
            locked: false,
        };
        Ok(())
    }
}


/// A new pool's configuration holds the given seed, fee, authority, mints
/// and bumps unchanged, and is unlocked.
pub proof fn lemma_initial_config_holds_arguments(
    mint_x: Address,
    mint_y: Address,
    seed: u64,
    fee: u16,
    authority: Option<Address>,
    bump: InitializeBumps,
)
    ensures
        ({
            let c = initial_config(mint_x, mint_y, seed, fee, authority, bump);
            &&& c.seed == seed
            &&& c.fee == fee
            &&& c.authority == authority
            &&& c.mint_x == mint_x
            &&& c.mint_y == mint_y
            &&& c.bump == bump.config
            &&& c.lp_bump == bump.lp_token
            &&& !c.locked
        }),
{
}

} // verus!
