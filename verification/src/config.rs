//! Immutable per-sale configuration.
//!
//! The mint identity, the price and the decimal scale act as process-wide
//! configuration on the ledger; here they are an explicit immutable struct
//! handed to every operation, so sale instances with different parameters
//! can coexist.

use vstd::prelude::*;

verus! {

/// Native-currency base units charged per whole token.
pub const LAMPORTS_PER_TOKEN: u64 = 1_000_000;

/// Token base units per whole token (a nine-decimal mint).
pub const TOKEN_DECIMALS: u64 = 1_000_000_000;

/// The fixed parameters of one sale: which token is sold, which program owns
/// the custody account, and the two unit scales.
#[derive(Clone, Copy)]
pub struct SaleConfig {
    /// Identity of the token mint whose units are sold.
    pub mint: [u8; 32],
    /// Identity of the program that owns the custody account.
    pub program: [u8; 32],
    /// Native-currency base units charged per whole token.
    pub lamports_per_token: u64,
    /// Token base units per whole token.
    pub token_decimals: u64,
}

impl SaleConfig {
    /// A configuration is usable when a whole token maps to at least one
    /// base unit.
    pub open spec fn wf(&self) -> bool {
        self.token_decimals >= 1
    }

    /// Builds the configuration with the fixed price and decimal scale.
    pub fn new(mint: [u8; 32], program: [u8; 32]) -> (c: SaleConfig)
        ensures
            c.mint == mint,
            c.program == program,
            c.lamports_per_token == LAMPORTS_PER_TOKEN,
            c.token_decimals == TOKEN_DECIMALS,
            c.wf(),
    {
        SaleConfig {
            mint,
            program,
            lamports_per_token: LAMPORTS_PER_TOKEN,
            token_decimals: TOKEN_DECIMALS,
        }
    }
}

} // verus!
