//! The record of one sale.

use crate::address::Address;
use vstd::prelude::*;

verus! {

/// The configuration of one sale, written once at creation.
#[derive(Clone, Copy, Debug, PartialEq, Eq)]
pub struct PoolAccount {
    /// The mint of the claim token.
    pub redeemable_mint: Address,
    /// The pool's account of the sale asset.
    pub pool_watermelon: Address,
    /// The mint of the sale asset; the seed of the pool signer.
    pub watermelon_mint: Address,
    /// The pool's account of the stable asset.
    pub pool_usdc: Address,
    /// The creator, who alone may withdraw the proceeds.
    pub distribution_authority: Address,
    /// The nonce from which, with `watermelon_mint`, the pool signer derives.
    pub nonce: u8,
    /// The amount of the sale asset paid into the pool at creation.
    pub num_ido_tokens: u64,
    /// The sale starts strictly after this time.
    pub start_ido_ts: i64,
    /// Deposits are open strictly before this time.
    pub end_deposits_ts: i64,
    /// The sale has ended strictly after this time.
    pub end_ido_ts: i64,
}

impl PoolAccount {
    /// The three timestamps are strictly increasing.
    pub open spec fn well_formed(&self) -> bool {
        self.start_ido_ts < self.end_deposits_ts < self.end_ido_ts
    }
}

} // verus!
