//! A time-phased token sale escrow.
//!
//! Participants pay a stable asset into a pool while deposits are open and
//! receive claim tokens one for one. Until the sale ends a claim token can be
//! handed back for the stable asset; once it has ended, claim tokens are
//! redeemed pro rata for the sale asset and the creator collects the proceeds.
//!
//! The balances themselves live with an asset custody outside this crate. Each
//! instruction here reads a snapshot of the balances it depends on, decides
//! whether the request is admissible, and answers with the custody calls that
//! carry it out.

pub mod address;
pub mod book;
pub mod custody;
pub mod errors;
pub mod instructions;
pub mod phase;
pub mod states;
