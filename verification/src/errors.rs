//! The tagged failures of the pool's instructions.

use vstd::prelude::*;

verus! {

/// Why an instruction was refused.
#[derive(Clone, Copy, Debug, PartialEq, Eq, Structural)]
pub enum ErrorCode {
    /// The sale has not started yet.
    NotStarted,
    /// The deposit window has closed.
    DepositsClosed,
    /// The sale has not ended yet.
    SaleNotEnded,
    /// The sale has already ended.
    SaleEnded,
    /// The participant holds less than the requested amount.
    InsufficientParticipantBalance,
    /// The three timestamps of a new pool are not strictly increasing.
    InvalidTimeSequence,
    /// A new pool would start now or in the past.
    StartNotFuture,
    /// The presented pool signer is not the identity derived from the sale
    /// asset's mint and the nonce.
    InvalidSignerDerivation,
    /// Claim tokens were already in circulation when the pool was created.
    PreIssuedSupply,
    /// A claim was computed against a claim-token supply of zero.
    NoSupply,
    /// Custody refused the authority of a call.
    AuthorityMismatch,
    /// Custody found too little in the account to be debited.
    CustodyInsufficientBalance,
}

} // verus!
