//! What the pool reads from the asset custody and what it asks of it.

use crate::address::Address;
use crate::errors::ErrorCode;
use vstd::prelude::*;

verus! {

/// A snapshot of one custody account.
#[derive(Clone, Copy, Debug, PartialEq, Eq)]
pub struct TokenAccount {
    /// The account's identifier.
    pub key: Address,
    /// The mint whose asset the account holds.
    pub mint: Address,
    /// The balance at the time of the call.
    pub amount: u64,
}

/// A snapshot of one mint.
#[derive(Clone, Copy, Debug, PartialEq, Eq)]
pub struct Mint {
    /// The mint's identifier.
    pub key: Address,
    /// The total supply at the time of the call.
    pub supply: u64,
}

/// A request to move `amount` from one account to another of the same asset.
#[derive(Clone, Copy, Debug, PartialEq, Eq)]
pub struct Transfer {
    pub from: Address,
    pub to: Address,
    /// The identity that signs for the debited account.
    pub authority: Address,
    pub amount: u64,
}

/// A request to issue `amount` new tokens of `mint` into an account.
#[derive(Clone, Copy, Debug, PartialEq, Eq)]
pub struct MintTo {
    pub mint: Address,
    pub to: Address,
    /// The identity that signs for the mint.
    pub authority: Address,
    pub amount: u64,
}

/// A request to destroy `amount` tokens of `mint` held in an account.
#[derive(Clone, Copy, Debug, PartialEq, Eq)]
pub struct Burn {
    pub mint: Address,
    pub from: Address,
    /// The identity that signs for the debited account.
    pub authority: Address,
    pub amount: u64,
}

/// Why custody refused a call.
#[derive(Clone, Copy, Debug, PartialEq, Eq, Structural)]
pub enum CustodyError {
    /// The debited account holds less than the amount.
    InsufficientBalance,
    /// The signing identity is not the one the account or mint answers to.
    AuthorityMismatch,
    /// The mint issues no new tokens.
    MintNotAuthorized,
}

/// The failure that an instruction reports for a refusal by custody.
pub open spec fn surfaced(e: CustodyError) -> ErrorCode {
    match e {
        CustodyError::InsufficientBalance => ErrorCode::CustodyInsufficientBalance,
        CustodyError::AuthorityMismatch => ErrorCode::AuthorityMismatch,
        CustodyError::MintNotAuthorized => ErrorCode::AuthorityMismatch,
    }
}

/// Turns custody's answer to a call into the instruction's own result.
pub fn surface(outcome: Result<(), CustodyError>) -> (res: Result<(), ErrorCode>)
    ensures
        res == match outcome {
            Ok(()) => Ok::<(), ErrorCode>(()),
            Err(e) => Err(surfaced(e)),
        },
{
    match outcome {
        Ok(()) => Ok(()),
        Err(CustodyError::InsufficientBalance) => Err(ErrorCode::CustodyInsufficientBalance),
        Err(CustodyError::AuthorityMismatch) => Err(ErrorCode::AuthorityMismatch),
        Err(CustodyError::MintNotAuthorized) => Err(ErrorCode::AuthorityMismatch),
    }
}

} // verus!
