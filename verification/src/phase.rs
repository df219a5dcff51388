//! The phase guard: which instruction the clock admits.

use crate::errors::ErrorCode;
use crate::states::pool::PoolAccount;
use vstd::prelude::*;

verus! {

/// The time of a call in seconds, read once per call.
#[derive(Clone, Copy, Debug, PartialEq, Eq)]
pub struct Clock {
    pub unix_timestamp: i64,
}

/// Deposits are admitted strictly between the start and the end of deposits.
pub open spec fn deposit_allowed(now: i64, pool: PoolAccount) -> Result<(), ErrorCode> {
    if now <= pool.start_ido_ts {
        Err(ErrorCode::NotStarted)
    } else if now >= pool.end_deposits_ts {
        Err(ErrorCode::DepositsClosed)
    } else {
        Ok(())
    }
}

/// Claim tokens are exchanged for the sale asset strictly after the end of
/// the sale.
pub open spec fn claim_allowed(now: i64, pool: PoolAccount) -> Result<(), ErrorCode> {
    if now <= pool.start_ido_ts {
        Err(ErrorCode::NotStarted)
    } else if now <= pool.end_ido_ts {
        Err(ErrorCode::SaleNotEnded)
    } else {
        Ok(())
    }
}

/// Claim tokens are handed back for the stable asset strictly between the
/// start and the end of the sale.
pub open spec fn redeem_stable_allowed(now: i64, pool: PoolAccount) -> Result<(), ErrorCode> {
    if now <= pool.start_ido_ts {
        Err(ErrorCode::NotStarted)
    } else if now >= pool.end_ido_ts {
        Err(ErrorCode::SaleEnded)
    } else {
        Ok(())
    }
}

/// The creator collects the proceeds strictly after the end of the sale.
pub open spec fn withdraw_proceeds_allowed(now: i64, pool: PoolAccount) -> Result<(), ErrorCode> {
    if now <= pool.end_ido_ts {
        Err(ErrorCode::SaleNotEnded)
    } else {
        Ok(())
    }
}

/// A pool may only be created for a start that lies strictly ahead.
pub open spec fn start_in_future(now: i64, start_ido_ts: i64) -> Result<(), ErrorCode> {
    if now < start_ido_ts {
        Ok(())
    } else {
        Err(ErrorCode::StartNotFuture)
    }
}

/// Admits a deposit while the sale is in its first phase.
pub fn unrestricted_phase(pool: &PoolAccount, now: i64) -> (res: Result<(), ErrorCode>)
    ensures
        res == deposit_allowed(now, *pool),
{
    if !(pool.start_ido_ts < now) {
        Err(ErrorCode::NotStarted)
    } else if !(now < pool.end_deposits_ts) {
        Err(ErrorCode::DepositsClosed)
    } else {
        Ok(())
    }
}

/// Admits the return of claim tokens for the stable asset while the sale runs.
pub fn withdraw_only_phase(pool: &PoolAccount, now: i64) -> (res: Result<(), ErrorCode>)
    ensures
        res == redeem_stable_allowed(now, *pool),
{
    if !(pool.start_ido_ts < now) {
        Err(ErrorCode::NotStarted)
    } else if !(now < pool.end_ido_ts) {
        Err(ErrorCode::SaleEnded)
    } else {
        Ok(())
    }
}

/// Admits the withdrawal of the proceeds once the sale has ended.
pub fn ido_over(pool: &PoolAccount, now: i64) -> (res: Result<(), ErrorCode>)
    ensures
        res == withdraw_proceeds_allowed(now, *pool),
{
    if !(pool.end_ido_ts < now) {
        Err(ErrorCode::SaleNotEnded)
    } else {
        Ok(())
    }
}

/// Admits a claim of the sale asset once the sale has started and ended.
pub fn claim_phase(pool: &PoolAccount, now: i64) -> (res: Result<(), ErrorCode>)
    ensures
        res == claim_allowed(now, *pool),
{
    if !(pool.start_ido_ts < now) {
        Err(ErrorCode::NotStarted)
    } else {
        ido_over(pool, now)
    }
}

/// Admits the creation of a pool whose start lies ahead of the clock.
pub fn future_start_time(now: i64, start_ido_ts: i64) -> (res: Result<(), ErrorCode>)
    ensures
        res == start_in_future(now, start_ido_ts),
{
    if !(now < start_ido_ts) {
        Err(ErrorCode::StartNotFuture)
    } else {
        Ok(())
    }
}

/// Temporal ordering. On a well-formed pool each guard passes in exactly one
/// window of time: deposits strictly between the start and the end of
/// deposits, the return of claim tokens strictly between the start and the
/// end of the sale, and both the claim of the sale asset and the withdrawal of
/// the proceeds strictly after the end of the sale. So whenever a deposit is
/// admitted an exit is too, and no time admits both a deposit or an exit and a
/// claim or a withdrawal.
pub proof fn temporal_ordering(pool: PoolAccount, t: i64)
    requires
        pool.well_formed(),
    ensures
        deposit_allowed(t, pool) is Ok <==> pool.start_ido_ts < t < pool.end_deposits_ts,
        claim_allowed(t, pool) is Ok <==> t > pool.end_ido_ts,
        redeem_stable_allowed(t, pool) is Ok <==> pool.start_ido_ts < t < pool.end_ido_ts,
        withdraw_proceeds_allowed(t, pool) is Ok <==> t > pool.end_ido_ts,
        deposit_allowed(t, pool) is Ok ==> redeem_stable_allowed(t, pool) is Ok,
        !(redeem_stable_allowed(t, pool) is Ok && claim_allowed(t, pool) is Ok),
{
}

} // verus!
