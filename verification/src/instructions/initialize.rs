//! Creation: the pool's state is written and the sale asset is paid in.

use crate::address::{check_signer, create_program_address, program_address, signer_admitted, Address};
use crate::custody::{surface, surfaced, CustodyError, Mint, TokenAccount, Transfer};
use crate::errors::ErrorCode;
use crate::phase::{future_start_time, start_in_future, Clock};
use crate::states::pool::PoolAccount;
use vstd::prelude::*;

verus! {

/// What the creation of a pool is decided on.
#[derive(Clone, Copy, Debug, PartialEq, Eq)]
pub struct InitializePool {
    /// The program for which the pool signer is derived.
    pub program_id: Address,
    /// The identity presented as the pool's signer.
    pub pool_signer: Address,
    /// The nonce presented with the signer.
    pub nonce: u8,
    /// The mint of the claim token.
    pub redeemable_mint: Mint,
    /// The account that will hold the pool's sale asset.
    pub pool_watermelon: TokenAccount,
    /// The account that will hold the pool's stable asset.
    pub pool_usdc: TokenAccount,
    /// The creator, who signs for the sale asset paid in.
    pub distribution_authority: Address,
    /// The creator's account of the sale asset.
    pub creator_watermelon: TokenAccount,
    pub clock: Clock,
}

impl InitializePool {
    /// Derives the pool signer from the mint of the sale asset and the
    /// presented nonce, and accepts the presented signer only if it is that.
    pub fn accounts(ctx: &InitializePool) -> (res: Result<(), ErrorCode>)
        ensures
            res == signer_admitted(
                program_address(ctx.pool_watermelon.mint@, ctx.nonce, ctx.program_id@),
                ctx.pool_signer,
            ),
    {
        let expected_signer = create_program_address(&ctx.pool_watermelon.mint, ctx.nonce, &ctx.program_id);
        check_signer(expected_signer, &ctx.pool_signer)
    }
}

/// The state that a pool is created with.
pub open spec fn new_pool(
    ctx: InitializePool,
    num_ido_tokens: u64,
    start_ido_ts: i64,
    end_deposits_ts: i64,
    end_ido_ts: i64,
) -> PoolAccount {
    PoolAccount {
        redeemable_mint: ctx.redeemable_mint.key,
        pool_watermelon: ctx.pool_watermelon.key,
        watermelon_mint: ctx.pool_watermelon.mint,
        pool_usdc: ctx.pool_usdc.key,
        distribution_authority: ctx.distribution_authority,
        nonce: ctx.nonce,
        num_ido_tokens,
        start_ido_ts,
        end_deposits_ts,
        end_ido_ts,
    }
}

/// The state and the funding call of a new pool, or why it is refused. The
/// reasons are looked for in this order: the signer must derive, no claim
/// token may be in circulation, the start must lie ahead, and the three
/// timestamps must strictly increase. The creator then pays `num_ido_tokens`
/// of the sale asset into the pool.
pub open spec fn creation_plan(
    ctx: InitializePool,
    num_ido_tokens: u64,
    start_ido_ts: i64,
    end_deposits_ts: i64,
    end_ido_ts: i64,
    derived: Option<Seq<u8>>,
) -> Result<(PoolAccount, Transfer), ErrorCode> {
    match signer_admitted(derived, ctx.pool_signer) {
        Err(e) => Err(e),
        Ok(()) => if ctx.redeemable_mint.supply != 0 {
            Err(ErrorCode::PreIssuedSupply)
        } else {
            match start_in_future(ctx.clock.unix_timestamp, start_ido_ts) {
                Err(e) => Err(e),
                Ok(()) => if !(start_ido_ts < end_deposits_ts < end_ido_ts) {
                    Err(ErrorCode::InvalidTimeSequence)
                } else {
                    Ok(
                        (
                            new_pool(ctx, num_ido_tokens, start_ido_ts, end_deposits_ts, end_ido_ts),
                            Transfer {
                                from: ctx.creator_watermelon.key,
                                to: ctx.pool_watermelon.key,
                                authority: ctx.distribution_authority,
                                amount: num_ido_tokens,
                            },
                        ),
                    )
                },
            }
        },
    }
}

/// Decides the creation of a pool, given the outcome of the signer derivation.
/// A signer that does not derive is refused as such, whatever else is wrong.
pub fn create_pool(
    ctx: &InitializePool,
    num_ido_tokens: u64,
    start_ido_ts: i64,
    end_deposits_ts: i64,
    end_ido_ts: i64,
    derived: Option<Address>,
) -> (res: Result<(PoolAccount, Transfer), ErrorCode>)
    ensures
        res == creation_plan(
            *ctx,
            num_ido_tokens,
            start_ido_ts,
            end_deposits_ts,
            end_ido_ts,
            derived.deep_view(),
        ),
        signer_admitted(derived.deep_view(), ctx.pool_signer) is Err ==> res == Err::<
            (PoolAccount, Transfer),
            ErrorCode,
        >(ErrorCode::InvalidSignerDerivation),
        res matches Ok((pool, _)) ==> pool.well_formed(),
{
    check_signer(derived, &ctx.pool_signer)?;
    if ctx.redeemable_mint.supply != 0 {
        return Err(ErrorCode::PreIssuedSupply);
    }
    future_start_time(ctx.clock.unix_timestamp, start_ido_ts)?;
    if !(start_ido_ts < end_deposits_ts && end_deposits_ts < end_ido_ts) {
        return Err(ErrorCode::InvalidTimeSequence);
    }
    let pool_account = PoolAccount {
        redeemable_mint: ctx.redeemable_mint.key,
        pool_watermelon: ctx.pool_watermelon.key,
        watermelon_mint: ctx.pool_watermelon.mint,
        pool_usdc: ctx.pool_usdc.key,
        distribution_authority: ctx.distribution_authority,
        nonce: ctx.nonce,
        num_ido_tokens,
        start_ido_ts,
        end_deposits_ts,
        end_ido_ts,
    };
    let funding = Transfer {
        from: ctx.creator_watermelon.key,
        to: ctx.pool_watermelon.key,
        authority: ctx.distribution_authority,
        amount: num_ido_tokens,
    };
    Ok((pool_account, funding))
}

/// Derives the pool signer from the mint of the sale asset and the presented
/// nonce, and decides the creation against it. A presented signer that is not
/// the derived one is refused as such, whatever else is wrong.
pub fn initialize_pool(
    ctx: &InitializePool,
    num_ido_tokens: u64,
    start_ido_ts: i64,
    end_deposits_ts: i64,
    end_ido_ts: i64,
) -> (res: Result<(PoolAccount, Transfer), ErrorCode>)
    ensures
        res == creation_plan(
            *ctx,
            num_ido_tokens,
            start_ido_ts,
            end_deposits_ts,
            end_ido_ts,
            program_address(ctx.pool_watermelon.mint@, ctx.nonce, ctx.program_id@),
        ),
        program_address(ctx.pool_watermelon.mint@, ctx.nonce, ctx.program_id@) != Some(ctx.pool_signer@)
            ==> res == Err::<(PoolAccount, Transfer), ErrorCode>(ErrorCode::InvalidSignerDerivation),
        res matches Ok((pool, _)) ==> pool.well_formed(),
{
    let derived = create_program_address(&ctx.pool_watermelon.mint, ctx.nonce, &ctx.program_id);
    create_pool(ctx, num_ido_tokens, start_ido_ts, end_deposits_ts, end_ido_ts, derived)
}

/// What is left of a creation once custody has answered the funding call: the
/// pool's state if the sale asset was paid in, and no state at all if it was
/// not.
pub open spec fn creation_outcome(pool: PoolAccount, funding: Result<(), CustodyError>) -> Result<
    PoolAccount,
    ErrorCode,
> {
    match funding {
        Ok(()) => Ok(pool),
        Err(e) => Err(surfaced(e)),
    }
}

/// Lets the state of a new pool stand only if its funding went through.
pub fn conclude_creation(pool: PoolAccount, funding: Result<(), CustodyError>) -> (res: Result<
    PoolAccount,
    ErrorCode,
>)
    ensures
        res == creation_outcome(pool, funding),
        funding is Err ==> res is Err,
{
    surface(funding)?;
    Ok(pool)
}

} // verus!
