//! Claim: after the sale, claim tokens are burnt for a pro-rata share of the
//! sale asset that the pool still holds.

use crate::address::{check_signer, create_program_address, program_address, signer_admitted, Address};
use crate::custody::{Burn, TokenAccount, Transfer};
use crate::errors::ErrorCode;
use crate::phase::{claim_allowed, claim_phase, Clock};
use crate::states::pool::PoolAccount;
use vstd::prelude::*;

verus! {

/// What a claim of the sale asset is decided on.
#[derive(Clone, Copy, Debug, PartialEq, Eq)]
pub struct ExchangeRedeemableForWatermelon {
    /// The program for which the pool signer is derived.
    pub program_id: Address,
    pub pool_account: PoolAccount,
    /// The identity presented as the pool's signer.
    pub pool_signer: Address,
    /// The total supply of the claim token.
    pub redeemable_supply: u64,
    /// The balance of the pool's account of the sale asset.
    pub pool_watermelon_amount: u64,
    /// The participant, who signs for the claim tokens burnt.
    pub user_authority: Address,
    /// The participant's account of the sale asset.
    pub user_watermelon: TokenAccount,
    /// The participant's account of the claim token.
    pub user_redeemable: TokenAccount,
    pub clock: Clock,
}

/// The share of the pool's sale asset that `amount` claim tokens stand for,
/// rounded down.
pub open spec fn sale_asset_due(amount: u64, pool_amount: u64, supply: u64) -> int
    recommends
        supply > 0,
{
    (amount * pool_amount) / (supply as int)
}

/// Rounding down never hands out more than the pool holds, as long as no more
/// claim tokens are redeemed than exist; and the whole supply redeems the
/// whole pool.
pub proof fn claim_within_pool(amount: u64, pool_amount: u64, supply: u64)
    requires
        0 < supply,
        amount <= supply,
    ensures
        0 <= sale_asset_due(amount, pool_amount, supply) <= pool_amount,
        amount == supply ==> sale_asset_due(amount, pool_amount, supply) == pool_amount,
{
    let a = amount as int;
    let p = pool_amount as int;
    let s = supply as int;
    assert(0 <= (a * p) / s <= p) by (nonlinear_arith)
        requires
            0 < s,
            0 <= a <= s,
            0 <= p,
    ;
    assert(a == s ==> (a * p) / s == p) by (nonlinear_arith)
        requires
            0 < s,
            0 <= p,
    ;
}

/// Computes the share in twice the width of the operands, so that the product
/// is exact; `None` against a supply of zero.
pub fn watermelon_due(amount: u64, pool_amount: u64, supply: u64) -> (res: Option<u128>)
    ensures
        supply == 0 ==> res is None,
        supply > 0 ==> res == Some(sale_asset_due(amount, pool_amount, supply) as u128),
        supply > 0 ==> sale_asset_due(amount, pool_amount, supply) <= u128::MAX,
{
    let wide_amount = amount as u128;
    let wide_pool = pool_amount as u128;
    assert(wide_amount * wide_pool <= 0xFFFF_FFFF_FFFF_FFFF * 0xFFFF_FFFF_FFFF_FFFF) by (nonlinear_arith)
        requires
            wide_amount <= 0xFFFF_FFFF_FFFF_FFFF,
            wide_pool <= 0xFFFF_FFFF_FFFF_FFFF,
    ;
    match wide_amount.checked_mul(wide_pool) {
        Some(product) => product.checked_div(supply as u128),
        None => None,
    }
}

/// The custody calls of a claim, or why it is refused: the signer must derive,
/// the sale must have ended, the participant must hold the amount, and claim
/// tokens must exist, at least as many as are redeemed. The participant's
/// claim tokens are then burnt, and the pool signer pays out the share.
pub open spec fn claim_plan(
    ctx: ExchangeRedeemableForWatermelon,
    amount: u64,
    derived: Option<Seq<u8>>,
) -> Result<(Burn, Transfer), ErrorCode> {
    match (
        signer_admitted(derived, ctx.pool_signer),
        claim_allowed(ctx.clock.unix_timestamp, ctx.pool_account),
    ) {
        (Err(e), _) => Err(e),
        (Ok(()), Err(e)) => Err(e),
        (Ok(()), Ok(())) => if ctx.user_redeemable.amount < amount {
            Err(ErrorCode::InsufficientParticipantBalance)
        } else if ctx.redeemable_supply == 0 {
            Err(ErrorCode::NoSupply)
        } else if ctx.redeemable_supply < amount {
            Err(ErrorCode::CustodyInsufficientBalance)
        } else {
            Ok(
                (
                    Burn {
                        mint: ctx.pool_account.redeemable_mint,
                        from: ctx.user_redeemable.key,
                        authority: ctx.user_authority,
                        amount,
                    },
                    Transfer {
                        from: ctx.pool_account.pool_watermelon,
                        to: ctx.user_watermelon.key,
                        authority: ctx.pool_signer,
                        amount: sale_asset_due(amount, ctx.pool_watermelon_amount, ctx.redeemable_supply) as u64,
                    },
                ),
            )
        },
    }
}

/// Decides a claim of the sale asset, given the outcome of the signer
/// derivation.
pub fn claim_sale_asset(ctx: &ExchangeRedeemableForWatermelon, amount: u64, derived: Option<Address>) -> (res:
    Result<(Burn, Transfer), ErrorCode>)
    ensures
        res == claim_plan(*ctx, amount, derived.deep_view()),
        res matches Ok((_, pay_out)) ==> pay_out.amount <= ctx.pool_watermelon_amount,
{
    check_signer(derived, &ctx.pool_signer)?;
    claim_phase(&ctx.pool_account, ctx.clock.unix_timestamp)?;
    if ctx.user_redeemable.amount < amount {
        return Err(ErrorCode::InsufficientParticipantBalance);
    }
    let due = match watermelon_due(amount, ctx.pool_watermelon_amount, ctx.redeemable_supply) {
        Some(due) => due,
        None => {
            return Err(ErrorCode::NoSupply);
        },
    };
    if ctx.redeemable_supply < amount {
        return Err(ErrorCode::CustodyInsufficientBalance);
    }
    proof {
        claim_within_pool(amount, ctx.pool_watermelon_amount, ctx.redeemable_supply);
    }
    let retire = Burn {
        mint: ctx.pool_account.redeemable_mint,
        from: ctx.user_redeemable.key,
        authority: ctx.user_authority,
        amount,
    };
    let pay_out = Transfer {
        from: ctx.pool_account.pool_watermelon,
        to: ctx.user_watermelon.key,
        authority: ctx.pool_signer,
        amount: due as u64,
    };
    Ok((retire, pay_out))
}

/// Derives the pool signer from the sale asset's mint and the stored nonce,
/// and decides the claim against it.
pub fn exchange_redeemable_for_watermelon(ctx: &ExchangeRedeemableForWatermelon, amount: u64) -> (res: Result<
    (Burn, Transfer),
    ErrorCode,
>)
    ensures
        res == claim_plan(
            *ctx,
            amount,
            program_address(ctx.pool_account.watermelon_mint@, ctx.pool_account.nonce, ctx.program_id@),
        ),
{
    let derived = create_program_address(
        &ctx.pool_account.watermelon_mint,
        ctx.pool_account.nonce,
        &ctx.program_id,
    );
    claim_sale_asset(ctx, amount, derived)
}

/// With the derived signer presented, the amount held and no more redeemed
/// than exists, a claim on a well-formed pool is admitted at exactly the times
/// strictly after the end of the sale.
pub proof fn claim_window(ctx: ExchangeRedeemableForWatermelon, amount: u64, derived: Option<Seq<u8>>)
    requires
        ctx.pool_account.well_formed(),
        signer_admitted(derived, ctx.pool_signer) is Ok,
        amount <= ctx.user_redeemable.amount,
        0 < ctx.redeemable_supply,
        amount <= ctx.redeemable_supply,
    ensures
        claim_plan(ctx, amount, derived) is Ok <==> ctx.clock.unix_timestamp > ctx.pool_account.end_ido_ts,
{
}

} // verus!
