//! Exit: while the sale runs, claim tokens are handed back for the stable
//! asset one for one.

use crate::address::{check_signer, create_program_address, program_address, signer_admitted, Address};
use crate::custody::{Burn, TokenAccount, Transfer};
use crate::errors::ErrorCode;
use crate::phase::{redeem_stable_allowed, withdraw_only_phase, Clock};
use crate::states::pool::PoolAccount;
use vstd::prelude::*;

verus! {

/// What a return of claim tokens for the stable asset is decided on.
#[derive(Clone, Copy, Debug, PartialEq, Eq)]
pub struct ExchangeRedeemableForUsdc {
    /// The program for which the pool signer is derived.
    pub program_id: Address,
    pub pool_account: PoolAccount,
    /// The identity presented as the pool's signer.
    pub pool_signer: Address,
    /// The participant, who signs for the claim tokens burnt.
    pub user_authority: Address,
    /// The participant's account of the stable asset.
    pub user_usdc: TokenAccount,
    /// The participant's account of the claim token.
    pub user_redeemable: TokenAccount,
    pub clock: Clock,
}

/// The custody calls of an exit, or why it is refused: the signer must derive,
/// the sale must be running, and the participant must hold the amount. The
/// participant's claim tokens are then burnt, and the pool signer pays back
/// the same amount of the stable asset.
pub open spec fn redemption_plan(
    ctx: ExchangeRedeemableForUsdc,
    amount: u64,
    derived: Option<Seq<u8>>,
) -> Result<(Burn, Transfer), ErrorCode> {
    match (
        signer_admitted(derived, ctx.pool_signer),
        redeem_stable_allowed(ctx.clock.unix_timestamp, ctx.pool_account),
    ) {
        (Err(e), _) => Err(e),
        (Ok(()), Err(e)) => Err(e),
        (Ok(()), Ok(())) => if ctx.user_redeemable.amount < amount {
            Err(ErrorCode::InsufficientParticipantBalance)
        } else {
            Ok(
                (
                    Burn {
                        mint: ctx.pool_account.redeemable_mint,
                        from: ctx.user_redeemable.key,
                        authority: ctx.user_authority,
                        amount,
                    },
                    Transfer {
                        from: ctx.pool_account.pool_usdc,
                        to: ctx.user_usdc.key,
                        authority: ctx.pool_signer,
                        amount,
                    },
                ),
            )
        },
    }
}

/// Decides an exit, given the outcome of the signer derivation.
pub fn redeem_stable_asset(ctx: &ExchangeRedeemableForUsdc, amount: u64, derived: Option<Address>) -> (res: Result<
    (Burn, Transfer),
    ErrorCode,
>)
    ensures
        res == redemption_plan(*ctx, amount, derived.deep_view()),
{
    check_signer(derived, &ctx.pool_signer)?;
    withdraw_only_phase(&ctx.pool_account, ctx.clock.unix_timestamp)?;
    if ctx.user_redeemable.amount < amount {
        return Err(ErrorCode::InsufficientParticipantBalance);
    }
    let retire = Burn {
        mint: ctx.pool_account.redeemable_mint,
        from: ctx.user_redeemable.key,
        authority: ctx.user_authority,
        amount,
    };
    let pay_back = Transfer {
        from: ctx.pool_account.pool_usdc,
        to: ctx.user_usdc.key,
        authority: ctx.pool_signer,
        amount,
    };
    Ok((retire, pay_back))
}

/// Derives the pool signer from the sale asset's mint and the stored nonce,
/// and decides the exit against it.
pub fn exchange_redeemable_for_usdc(ctx: &ExchangeRedeemableForUsdc, amount: u64) -> (res: Result<
    (Burn, Transfer),
    ErrorCode,
>)
    ensures
        res == redemption_plan(
            *ctx,
            amount,
            program_address(ctx.pool_account.watermelon_mint@, ctx.pool_account.nonce, ctx.program_id@),
        ),
{
    let derived = create_program_address(
        &ctx.pool_account.watermelon_mint,
        ctx.pool_account.nonce,
        &ctx.program_id,
    );
    redeem_stable_asset(ctx, amount, derived)
}

/// With the derived signer presented and the amount held, an exit is admitted
/// at exactly the times strictly between the start and the end of the sale.
pub proof fn exit_window(ctx: ExchangeRedeemableForUsdc, amount: u64, derived: Option<Seq<u8>>)
    requires
        signer_admitted(derived, ctx.pool_signer) is Ok,
        amount <= ctx.user_redeemable.amount,
    ensures
        redemption_plan(ctx, amount, derived) is Ok <==> ctx.pool_account.start_ido_ts < ctx.clock.unix_timestamp
            < ctx.pool_account.end_ido_ts,
{
}

} // verus!
