//! Deposit: the stable asset is paid in, claim tokens are issued one for one.

use crate::address::{check_signer, create_program_address, program_address, signer_admitted, Address};
use crate::custody::{MintTo, TokenAccount, Transfer};
use crate::errors::ErrorCode;
use crate::phase::{deposit_allowed, unrestricted_phase, Clock};
use crate::states::pool::PoolAccount;
use vstd::prelude::*;

verus! {

/// What a deposit is decided on.
#[derive(Clone, Copy, Debug, PartialEq, Eq)]
pub struct ExchangeUsdcForRedeemable {
    /// The program for which the pool signer is derived.
    pub program_id: Address,
    pub pool_account: PoolAccount,
    /// The identity presented as the pool's signer.
    pub pool_signer: Address,
    /// The participant, who signs for the stable asset paid in.
    pub user_authority: Address,
    /// The participant's account of the stable asset.
    pub user_usdc: TokenAccount,
    /// The participant's account of the claim token.
    pub user_redeemable: TokenAccount,
    pub clock: Clock,
}

/// The custody calls of a deposit, or why it is refused: the signer must
/// derive, the clock must lie in the deposit window, and the participant must
/// hold the amount. The participant then pays `amount` of the stable asset
/// into the pool, and the pool signer issues `amount` claim tokens in return.
pub open spec fn deposit_plan(
    ctx: ExchangeUsdcForRedeemable,
    amount: u64,
    derived: Option<Seq<u8>>,
) -> Result<(Transfer, MintTo), ErrorCode> {
    match (
        signer_admitted(derived, ctx.pool_signer),
        deposit_allowed(ctx.clock.unix_timestamp, ctx.pool_account),
    ) {
        (Err(e), _) => Err(e),
        (Ok(()), Err(e)) => Err(e),
        (Ok(()), Ok(())) => if ctx.user_usdc.amount < amount {
            Err(ErrorCode::InsufficientParticipantBalance)
        } else {
            Ok(
                (
                    Transfer {
                        from: ctx.user_usdc.key,
                        to: ctx.pool_account.pool_usdc,
                        authority: ctx.user_authority,
                        amount,
                    },
                    MintTo {
                        mint: ctx.pool_account.redeemable_mint,
                        to: ctx.user_redeemable.key,
                        authority: ctx.pool_signer,
                        amount,
                    },
                ),
            )
        },
    }
}

/// Decides a deposit, given the outcome of the signer derivation.
pub fn deposit(ctx: &ExchangeUsdcForRedeemable, amount: u64, derived: Option<Address>) -> (res: Result<
    (Transfer, MintTo),
    ErrorCode,
>)
    ensures
        res == deposit_plan(*ctx, amount, derived.deep_view()),
{
    check_signer(derived, &ctx.pool_signer)?;
    unrestricted_phase(&ctx.pool_account, ctx.clock.unix_timestamp)?;
    if ctx.user_usdc.amount < amount {
        return Err(ErrorCode::InsufficientParticipantBalance);
    }
    let pay_in = Transfer {
        from: ctx.user_usdc.key,
        to: ctx.pool_account.pool_usdc,
        authority: ctx.user_authority,
        amount,
    };
    let issue = MintTo {
        mint: ctx.pool_account.redeemable_mint,
        to: ctx.user_redeemable.key,
        authority: ctx.pool_signer,
        amount,
    };
    Ok((pay_in, issue))
}

/// Derives the pool signer from the sale asset's mint and the stored nonce,
/// and decides the deposit against it.
pub fn exchange_usdc_for_redeemable(ctx: &ExchangeUsdcForRedeemable, amount: u64) -> (res: Result<
    (Transfer, MintTo),
    ErrorCode,
>)
    ensures
        res == deposit_plan(
            *ctx,
            amount,
            program_address(ctx.pool_account.watermelon_mint@, ctx.pool_account.nonce, ctx.program_id@),
        ),
{
    let derived = create_program_address(
        &ctx.pool_account.watermelon_mint,
        ctx.pool_account.nonce,
        &ctx.program_id,
    );
    deposit(ctx, amount, derived)
}

/// With the derived signer presented and the amount held, a deposit is
/// admitted at exactly the times strictly between the start of the sale and
/// the end of deposits.
pub proof fn deposit_window(ctx: ExchangeUsdcForRedeemable, amount: u64, derived: Option<Seq<u8>>)
    requires
        signer_admitted(derived, ctx.pool_signer) is Ok,
        amount <= ctx.user_usdc.amount,
    ensures
        deposit_plan(ctx, amount, derived) is Ok <==> ctx.pool_account.start_ido_ts < ctx.clock.unix_timestamp
            < ctx.pool_account.end_deposits_ts,
{
}

} // verus!
