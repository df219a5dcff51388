//! Proceeds: after the sale, the creator collects the stable asset paid in.

use crate::address::{check_signer, create_program_address, program_address, signer_admitted, Address};
use crate::custody::{TokenAccount, Transfer};
use crate::errors::ErrorCode;
use crate::phase::{ido_over, withdraw_proceeds_allowed, Clock};
use crate::states::pool::PoolAccount;
use vstd::prelude::*;

verus! {

/// What a withdrawal of the proceeds is decided on.
#[derive(Clone, Copy, Debug, PartialEq, Eq)]
pub struct WithdrawPoolUsdc {
    /// The program for which the pool signer is derived.
    pub program_id: Address,
    pub pool_account: PoolAccount,
    /// The identity presented as the pool's signer.
    pub pool_signer: Address,
    /// The balance of the pool's account of the stable asset.
    pub pool_usdc_amount: u64,
    /// The caller.
    pub distribution_authority: Address,
    /// The account of the stable asset that receives the proceeds.
    pub creator_usdc: TokenAccount,
    pub clock: Clock,
}

/// The custody call of a withdrawal, or why it is refused: the caller must be
/// the pool's creator, the signer must derive, and the sale must have ended.
/// The pool signer then pays out all that the pool holds of the stable asset;
/// against an empty pool that is a transfer of zero.
pub open spec fn proceeds_plan(ctx: WithdrawPoolUsdc, derived: Option<Seq<u8>>) -> Result<Transfer, ErrorCode> {
    if ctx.distribution_authority@ != ctx.pool_account.distribution_authority@ {
        Err(ErrorCode::AuthorityMismatch)
    } else {
        match (
            signer_admitted(derived, ctx.pool_signer),
            withdraw_proceeds_allowed(ctx.clock.unix_timestamp, ctx.pool_account),
        ) {
            (Err(e), _) => Err(e),
            (Ok(()), Err(e)) => Err(e),
            (Ok(()), Ok(())) => Ok(
                Transfer {
                    from: ctx.pool_account.pool_usdc,
                    to: ctx.creator_usdc.key,
                    authority: ctx.pool_signer,
                    amount: ctx.pool_usdc_amount,
                },
            ),
        }
    }
}

/// Decides a withdrawal of the proceeds, given the outcome of the signer
/// derivation.
pub fn withdraw_proceeds(ctx: &WithdrawPoolUsdc, derived: Option<Address>) -> (res: Result<Transfer, ErrorCode>)
    ensures
        res == proceeds_plan(*ctx, derived.deep_view()),
{
    if !ctx.distribution_authority.same(&ctx.pool_account.distribution_authority) {
        return Err(ErrorCode::AuthorityMismatch);
    }
    check_signer(derived, &ctx.pool_signer)?;
    ido_over(&ctx.pool_account, ctx.clock.unix_timestamp)?;
    Ok(
        Transfer {
            from: ctx.pool_account.pool_usdc,
            to: ctx.creator_usdc.key,
            authority: ctx.pool_signer,
            amount: ctx.pool_usdc_amount,
        },
    )
}

/// Derives the pool signer from the sale asset's mint and the stored nonce,
/// and decides the withdrawal against it.
pub fn withdraw_pool_usdc(ctx: &WithdrawPoolUsdc) -> (res: Result<Transfer, ErrorCode>)
    ensures
        res == proceeds_plan(
            *ctx,
            program_address(ctx.pool_account.watermelon_mint@, ctx.pool_account.nonce, ctx.program_id@),
        ),
{
    let derived = create_program_address(
        &ctx.pool_account.watermelon_mint,
        ctx.pool_account.nonce,
        &ctx.program_id,
    );
    withdraw_proceeds(ctx, derived)
}

/// Called by the creator with the derived signer presented, a withdrawal of
/// the proceeds is admitted at exactly the times strictly after the end of the
/// sale.
pub proof fn proceeds_window(ctx: WithdrawPoolUsdc, derived: Option<Seq<u8>>)
    requires
        signer_admitted(derived, ctx.pool_signer) is Ok,
        ctx.distribution_authority@ == ctx.pool_account.distribution_authority@,
    ensures
        proceeds_plan(ctx, derived) is Ok <==> ctx.clock.unix_timestamp > ctx.pool_account.end_ido_ts,
{
}

} // verus!
