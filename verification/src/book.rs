//! The books of a sale: what the pool's custody calls do to the balances, one
//! request after the other, and what holds of the balances whatever is asked.
//!
//! A book keeps one balance for each role that a sale knows: the pool's two
//! accounts, the creator's two accounts, and for every participant an account
//! of the stable asset, of the claim token and of the sale asset. It describes
//! custody as long as those roles are played by different accounts. Each
//! request is decided on the balances in the book, and the calls it is
//! answered with are executed as a whole or not at all: custody refuses a
//! debit beyond the balance and a credit beyond what an account can hold.

use crate::address::program_address;
use crate::custody::{Mint, TokenAccount};
use crate::instructions::claim::{claim_plan, claim_within_pool, ExchangeRedeemableForWatermelon};
use crate::instructions::deposit::{deposit_plan, ExchangeUsdcForRedeemable};
use crate::instructions::initialize::{creation_plan, InitializePool};
use crate::instructions::withdraw::{redemption_plan, ExchangeRedeemableForUsdc};
use crate::instructions::withdraw_pool::{proceeds_plan, WithdrawPoolUsdc};
use crate::states::pool::PoolAccount;
use vstd::prelude::*;

verus! {

/// The three balances of one participant.
pub struct Holder {
    pub stable: u64,
    pub claim: u64,
    pub sale: u64,
}

/// The balances around one sale, its state once it exists, and what has
/// passed through it so far.
pub struct Book {
    /// The state of the pool; `None` until a creation has gone through.
    pub pool: Option<PoolAccount>,
    pub holders: Seq<Holder>,
    /// The pool's balance of the stable asset.
    pub pool_stable: u64,
    /// The pool's balance of the sale asset.
    pub pool_sale: u64,
    /// The creator's balance of the stable asset.
    pub creator_stable: u64,
    /// The creator's balance of the sale asset.
    pub creator_sale: u64,
    /// The stable asset deposited so far.
    pub deposited: nat,
    /// The stable asset paid back so far for claim tokens handed in.
    pub redeemed: nat,
    /// The claim tokens burnt so far in claims of the sale asset.
    pub claimed: nat,
    /// The sale asset paid out so far.
    pub paid_out: nat,
}

/// One call of an instruction. The context names the accounts, the signer and
/// the time; the balances and the pool's state in it are those of the book.
#[allow(inconsistent_fields)]
pub enum Request {
    Create {
        ctx: InitializePool,
        num_ido_tokens: u64,
        start_ido_ts: i64,
        end_deposits_ts: i64,
        end_ido_ts: i64,
    },
    Deposit { who: int, ctx: ExchangeUsdcForRedeemable, amount: u64 },
    Redeem { who: int, ctx: ExchangeRedeemableForUsdc, amount: u64 },
    Claim { who: int, ctx: ExchangeRedeemableForWatermelon, amount: u64 },
    Withdraw { ctx: WithdrawPoolUsdc },
}

/// The claim tokens that all participants hold together.
pub open spec fn total_claim(holders: Seq<Holder>) -> nat
    decreases holders.len(),
{
    if holders.len() == 0 {
        0
    } else {
        total_claim(holders.drop_last()) + holders.last().claim as nat
    }
}

/// A balance after a credit, unless it would exceed what an account can hold.
pub open spec fn credited(balance: u64, amount: u64) -> Option<u64> {
    if balance + amount <= u64::MAX {
        Some((balance + amount) as u64)
    } else {
        None
    }
}

/// A balance after a debit, unless the account holds less.
pub open spec fn debited(balance: u64, amount: u64) -> Option<u64> {
    if amount <= balance {
        Some((balance - amount) as u64)
    } else {
        None
    }
}

impl Book {
    /// The supply of the claim token fits the width of a balance.
    pub open spec fn valid(self) -> bool {
        total_claim(self.holders) <= u64::MAX
    }

    /// No pool exists yet and nothing has passed.
    pub open spec fn unopened(self) -> bool {
        &&& self.pool is None
        &&& self.deposited == 0
        &&& self.redeemed == 0
        &&& self.claimed == 0
        &&& self.paid_out == 0
    }

    /// The context of a creation with the balances of the book read into it.
    pub open spec fn creation_seen(self, ctx: InitializePool) -> InitializePool {
        InitializePool {
            redeemable_mint: Mint { supply: total_claim(self.holders) as u64, ..ctx.redeemable_mint },
            pool_watermelon: TokenAccount { amount: self.pool_sale, ..ctx.pool_watermelon },
            pool_usdc: TokenAccount { amount: self.pool_stable, ..ctx.pool_usdc },
            creator_watermelon: TokenAccount { amount: self.creator_sale, ..ctx.creator_watermelon },
            ..ctx
        }
    }

    /// The context of a deposit by participant `who` with the pool's state and
    /// the balances of the book read into it.
    pub open spec fn deposit_seen(self, who: int, ctx: ExchangeUsdcForRedeemable) -> ExchangeUsdcForRedeemable {
        ExchangeUsdcForRedeemable {
            pool_account: self.pool->0,
            user_usdc: TokenAccount { amount: self.holders[who].stable, ..ctx.user_usdc },
            user_redeemable: TokenAccount { amount: self.holders[who].claim, ..ctx.user_redeemable },
            ..ctx
        }
    }

    /// The context of an exit by participant `who` with the pool's state and
    /// the balances of the book read into it.
    pub open spec fn exit_seen(self, who: int, ctx: ExchangeRedeemableForUsdc) -> ExchangeRedeemableForUsdc {
        ExchangeRedeemableForUsdc {
            pool_account: self.pool->0,
            user_usdc: TokenAccount { amount: self.holders[who].stable, ..ctx.user_usdc },
            user_redeemable: TokenAccount { amount: self.holders[who].claim, ..ctx.user_redeemable },
            ..ctx
        }
    }

    /// The context of a claim by participant `who` with the pool's state, the
    /// supply of the claim token and the balances of the book read into it.
    pub open spec fn claim_seen(
        self,
        who: int,
        ctx: ExchangeRedeemableForWatermelon,
    ) -> ExchangeRedeemableForWatermelon {
        ExchangeRedeemableForWatermelon {
            pool_account: self.pool->0,
            redeemable_supply: total_claim(self.holders) as u64,
            pool_watermelon_amount: self.pool_sale,
            user_watermelon: TokenAccount { amount: self.holders[who].sale, ..ctx.user_watermelon },
            user_redeemable: TokenAccount { amount: self.holders[who].claim, ..ctx.user_redeemable },
            ..ctx
        }
    }

    /// The context of a withdrawal with the pool's state and the balances of
    /// the book read into it.
    pub open spec fn withdrawal_seen(self, ctx: WithdrawPoolUsdc) -> WithdrawPoolUsdc {
        WithdrawPoolUsdc {
            pool_account: self.pool->0,
            pool_usdc_amount: self.pool_stable,
            creator_usdc: TokenAccount { amount: self.creator_stable, ..ctx.creator_usdc },
            ..ctx
        }
    }

    /// The book after a creation: if it is admitted and the creator holds the
    /// funding, the pool exists and holds it; otherwise nothing has changed.
    pub open spec fn after_create(
        self,
        ctx: InitializePool,
        num_ido_tokens: u64,
        start_ido_ts: i64,
        end_deposits_ts: i64,
        end_ido_ts: i64,
    ) -> Book {
        let seen = self.creation_seen(ctx);
        let plan = creation_plan(
            seen,
            num_ido_tokens,
            start_ido_ts,
            end_deposits_ts,
            end_ido_ts,
            program_address(seen.pool_watermelon.mint@, seen.nonce, seen.program_id@),
        );
        if self.pool is Some {
            self
        } else {
            match plan {
                Ok((pool, funding)) => match (
                    debited(self.creator_sale, funding.amount),
                    credited(self.pool_sale, funding.amount),
                ) {
                    (Some(creator_sale), Some(pool_sale)) => Book {
                        pool: Some(pool),
                        creator_sale,
                        pool_sale,
                        ..self
                    },
                    _ => self,
                },
                Err(_) => self,
            }
        }
    }

    /// The book after a deposit by participant `who`.
    pub open spec fn after_deposit(self, who: int, ctx: ExchangeUsdcForRedeemable, amount: u64) -> Book {
        if self.pool is Some && 0 <= who < self.holders.len() {
            let pool = self.pool->0;
            let holder = self.holders[who];
            let seen = self.deposit_seen(who, ctx);
            let plan = deposit_plan(
                seen,
                amount,
                program_address(pool.watermelon_mint@, pool.nonce, seen.program_id@),
            );
            match plan {
                Ok((pay_in, issue)) => match (
                    debited(holder.stable, pay_in.amount),
                    credited(self.pool_stable, pay_in.amount),
                    credited(holder.claim, issue.amount),
                ) {
                    (Some(stable), Some(pool_stable), Some(claim)) => if total_claim(self.holders)
                        + issue.amount <= u64::MAX {
                        Book {
                            holders: self.holders.update(who, Holder { stable, claim, ..holder }),
                            pool_stable,
                            deposited: (self.deposited + pay_in.amount) as nat,
                            ..self
                        }
                    } else {
                        self
                    },
                    _ => self,
                },
                Err(_) => self,
            }
        } else {
            self
        }
    }

    /// The book after participant `who` has handed claim tokens back for the
    /// stable asset.
    pub open spec fn after_redeem(self, who: int, ctx: ExchangeRedeemableForUsdc, amount: u64) -> Book {
        if self.pool is Some && 0 <= who < self.holders.len() {
            let pool = self.pool->0;
            let holder = self.holders[who];
            let seen = self.exit_seen(who, ctx);
            let plan = redemption_plan(
                seen,
                amount,
                program_address(pool.watermelon_mint@, pool.nonce, seen.program_id@),
            );
            match plan {
                Ok((retire, pay_back)) => match (
                    debited(holder.claim, retire.amount),
                    debited(self.pool_stable, pay_back.amount),
                    credited(holder.stable, pay_back.amount),
                ) {
                    (Some(claim), Some(pool_stable), Some(stable)) => Book {
                        holders: self.holders.update(who, Holder { stable, claim, ..holder }),
                        pool_stable,
                        redeemed: (self.redeemed + pay_back.amount) as nat,
                        ..self
                    },
                    _ => self,
                },
                Err(_) => self,
            }
        } else {
            self
        }
    }

    /// The book after participant `who` has claimed the sale asset.
    pub open spec fn after_claim(self, who: int, ctx: ExchangeRedeemableForWatermelon, amount: u64) -> Book {
        if self.pool is Some && 0 <= who < self.holders.len() {
            let pool = self.pool->0;
            let holder = self.holders[who];
            let seen = self.claim_seen(who, ctx);
            let plan = claim_plan(
                seen,
                amount,
                program_address(pool.watermelon_mint@, pool.nonce, seen.program_id@),
            );
            match plan {
                Ok((retire, pay_out)) => match (
                    debited(holder.claim, retire.amount),
                    debited(self.pool_sale, pay_out.amount),
                    credited(holder.sale, pay_out.amount),
                ) {
                    (Some(claim), Some(pool_sale), Some(sale)) => Book {
                        holders: self.holders.update(who, Holder { claim, sale, ..holder }),
                        pool_sale,
                        claimed: (self.claimed + retire.amount) as nat,
                        paid_out: (self.paid_out + pay_out.amount) as nat,
                        ..self
                    },
                    _ => self,
                },
                Err(_) => self,
            }
        } else {
            self
        }
    }

    /// The book after a withdrawal of the proceeds.
    pub open spec fn after_withdraw(self, ctx: WithdrawPoolUsdc) -> Book {
        if self.pool is Some {
            let pool = self.pool->0;
            let seen = self.withdrawal_seen(ctx);
            let plan = proceeds_plan(
                seen,
                program_address(pool.watermelon_mint@, pool.nonce, seen.program_id@),
            );
            match plan {
                Ok(proceeds) => match (
                    debited(self.pool_stable, proceeds.amount),
                    credited(self.creator_stable, proceeds.amount),
                ) {
                    (Some(pool_stable), Some(creator_stable)) => Book { pool_stable, creator_stable, ..self },
                    _ => self,
                },
                Err(_) => self,
            }
        } else {
            self
        }
    }

    /// The book after one request.
    pub open spec fn after(self, request: Request) -> Book {
        match request {
            Request::Create { ctx, num_ido_tokens, start_ido_ts, end_deposits_ts, end_ido_ts } => self.after_create(
                ctx,
                num_ido_tokens,
                start_ido_ts,
                end_deposits_ts,
                end_ido_ts,
            ),
            Request::Deposit { who, ctx, amount } => self.after_deposit(who, ctx, amount),
            Request::Redeem { who, ctx, amount } => self.after_redeem(who, ctx, amount),
            Request::Claim { who, ctx, amount } => self.after_claim(who, ctx, amount),
            Request::Withdraw { ctx } => self.after_withdraw(ctx),
        }
    }

    /// The book after a sequence of requests, first to last.
    pub open spec fn after_all(self, requests: Seq<Request>) -> Book
        decreases requests.len(),
    {
        if requests.len() == 0 {
            self
        } else {
            self.after_all(requests.drop_last()).after(requests.last())
        }
    }

    /// The sale asset paid out and the sale asset still in the pool are
    /// together what the pool was created with.
    pub open spec fn funded(self) -> bool {
        match self.pool {
            Some(pool) => self.paid_out + self.pool_sale == pool.num_ido_tokens,
            None => self.paid_out == 0 && self.pool_sale == 0,
        }
    }

    /// What every request keeps true of a book that started unopened.
    pub open spec fn balanced(self) -> bool {
        &&& self.valid()
        &&& self.pool is None ==> self.unopened()
        &&& self.pool matches Some(pool) ==> {
            &&& pool.well_formed()
            &&& total_claim(self.holders) + self.claimed + self.redeemed == self.deposited
        }
    }
}

/// Replacing one participant's balances changes the total of claim tokens by
/// what that participant's claim tokens change.
pub proof fn total_claim_update(holders: Seq<Holder>, who: int, holder: Holder)
    requires
        0 <= who < holders.len(),
    ensures
        total_claim(holders.update(who, holder)) == total_claim(holders) - holders[who].claim + holder.claim,
        holders[who].claim <= total_claim(holders),
    decreases holders.len(),
{
    let updated = holders.update(who, holder);
    if who == holders.len() - 1 {
        assert(updated.drop_last() =~= holders.drop_last());
    } else {
        total_claim_update(holders.drop_last(), who, holder);
        assert(updated.drop_last() =~= holders.drop_last().update(who, holder));
    }
}

/// One request keeps a balanced book balanced.
pub proof fn request_keeps_balance(book: Book, request: Request)
    requires
        book.balanced(),
    ensures
        book.after(request).balanced(),
{
    match request {
        Request::Create { ctx, num_ido_tokens, start_ido_ts, end_deposits_ts, end_ido_ts } => {},
        Request::Deposit { who, ctx, amount } => {
            let next = book.after_deposit(who, ctx, amount);
            if next != book {
                total_claim_update(book.holders, who, next.holders[who]);
            }
        },
        Request::Redeem { who, ctx, amount } => {
            let next = book.after_redeem(who, ctx, amount);
            if next != book {
                total_claim_update(book.holders, who, next.holders[who]);
            }
        },
        Request::Claim { who, ctx, amount } => {
            let next = book.after_claim(who, ctx, amount);
            if next != book {
                total_claim_update(book.holders, who, next.holders[who]);
            }
        },
        Request::Withdraw { ctx } => {},
    }
}

/// The state of a pool is written once: no request changes it afterwards.
pub proof fn pool_state_is_final(book: Book, request: Request)
    requires
        book.pool is Some,
    ensures
        book.after(request).pool == book.pool,
{
}

/// Conservation. Once a pool exists, the claim tokens that all participants
/// hold together are the stable asset deposited, less what was paid back for
/// claim tokens handed in and less the claim tokens burnt for the sale asset.
/// As long as no claim token has been burnt for the sale asset, they are
/// exactly the stable asset deposited less the stable asset paid back.
pub proof fn conservation(start: Book, requests: Seq<Request>)
    requires
        start.valid(),
        start.unopened(),
    ensures
        start.after_all(requests).balanced(),
        ({
            let book = start.after_all(requests);
            book.pool is Some && book.claimed == 0 ==> total_claim(book.holders) == book.deposited
                - book.redeemed
        }),
    decreases requests.len(),
{
    if requests.len() > 0 {
        conservation(start, requests.drop_last());
        request_keeps_balance(start.after_all(requests.drop_last()), requests.last());
    }
}

/// No over-claim. Where the pool's account of the sale asset was empty before
/// the pool was created, the sale asset paid out so far and the sale asset
/// left in the pool are together the amount the pool was created with; so
/// whatever is claimed, in whatever order, no more than that amount is ever
/// paid out.
pub proof fn no_over_claim(start: Book, requests: Seq<Request>)
    requires
        start.unopened(),
        start.pool_sale == 0,
    ensures
        start.after_all(requests).funded(),
        start.after_all(requests).pool matches Some(pool) ==> start.after_all(requests).paid_out
            <= pool.num_ido_tokens,
    decreases requests.len(),
{
    if requests.len() > 0 {
        no_over_claim(start, requests.drop_last());
    }
}

/// Atomic creation. A creation whose funding custody refuses, because the
/// creator holds less than the amount or the pool's account cannot take it,
/// leaves the book as it was: no pool exists afterwards that did not exist
/// before.
pub proof fn atomic_creation(
    book: Book,
    ctx: InitializePool,
    num_ido_tokens: u64,
    start_ido_ts: i64,
    end_deposits_ts: i64,
    end_ido_ts: i64,
)
    requires
        debited(book.creator_sale, num_ido_tokens) is None || credited(book.pool_sale, num_ido_tokens) is None,
    ensures
        book.after_create(ctx, num_ido_tokens, start_ido_ts, end_deposits_ts, end_ido_ts) == book,
{
}

/// A claim that is admitted on the balances of a balanced book is always
/// paid: the pool holds the share, however often shares were rounded down
/// before.
pub proof fn claim_is_covered(book: Book, who: int, ctx: ExchangeRedeemableForWatermelon, amount: u64)
    requires
        book.balanced(),
        book.pool is Some,
        0 <= who < book.holders.len(),
    ensures
        forall|derived: Option<Seq<u8>>|
            #[trigger] claim_plan(book.claim_seen(who, ctx), amount, derived) matches Ok((_, pay_out))
                ==> pay_out.amount <= book.pool_sale,
{
    let supply = total_claim(book.holders) as u64;
    if 0 < supply && amount <= supply {
        claim_within_pool(amount, book.pool_sale, supply);
    }
}

} // verus!
