use anchor_lang::prelude::Pubkey;
use ido_pool::address::Address;
use ido_pool::custody::{Burn, CustodyError, Mint, MintTo, TokenAccount, Transfer};
use ido_pool::errors::ErrorCode;
use ido_pool::instructions::{
    conclude_creation, exchange_redeemable_for_usdc, exchange_redeemable_for_watermelon,
    exchange_usdc_for_redeemable, initialize_pool, withdraw_pool_usdc, ExchangeRedeemableForUsdc,
    ExchangeRedeemableForWatermelon, ExchangeUsdcForRedeemable, InitializePool, WithdrawPoolUsdc,
};
use ido_pool::phase::Clock;
use ido_pool::states::PoolAccount;

fn key(tag: u8) -> Address {
    Address { bytes: [tag; 32] }
}

fn address(key: &Pubkey) -> Address {
    Address { bytes: key.to_bytes() }
}

fn at(time: i64) -> Clock {
    Clock { unix_timestamp: time }
}

fn account(tag: u8, mint: Address, amount: u64) -> TokenAccount {
    TokenAccount { key: key(tag), mint, amount }
}

const PROGRAM: u8 = 1;
const SALE_MINT: u8 = 2;
const STABLE_MINT: u8 = 3;
const CLAIM_MINT: u8 = 4;
const POOL_SALE: u8 = 5;
const POOL_STABLE: u8 = 6;
const CREATOR: u8 = 7;
const CREATOR_SALE: u8 = 8;
const CREATOR_STABLE: u8 = 9;
const ALICE: u8 = 10;
const ALICE_STABLE: u8 = 11;
const ALICE_CLAIM: u8 = 12;
const ALICE_SALE: u8 = 13;

/// The signer and the nonce that the program derives from the sale mint.
fn pool_signer() -> (Address, u8) {
    let program = Pubkey::new_from_array([PROGRAM; 32]);
    let (signer, nonce) = Pubkey::find_program_address(&[&[SALE_MINT; 32]], &program);
    (address(&signer), nonce)
}

fn creation(now: i64) -> InitializePool {
    let (signer, nonce) = pool_signer();
    InitializePool {
        program_id: key(PROGRAM),
        pool_signer: signer,
        nonce,
        redeemable_mint: Mint { key: key(CLAIM_MINT), supply: 0 },
        pool_watermelon: account(POOL_SALE, key(SALE_MINT), 0),
        pool_usdc: account(POOL_STABLE, key(STABLE_MINT), 0),
        distribution_authority: key(CREATOR),
        creator_watermelon: account(CREATOR_SALE, key(SALE_MINT), 5_000_000),
        clock: at(now),
    }
}

fn created_pool() -> PoolAccount {
    let (pool, _) = initialize_pool(&creation(50), 1_000_000, 100, 200, 300).unwrap();
    pool
}

#[test]
fn scenario_create_deposit_claim_withdraw() {
    let (signer, nonce) = pool_signer();

    // The pool is created at time 50.
    let (pool, funding) = initialize_pool(&creation(50), 1_000_000, 100, 200, 300).unwrap();
    assert_eq!(
        pool,
        PoolAccount {
            redeemable_mint: key(CLAIM_MINT),
            pool_watermelon: key(POOL_SALE),
            watermelon_mint: key(SALE_MINT),
            pool_usdc: key(POOL_STABLE),
            distribution_authority: key(CREATOR),
            nonce,
            num_ido_tokens: 1_000_000,
            start_ido_ts: 100,
            end_deposits_ts: 200,
            end_ido_ts: 300,
        }
    );
    assert_eq!(
        funding,
        Transfer { from: key(CREATOR_SALE), to: key(POOL_SALE), authority: key(CREATOR), amount: 1_000_000 }
    );
    assert_eq!(conclude_creation(pool, Ok(())), Ok(pool));
    let mut pool_sale: u64 = funding.amount;
    let mut pool_stable: u64 = 0;
    let mut alice_stable: u64 = 800;
    let mut alice_claim: u64 = 0;
    let mut alice_sale: u64 = 0;
    let mut creator_stable: u64 = 0;

    // Alice deposits 500 at time 150.
    let deposit = ExchangeUsdcForRedeemable {
        program_id: key(PROGRAM),
        pool_account: pool,
        pool_signer: signer,
        user_authority: key(ALICE),
        user_usdc: account(ALICE_STABLE, key(STABLE_MINT), alice_stable),
        user_redeemable: account(ALICE_CLAIM, key(CLAIM_MINT), alice_claim),
        clock: at(150),
    };
    let (pay_in, issue) = exchange_usdc_for_redeemable(&deposit, 500).unwrap();
    assert_eq!(
        pay_in,
        Transfer { from: key(ALICE_STABLE), to: key(POOL_STABLE), authority: key(ALICE), amount: 500 }
    );
    assert_eq!(issue, MintTo { mint: key(CLAIM_MINT), to: key(ALICE_CLAIM), authority: signer, amount: 500 });
    alice_stable -= pay_in.amount;
    pool_stable += pay_in.amount;
    alice_claim += issue.amount;
    assert_eq!(alice_claim, 500);
    assert_eq!(pool_stable, 500);

    // A deposit at time 250 comes too late.
    let late = ExchangeUsdcForRedeemable {
        user_usdc: account(ALICE_STABLE, key(STABLE_MINT), alice_stable),
        user_redeemable: account(ALICE_CLAIM, key(CLAIM_MINT), alice_claim),
        clock: at(250),
        ..deposit
    };
    assert_eq!(exchange_usdc_for_redeemable(&late, 100), Err(ErrorCode::DepositsClosed));

    // Alice claims with all 500 claim tokens at time 350.
    let claim = ExchangeRedeemableForWatermelon {
        program_id: key(PROGRAM),
        pool_account: pool,
        pool_signer: signer,
        redeemable_supply: alice_claim,
        pool_watermelon_amount: pool_sale,
        user_authority: key(ALICE),
        user_watermelon: account(ALICE_SALE, key(SALE_MINT), alice_sale),
        user_redeemable: account(ALICE_CLAIM, key(CLAIM_MINT), alice_claim),
        clock: at(350),
    };
    let (retire, pay_out) = exchange_redeemable_for_watermelon(&claim, 500).unwrap();
    assert_eq!(retire, Burn { mint: key(CLAIM_MINT), from: key(ALICE_CLAIM), authority: key(ALICE), amount: 500 });
    assert_eq!(
        pay_out,
        Transfer { from: key(POOL_SALE), to: key(ALICE_SALE), authority: signer, amount: 1_000_000 }
    );
    alice_claim -= retire.amount;
    pool_sale -= pay_out.amount;
    alice_sale += pay_out.amount;
    assert_eq!(alice_sale, 1_000_000);
    assert_eq!(alice_claim, 0);
    assert_eq!(pool_sale, 0);

    // The creator withdraws the proceeds at time 350.
    let withdrawal = WithdrawPoolUsdc {
        program_id: key(PROGRAM),
        pool_account: pool,
        pool_signer: signer,
        pool_usdc_amount: pool_stable,
        distribution_authority: key(CREATOR),
        creator_usdc: account(CREATOR_STABLE, key(STABLE_MINT), creator_stable),
        clock: at(350),
    };
    let proceeds = withdraw_pool_usdc(&withdrawal).unwrap();
    assert_eq!(
        proceeds,
        Transfer { from: key(POOL_STABLE), to: key(CREATOR_STABLE), authority: signer, amount: 500 }
    );
    pool_stable -= proceeds.amount;
    creator_stable += proceeds.amount;
    assert_eq!(creator_stable, 500);

    // A second withdrawal finds the pool empty and moves nothing.
    let again = WithdrawPoolUsdc {
        pool_usdc_amount: pool_stable,
        creator_usdc: account(CREATOR_STABLE, key(STABLE_MINT), creator_stable),
        ..withdrawal
    };
    assert_eq!(withdraw_pool_usdc(&again).unwrap().amount, 0);
}

#[test]
fn exit_returns_the_stable_asset_one_for_one() {
    let (signer, _) = pool_signer();
    let pool = created_pool();
    let exit = ExchangeRedeemableForUsdc {
        program_id: key(PROGRAM),
        pool_account: pool,
        pool_signer: signer,
        user_authority: key(ALICE),
        user_usdc: account(ALICE_STABLE, key(STABLE_MINT), 300),
        user_redeemable: account(ALICE_CLAIM, key(CLAIM_MINT), 500),
        clock: at(250),
    };
    let (retire, pay_back) = exchange_redeemable_for_usdc(&exit, 120).unwrap();
    assert_eq!(retire, Burn { mint: key(CLAIM_MINT), from: key(ALICE_CLAIM), authority: key(ALICE), amount: 120 });
    assert_eq!(
        pay_back,
        Transfer { from: key(POOL_STABLE), to: key(ALICE_STABLE), authority: signer, amount: 120 }
    );
    assert_eq!(exchange_redeemable_for_usdc(&exit, 501), Err(ErrorCode::InsufficientParticipantBalance));
    assert_eq!(exchange_redeemable_for_usdc(&exit, 500).unwrap().1.amount, 500);
}

#[test]
fn exit_is_open_from_start_to_end_of_sale() {
    let (signer, _) = pool_signer();
    let pool = created_pool();
    let exit = |now: i64| ExchangeRedeemableForUsdc {
        program_id: key(PROGRAM),
        pool_account: pool,
        pool_signer: signer,
        user_authority: key(ALICE),
        user_usdc: account(ALICE_STABLE, key(STABLE_MINT), 0),
        user_redeemable: account(ALICE_CLAIM, key(CLAIM_MINT), 10),
        clock: at(now),
    };
    assert_eq!(exchange_redeemable_for_usdc(&exit(99), 1), Err(ErrorCode::NotStarted));
    assert_eq!(exchange_redeemable_for_usdc(&exit(100), 1), Err(ErrorCode::NotStarted));
    assert!(exchange_redeemable_for_usdc(&exit(101), 1).is_ok());
    assert!(exchange_redeemable_for_usdc(&exit(200), 1).is_ok());
    assert!(exchange_redeemable_for_usdc(&exit(299), 1).is_ok());
    assert_eq!(exchange_redeemable_for_usdc(&exit(300), 1), Err(ErrorCode::SaleEnded));
    assert_eq!(exchange_redeemable_for_usdc(&exit(301), 1), Err(ErrorCode::SaleEnded));
}

#[test]
fn deposits_are_open_from_start_to_end_of_deposits() {
    let (signer, _) = pool_signer();
    let pool = created_pool();
    let deposit = |now: i64| ExchangeUsdcForRedeemable {
        program_id: key(PROGRAM),
        pool_account: pool,
        pool_signer: signer,
        user_authority: key(ALICE),
        user_usdc: account(ALICE_STABLE, key(STABLE_MINT), 10),
        user_redeemable: account(ALICE_CLAIM, key(CLAIM_MINT), 0),
        clock: at(now),
    };
    assert_eq!(exchange_usdc_for_redeemable(&deposit(100), 1), Err(ErrorCode::NotStarted));
    assert!(exchange_usdc_for_redeemable(&deposit(101), 1).is_ok());
    assert!(exchange_usdc_for_redeemable(&deposit(199), 1).is_ok());
    assert_eq!(exchange_usdc_for_redeemable(&deposit(200), 1), Err(ErrorCode::DepositsClosed));
    assert_eq!(exchange_usdc_for_redeemable(&deposit(300), 1), Err(ErrorCode::DepositsClosed));
    assert_eq!(exchange_usdc_for_redeemable(&deposit(150), 11), Err(ErrorCode::InsufficientParticipantBalance));
    assert!(exchange_usdc_for_redeemable(&deposit(150), 10).is_ok());
    assert_eq!(exchange_usdc_for_redeemable(&deposit(150), 0).unwrap().1.amount, 0);
}

#[test]
fn claims_and_proceeds_wait_for_the_end_of_the_sale() {
    let (signer, _) = pool_signer();
    let pool = created_pool();
    let claim = |now: i64| ExchangeRedeemableForWatermelon {
        program_id: key(PROGRAM),
        pool_account: pool,
        pool_signer: signer,
        redeemable_supply: 10,
        pool_watermelon_amount: 1_000_000,
        user_authority: key(ALICE),
        user_watermelon: account(ALICE_SALE, key(SALE_MINT), 0),
        user_redeemable: account(ALICE_CLAIM, key(CLAIM_MINT), 10),
        clock: at(now),
    };
    assert_eq!(exchange_redeemable_for_watermelon(&claim(100), 1), Err(ErrorCode::NotStarted));
    assert_eq!(exchange_redeemable_for_watermelon(&claim(150), 1), Err(ErrorCode::SaleNotEnded));
    assert_eq!(exchange_redeemable_for_watermelon(&claim(300), 1), Err(ErrorCode::SaleNotEnded));
    assert_eq!(exchange_redeemable_for_watermelon(&claim(301), 1).unwrap().1.amount, 100_000);

    let withdrawal = |now: i64| WithdrawPoolUsdc {
        program_id: key(PROGRAM),
        pool_account: pool,
        pool_signer: signer,
        pool_usdc_amount: 77,
        distribution_authority: key(CREATOR),
        creator_usdc: account(CREATOR_STABLE, key(STABLE_MINT), 0),
        clock: at(now),
    };
    assert_eq!(withdraw_pool_usdc(&withdrawal(50)), Err(ErrorCode::SaleNotEnded));
    assert_eq!(withdraw_pool_usdc(&withdrawal(300)), Err(ErrorCode::SaleNotEnded));
    assert_eq!(withdraw_pool_usdc(&withdrawal(301)).unwrap().amount, 77);
}

#[test]
fn only_the_creator_withdraws_the_proceeds() {
    let (signer, _) = pool_signer();
    let pool = created_pool();
    let withdrawal = WithdrawPoolUsdc {
        program_id: key(PROGRAM),
        pool_account: pool,
        pool_signer: signer,
        pool_usdc_amount: 77,
        distribution_authority: key(ALICE),
        creator_usdc: account(ALICE_STABLE, key(STABLE_MINT), 0),
        clock: at(350),
    };
    assert_eq!(withdraw_pool_usdc(&withdrawal), Err(ErrorCode::AuthorityMismatch));
    let early = WithdrawPoolUsdc { clock: at(10), ..withdrawal };
    assert_eq!(withdraw_pool_usdc(&early), Err(ErrorCode::AuthorityMismatch));
}

#[test]
fn a_signer_that_does_not_derive_is_refused() {
    let (signer, nonce) = pool_signer();
    let pool = created_pool();
    let deposit = ExchangeUsdcForRedeemable {
        program_id: key(PROGRAM),
        pool_account: pool,
        pool_signer: signer,
        user_authority: key(ALICE),
        user_usdc: account(ALICE_STABLE, key(STABLE_MINT), 10),
        user_redeemable: account(ALICE_CLAIM, key(CLAIM_MINT), 0),
        clock: at(150),
    };
    assert!(exchange_usdc_for_redeemable(&deposit, 1).is_ok());

    // The seed itself is not the signer.
    let seed_as_signer = ExchangeUsdcForRedeemable { pool_signer: key(SALE_MINT), ..deposit };
    assert_eq!(exchange_usdc_for_redeemable(&seed_as_signer, 1), Err(ErrorCode::InvalidSignerDerivation));

    // Another program derives another signer.
    let other_program = ExchangeUsdcForRedeemable { program_id: key(PROGRAM + 100), ..deposit };
    assert_eq!(exchange_usdc_for_redeemable(&other_program, 1), Err(ErrorCode::InvalidSignerDerivation));

    // Another nonce derives another signer, or none.
    let other_nonce = PoolAccount { nonce: nonce.wrapping_sub(1), ..pool };
    let stale = ExchangeUsdcForRedeemable { pool_account: other_nonce, ..deposit };
    assert_eq!(exchange_usdc_for_redeemable(&stale, 1), Err(ErrorCode::InvalidSignerDerivation));

    // The refusal comes before the clock is looked at.
    let early = ExchangeUsdcForRedeemable { clock: at(0), ..seed_as_signer };
    assert_eq!(exchange_usdc_for_redeemable(&early, 1), Err(ErrorCode::InvalidSignerDerivation));

    let exit = ExchangeRedeemableForUsdc {
        program_id: key(PROGRAM),
        pool_account: pool,
        pool_signer: key(ALICE),
        user_authority: key(ALICE),
        user_usdc: account(ALICE_STABLE, key(STABLE_MINT), 0),
        user_redeemable: account(ALICE_CLAIM, key(CLAIM_MINT), 10),
        clock: at(150),
    };
    assert_eq!(exchange_redeemable_for_usdc(&exit, 1), Err(ErrorCode::InvalidSignerDerivation));

    let claim = ExchangeRedeemableForWatermelon {
        program_id: key(PROGRAM),
        pool_account: pool,
        pool_signer: key(ALICE),
        redeemable_supply: 10,
        pool_watermelon_amount: 10,
        user_authority: key(ALICE),
        user_watermelon: account(ALICE_SALE, key(SALE_MINT), 0),
        user_redeemable: account(ALICE_CLAIM, key(CLAIM_MINT), 10),
        clock: at(350),
    };
    assert_eq!(exchange_redeemable_for_watermelon(&claim, 1), Err(ErrorCode::InvalidSignerDerivation));

    let withdrawal = WithdrawPoolUsdc {
        program_id: key(PROGRAM),
        pool_account: pool,
        pool_signer: key(CREATOR),
        pool_usdc_amount: 77,
        distribution_authority: key(CREATOR),
        creator_usdc: account(CREATOR_STABLE, key(STABLE_MINT), 0),
        clock: at(350),
    };
    assert_eq!(withdraw_pool_usdc(&withdrawal), Err(ErrorCode::InvalidSignerDerivation));
}

#[test]
fn creation_is_refused_for_each_reason_in_turn() {
    let (signer, nonce) = pool_signer();
    let good = creation(50);
    assert!(initialize_pool(&good, 1_000_000, 100, 200, 300).is_ok());
    assert_eq!(InitializePool::accounts(&good), Ok(()));

    let issued = InitializePool { redeemable_mint: Mint { key: key(CLAIM_MINT), supply: 1 }, ..good };
    assert_eq!(initialize_pool(&issued, 1_000_000, 100, 200, 300), Err(ErrorCode::PreIssuedSupply));

    let wrong_signer = InitializePool { pool_signer: key(CREATOR), ..good };
    assert_eq!(InitializePool::accounts(&wrong_signer), Err(ErrorCode::InvalidSignerDerivation));
    assert_eq!(
        initialize_pool(&wrong_signer, 1_000_000, 100, 200, 300),
        Err(ErrorCode::InvalidSignerDerivation)
    );
    let wrong_nonce = InitializePool { nonce: nonce.wrapping_sub(1), ..good };
    assert_eq!(InitializePool::accounts(&wrong_nonce), Err(ErrorCode::InvalidSignerDerivation));
    let other_mint = InitializePool { pool_watermelon: account(POOL_SALE, key(STABLE_MINT), 0), ..good };
    assert_eq!(InitializePool::accounts(&other_mint), Err(ErrorCode::InvalidSignerDerivation));
    assert_eq!(signer, good.pool_signer);

    assert_eq!(initialize_pool(&creation(100), 1_000_000, 100, 200, 300), Err(ErrorCode::StartNotFuture));
    assert_eq!(initialize_pool(&creation(101), 1_000_000, 100, 200, 300), Err(ErrorCode::StartNotFuture));
    assert!(initialize_pool(&creation(99), 1_000_000, 100, 200, 300).is_ok());

    assert_eq!(initialize_pool(&good, 1_000_000, 100, 100, 300), Err(ErrorCode::InvalidTimeSequence));
    assert_eq!(initialize_pool(&good, 1_000_000, 100, 200, 200), Err(ErrorCode::InvalidTimeSequence));
    assert_eq!(initialize_pool(&good, 1_000_000, 100, 90, 300), Err(ErrorCode::InvalidTimeSequence));
    assert_eq!(initialize_pool(&good, 1_000_000, 100, 400, 300), Err(ErrorCode::InvalidTimeSequence));

    // Where several reasons hold, the first in order is reported: the signer,
    // the supply, the start, the sequence of the timestamps.
    let all_wrong = InitializePool {
        redeemable_mint: Mint { key: key(CLAIM_MINT), supply: 9 },
        pool_signer: key(CREATOR),
        clock: at(500),
        ..good
    };
    assert_eq!(initialize_pool(&all_wrong, 1, 100, 90, 80), Err(ErrorCode::InvalidSignerDerivation));
    let derived = InitializePool { pool_signer: signer, ..all_wrong };
    assert_eq!(initialize_pool(&derived, 1, 100, 90, 80), Err(ErrorCode::PreIssuedSupply));
    let unissued = InitializePool { redeemable_mint: Mint { key: key(CLAIM_MINT), supply: 0 }, ..derived };
    assert_eq!(initialize_pool(&unissued, 1, 100, 90, 80), Err(ErrorCode::StartNotFuture));
    let early = InitializePool { clock: at(50), ..unissued };
    assert_eq!(initialize_pool(&early, 1, 100, 90, 80), Err(ErrorCode::InvalidTimeSequence));
}

#[test]
fn a_signer_that_does_not_derive_is_refused_whatever_the_supply() {
    let (signer, nonce) = pool_signer();
    for supply in [0u64, 1, u64::MAX] {
        let issued = Mint { key: key(CLAIM_MINT), supply };
        let wrong_signer = InitializePool { pool_signer: key(CREATOR), redeemable_mint: issued, ..creation(50) };
        assert_eq!(
            initialize_pool(&wrong_signer, 1_000_000, 100, 200, 300),
            Err(ErrorCode::InvalidSignerDerivation)
        );
        let wrong_nonce = InitializePool { nonce: nonce.wrapping_sub(1), redeemable_mint: issued, ..creation(50) };
        assert_eq!(
            initialize_pool(&wrong_nonce, 1_000_000, 100, 200, 300),
            Err(ErrorCode::InvalidSignerDerivation)
        );
        let right_signer = InitializePool { pool_signer: signer, redeemable_mint: issued, ..creation(50) };
        assert_eq!(
            initialize_pool(&right_signer, 1_000_000, 100, 200, 300).is_ok(),
            supply == 0
        );
        if supply != 0 {
            assert_eq!(
                initialize_pool(&right_signer, 1_000_000, 100, 200, 300),
                Err(ErrorCode::PreIssuedSupply)
            );
        }
    }
}

#[test]
fn a_refused_funding_leaves_no_pool() {
    let (pool, funding) = initialize_pool(&creation(50), 6_000_000, 100, 200, 300).unwrap();
    assert_eq!(funding.amount, 6_000_000);
    assert_eq!(
        conclude_creation(pool, Err(CustodyError::InsufficientBalance)),
        Err(ErrorCode::CustodyInsufficientBalance)
    );
    assert_eq!(conclude_creation(pool, Err(CustodyError::AuthorityMismatch)), Err(ErrorCode::AuthorityMismatch));
    assert_eq!(conclude_creation(pool, Err(CustodyError::MintNotAuthorized)), Err(ErrorCode::AuthorityMismatch));
    assert_eq!(conclude_creation(pool, Ok(())), Ok(pool));
}
