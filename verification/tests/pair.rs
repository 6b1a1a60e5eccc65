use uniswap_v2::pair::fees::{FeeConfig, FeeSplit};
use uniswap_v2::pair::types::{
    FEE_DENOMINATOR, FEE_NUMERATOR, MINIMUM_LIQUIDITY, UQ112,
};
use uniswap_v2::pair::{Burn, Mint, PairContract, PairError, Swap, Sync};
use uniswap_v2::types::{AccountId, Env};

fn alice() -> AccountId {
    AccountId::from([1u8; 32])
}

fn bob() -> AccountId {
    AccountId::from([2u8; 32])
}

fn charlie() -> AccountId {
    AccountId::from([3u8; 32])
}

fn django() -> AccountId {
    AccountId::from([4u8; 32])
}

fn at(caller: AccountId, now: u64) -> Env {
    Env { caller, block_timestamp: now, transferred_value: 0, balance: 0 }
}

fn new_pair() -> PairContract {
    PairContract::new(bob(), charlie(), django())
}

/// A pool with reserves of 10000 and 20000 and a supply of 14142.
fn funded_pair() -> PairContract {
    let mut pair = new_pair();
    pair.mint(&at(alice(), 0), alice(), 10000, 20000).unwrap();
    pair
}

#[test]
fn test_new_pair_initializes_correctly() {
    let factory = bob();
    let token_0 = charlie();
    let token_1 = django();

    let pair = PairContract::new(factory, token_0, token_1);

    assert_eq!(pair.factory(), factory);
    assert_eq!(pair.token_0(), token_0);
    assert_eq!(pair.token_1(), token_1);
    assert_eq!(pair.get_reserves(), (0, 0, 0));
    assert_eq!(pair.total_supply(), 0);
}

#[test]
fn test_mint_first_liquidity() {
    let mut pair = new_pair();

    let result = pair.mint(&at(alice(), 0), alice(), 1000, 1000);

    assert!(result.is_ok());
    let liquidity = result.unwrap().liquidity;
    assert!(liquidity > 0);
    assert_eq!(liquidity, 900);

    assert!(pair.total_supply() > MINIMUM_LIQUIDITY);
}

#[test]
fn test_burn_requires_liquidity() {
    let mut pair = new_pair();

    let result = pair.burn(&at(alice(), 0), alice(), 1);
    assert!(result.is_err());
    assert_eq!(result.unwrap_err(), PairError::InsufficientLiquidityBurned);
}

#[test]
fn test_swap_with_zero_amounts_fails() {
    let mut pair = new_pair();

    let result = pair.swap(&at(alice(), 0), 0, 0, 0, 0, alice());
    assert!(result.is_err());
    assert_eq!(result.unwrap_err(), PairError::InsufficientOutputAmount);
}

#[test]
fn test_reentrancy_protection() {
    let mut pair = new_pair();

    assert!(pair.lock().is_ok());

    let result = pair.mint(&at(alice(), 0), alice(), 1000, 1000);
    assert!(result.is_err());
    assert_eq!(result.unwrap_err(), PairError::Locked);

    pair.unlock();
    assert!(pair.lock().is_ok());
    pair.unlock();
}

#[test]
fn test_swap_exceeds_reserves_fails() {
    let mut pair = new_pair();

    assert_eq!(pair.get_reserves(), (0, 0, 0));

    let result = pair.swap(&at(alice(), 0), 1, 0, 0, 0, alice());
    assert!(result.is_err());
    assert_eq!(result.unwrap_err(), PairError::InsufficientLiquidity);

    let result = pair.swap(&at(alice(), 0), 0, 1, 0, 0, alice());
    assert!(result.is_err());
    assert_eq!(result.unwrap_err(), PairError::InsufficientLiquidity);
}

#[test]
fn test_mint_and_burn_lifecycle() {
    let mut pair = new_pair();

    let mint_result = pair.mint(&at(alice(), 0), alice(), 1000, 1000);
    assert!(mint_result.is_ok());
    let liquidity = mint_result.unwrap().liquidity;
    assert!(liquidity > 0);

    let initial_supply = pair.total_supply();
    assert!(initial_supply > MINIMUM_LIQUIDITY);
    assert_eq!(pair.balance_of(alice()), liquidity);

    assert_eq!(initial_supply, MINIMUM_LIQUIDITY + liquidity);

    let zero_address = AccountId::from([0u8; 32]);
    assert_eq!(pair.balance_of(zero_address), MINIMUM_LIQUIDITY);

    let burned = pair.burn(&at(alice(), 0), bob(), liquidity).unwrap();
    assert_eq!((burned.amount_0, burned.amount_1), (900, 900));
    assert_eq!(pair.balance_of(alice()), 0);
    assert_eq!(pair.total_supply(), MINIMUM_LIQUIDITY);
    assert_eq!(pair.get_reserves(), (100, 100, 0));
}

#[test]
fn test_price_cumulative_updates() {
    let pair = new_pair();

    assert_eq!(pair.price_0_cumulative_last(), 0);
    assert_eq!(pair.price_1_cumulative_last(), 0);

    assert_eq!(pair.token_0(), charlie());
    assert_eq!(pair.token_1(), django());
    assert_eq!(pair.factory(), bob());
}

#[test]
fn test_sync_function() {
    let mut pair = new_pair();
    pair.mint(&at(alice(), 0), alice(), 500, 500).unwrap();

    let result = pair.sync(&at(alice(), 0), 1000, 1000);
    assert!(result.is_ok());
    assert_eq!(result.unwrap(), Sync { reserve_0: 1000, reserve_1: 1000 });

    let (reserve_0, reserve_1, _) = pair.get_reserves();
    assert_eq!(reserve_0, 1000);
    assert_eq!(reserve_1, 1000);
}

#[test]
fn test_minimum_liquidity_lock() {
    let mut pair = new_pair();

    let result = pair.mint(&at(alice(), 0), alice(), 1000, 1000);
    assert!(result.is_ok());

    let zero_address = AccountId::from([0u8; 32]);
    let locked_liquidity = pair.balance_of(zero_address);
    assert_eq!(locked_liquidity, MINIMUM_LIQUIDITY);

    assert!(pair.total_supply() >= MINIMUM_LIQUIDITY);
}

#[test]
fn genesis_mint_scenario() {
    let mut pair = new_pair();
    let receipt = pair.mint(&at(alice(), 0), alice(), 10000, 20000).unwrap();
    assert_eq!(receipt.liquidity, 14042);
    assert_eq!(receipt.sync, Sync { reserve_0: 10000, reserve_1: 20000 });
    assert_eq!(receipt.mint, Mint { sender: alice(), amount_0: 10000, amount_1: 20000 });
    assert_eq!(pair.get_reserves(), (10000, 20000, 0));
    assert_eq!(pair.total_supply(), 14142);
    assert_eq!(pair.balance_of(AccountId::zero()), 100);
    assert_eq!(pair.balance_of(alice()), 14042);
}

#[test]
fn proportional_mint_scenario() {
    let mut pair = funded_pair();
    let receipt = pair.mint(&at(bob(), 0), bob(), 5000, 10000).unwrap();
    assert_eq!(receipt.liquidity, 7071);
    assert_eq!(pair.get_reserves(), (15000, 30000, 0));
    assert_eq!(pair.total_supply(), 14142 + 7071);
    assert_eq!(pair.balance_of(bob()), 7071);
    assert_eq!(pair.balance_of(AccountId::zero()), 100);
}

#[test]
fn swap_rejection_scenario() {
    let mut pair = new_pair();
    pair.mint(&at(alice(), 0), alice(), 1000, 1000).unwrap();
    assert_eq!(pair.get_reserves(), (1000, 1000, 0));
    let result = pair.swap(&at(alice(), 0), 1000, 0, 0, 0, alice());
    assert_eq!(result.unwrap_err(), PairError::InsufficientLiquidity);
    assert_eq!(pair.get_reserves(), (1000, 1000, 0));
    assert!(!pair.is_locked());
}

#[test]
fn k_invariant_rejection_scenario() {
    let mut pair = funded_pair();
    let result = pair.swap(&at(alice(), 0), 1000, 0, 0, 100, alice());
    assert_eq!(result.unwrap_err(), PairError::KInvariantViolated);
    assert_eq!(pair.get_reserves(), (10000, 20000, 0));
    assert!(!pair.is_locked());
}

#[test]
fn unbalanced_mint_earns_the_smaller_proportion() {
    let mut pair = funded_pair();
    // 5000 * 14142 / 10000 = 7071 and 30000 * 14142 / 20000 = 21213
    let receipt = pair.mint(&at(bob(), 0), bob(), 5000, 30000).unwrap();
    assert_eq!(receipt.liquidity, 7071);
    assert_eq!(pair.get_reserves(), (15000, 50000, 0));
}

#[test]
fn first_deposit_must_exceed_the_locked_minimum() {
    let mut pair = new_pair();
    // sqrt(100 * 100) = 100, which does not exceed the minimum
    let result = pair.mint(&at(alice(), 0), alice(), 100, 100);
    assert_eq!(result.unwrap_err(), PairError::InsufficientInitialLiquidity);
    // sqrt(101 * 101) = 101
    let receipt = pair.mint(&at(alice(), 0), alice(), 101, 101).unwrap();
    assert_eq!(receipt.liquidity, 1);
    assert_eq!(pair.total_supply(), 101);
}

#[test]
fn later_deposit_must_earn_a_share() {
    let mut pair = funded_pair();
    // 0 * 14142 / 10000 = 0
    let result = pair.mint(&at(bob(), 0), bob(), 0, 1000);
    assert_eq!(result.unwrap_err(), PairError::InsufficientLiquidityMinted);
    assert_eq!(pair.get_reserves(), (10000, 20000, 0));
    assert_eq!(pair.total_supply(), 14142);
}

#[test]
fn mint_overflow_is_rejected_whole() {
    let mut pair = new_pair();
    let result = pair.mint(&at(alice(), 0), alice(), u128::MAX, 2);
    assert_eq!(result.unwrap_err(), PairError::Overflow);
    assert_eq!(pair.get_reserves(), (0, 0, 0));
    assert_eq!(pair.total_supply(), 0);
    assert_eq!(pair.balance_of(alice()), 0);

    let mut pair = funded_pair();
    let result = pair.mint(&at(bob(), 0), bob(), u128::MAX / 2, 10);
    assert_eq!(result.unwrap_err(), PairError::Overflow);
    assert_eq!(pair.get_reserves(), (10000, 20000, 0));
    assert_eq!(pair.total_supply(), 14142);
    assert!(!pair.is_locked());
}

#[test]
fn burn_releases_the_proportion_rounded_down() {
    let mut pair = funded_pair();
    // 1000 * 10000 / 14142 = 707 and 1000 * 20000 / 14142 = 1414
    let receipt = pair.burn(&at(alice(), 0), bob(), 1000).unwrap();
    assert_eq!((receipt.amount_0, receipt.amount_1), (707, 1414));
    assert_eq!(receipt.sync, Sync { reserve_0: 9293, reserve_1: 18586 });
    assert_eq!(
        receipt.burn,
        Burn { sender: alice(), to: bob(), amount_0: 707, amount_1: 1414 }
    );
    assert_eq!(pair.get_reserves(), (9293, 18586, 0));
    assert_eq!(pair.total_supply(), 13142);
    assert_eq!(pair.balance_of(alice()), 13042);
}

#[test]
fn burn_is_checked_against_the_callers_balance() {
    let mut pair = funded_pair();
    let result = pair.burn(&at(alice(), 0), alice(), 14043);
    assert_eq!(result.unwrap_err(), PairError::InsufficientLiquidityBurned);
    let result = pair.burn(&at(bob(), 0), bob(), 1);
    assert_eq!(result.unwrap_err(), PairError::InsufficientLiquidityBurned);
    let result = pair.burn(&at(alice(), 0), alice(), 0);
    assert_eq!(result.unwrap_err(), PairError::InsufficientLiquidityBurned);
    assert_eq!(pair.total_supply(), 14142);
}

#[test]
fn burn_that_releases_nothing_of_an_asset_is_rejected() {
    let mut pair = new_pair();
    pair.mint(&at(alice(), 0), alice(), 1000, 1000).unwrap();
    pair.sync(&at(alice(), 0), 1, 1000).unwrap();
    // 500 * 1 / 1000 = 0
    let result = pair.burn(&at(alice(), 0), alice(), 500);
    assert_eq!(result.unwrap_err(), PairError::InsufficientLiquidityBurned);
    assert_eq!(pair.get_reserves(), (1, 1000, 0));
}

#[test]
fn the_locked_shares_cannot_be_redeemed() {
    let mut pair = funded_pair();
    let result = pair.burn(&at(AccountId::zero(), 0), alice(), 100);
    assert_eq!(result.unwrap_err(), PairError::InsufficientLiquidityBurned);
    let result = pair.burn(&at(AccountId::zero(), 0), alice(), 1);
    assert_eq!(result.unwrap_err(), PairError::InsufficientLiquidityBurned);
    assert_eq!(pair.balance_of(AccountId::zero()), 100);
}

#[test]
fn supply_never_falls_below_the_minimum() {
    let mut pair = funded_pair();
    pair.mint(&at(bob(), 0), bob(), 5000, 10000).unwrap();
    let alice_shares = pair.balance_of(alice());
    let bob_shares = pair.balance_of(bob());
    pair.burn(&at(alice(), 0), alice(), alice_shares).unwrap();
    pair.burn(&at(bob(), 0), bob(), bob_shares).unwrap();
    assert_eq!(pair.total_supply(), MINIMUM_LIQUIDITY);
    assert_eq!(pair.balance_of(AccountId::zero()), MINIMUM_LIQUIDITY);
    let (reserve_0, reserve_1, _) = pair.get_reserves();
    assert!(reserve_0 > 0 && reserve_1 > 0);
}

#[test]
fn mint_then_burn_returns_no_more_than_was_deposited() {
    let mut pair = funded_pair();
    let minted = pair.mint(&at(bob(), 0), bob(), 3333, 7777).unwrap();
    let burned = pair.burn(&at(bob(), 0), bob(), minted.liquidity).unwrap();
    assert!(burned.amount_0 <= 3333);
    assert!(burned.amount_1 <= 7777);
    // 4713 shares of 18855 redeem 4713 * 13333 / 18855 and 4713 * 27777 / 18855
    assert_eq!(minted.liquidity, 4713);
    assert_eq!((burned.amount_0, burned.amount_1), (3332, 6943));

    let mut pair = new_pair();
    let minted = pair.mint(&at(alice(), 0), alice(), 10000, 20000).unwrap();
    let burned = pair.burn(&at(alice(), 0), alice(), minted.liquidity).unwrap();
    // 14042 * 10000 / 14142 = 9929 and 14042 * 20000 / 14142 = 19858
    assert_eq!((burned.amount_0, burned.amount_1), (9929, 19858));
}

#[test]
fn swap_commits_the_full_balances() {
    let mut pair = funded_pair();
    // paying 1000 of asset 0, of which 995 count, for 1800 of asset 1:
    // (10000 + 995) * 18200 = 200109000 >= 10000 * 20000
    let receipt = pair.swap(&at(alice(), 0), 0, 1800, 1000, 0, bob()).unwrap();
    assert_eq!(receipt.sync, Sync { reserve_0: 11000, reserve_1: 18200 });
    assert_eq!(
        receipt.swap,
        Swap {
            sender: alice(),
            to: bob(),
            amount_0_in: 1000,
            amount_1_in: 0,
            amount_0_out: 0,
            amount_1_out: 1800,
        }
    );
    // the fee is 1000 - 995 = 5, of which a fifth each
    assert_eq!(receipt.fee_0, FeeSplit { protocol: 1, rewards: 1 });
    assert_eq!(receipt.fee_1, FeeSplit { protocol: 0, rewards: 0 });
    assert_eq!(pair.get_reserves(), (11000, 18200, 0));
    assert_eq!(pair.total_supply(), 14142);
    assert!(!pair.is_locked());
}

#[test]
fn swap_at_the_edge_of_the_invariant() {
    // reserves 1000 and 1000; paying 100, of which 99 count, for `out`:
    // (1000 + 99) * (1000 - out) >= 1000 * 1000 holds up to out = 90
    let mut pair = new_pair();
    pair.mint(&at(alice(), 0), alice(), 1000, 1000).unwrap();
    let result = pair.swap(&at(alice(), 0), 0, 91, 100, 0, alice());
    assert_eq!(result.unwrap_err(), PairError::KInvariantViolated);
    let result = pair.swap(&at(alice(), 0), 0, 90, 100, 0, alice());
    assert!(result.is_ok());
    assert_eq!(pair.get_reserves(), (1100, 910, 0));
}

#[test]
fn product_of_reserves_never_falls_over_swaps() {
    let mut pair = funded_pair();
    let mut k = 10000u128 * 20000;
    let swaps: [(u128, u128, u128, u128); 5] = [
        (0, 1800, 1000, 0),
        (500, 0, 0, 900),
        (0, 1, 1, 0),
        (1000, 0, 0, 100),
        (0, 3000, 3000, 0),
    ];
    for (out_0, out_1, in_0, in_1) in swaps {
        let _ = pair.swap(&at(alice(), 0), out_0, out_1, in_0, in_1, alice());
        let (reserve_0, reserve_1, _) = pair.get_reserves();
        assert!(reserve_0 * reserve_1 >= k);
        k = reserve_0 * reserve_1;
    }
}

#[test]
fn swap_overflow_is_rejected_whole() {
    let mut pair = funded_pair();
    let result = pair.swap(&at(alice(), 0), 0, 1, u128::MAX, 0, alice());
    assert_eq!(result.unwrap_err(), PairError::Overflow);
    let result = pair.swap(&at(alice(), 0), 0, 1, u128::MAX / 2000, 0, alice());
    assert_eq!(result.unwrap_err(), PairError::Overflow);
    assert_eq!(pair.get_reserves(), (10000, 20000, 0));
    assert!(!pair.is_locked());
}

#[test]
fn every_operation_is_refused_while_the_guard_is_held() {
    let mut pair = funded_pair();
    pair.lock().unwrap();
    assert_eq!(pair.lock().unwrap_err(), PairError::Locked);
    assert_eq!(
        pair.mint(&at(alice(), 5), alice(), 1000, 2000).unwrap_err(),
        PairError::Locked
    );
    assert_eq!(pair.burn(&at(alice(), 5), alice(), 10).unwrap_err(), PairError::Locked);
    assert_eq!(
        pair.swap(&at(alice(), 5), 0, 1800, 1000, 0, alice()).unwrap_err(),
        PairError::Locked
    );
    assert_eq!(pair.sync(&at(alice(), 5), 1, 1).unwrap_err(), PairError::Locked);
    assert!(pair.is_locked());
    assert_eq!(pair.get_reserves(), (10000, 20000, 0));
    assert_eq!(pair.total_supply(), 14142);
    assert_eq!(pair.get_cumulative_prices(), (0, 0));
    pair.unlock();
    assert!(pair.swap(&at(alice(), 5), 0, 1800, 1000, 0, alice()).is_ok());
    assert!(!pair.is_locked());
}

#[test]
fn prices_accumulate_over_elapsed_time() {
    let mut pair = funded_pair();
    pair.sync(&at(alice(), 10), 10000, 20000).unwrap();
    // ten seconds at a price of 20000 / 10000 and of 10000 / 20000
    assert_eq!(pair.price_0_cumulative_last(), 2 * UQ112 * 10);
    assert_eq!(pair.price_1_cumulative_last(), UQ112 / 2 * 10);
    assert_eq!(pair.get_reserves(), (10000, 20000, 10));

    // no time, no change
    pair.sync(&at(alice(), 10), 10000, 20000).unwrap();
    assert_eq!(pair.get_cumulative_prices(), (2 * UQ112 * 10, UQ112 / 2 * 10));

    // the prices that held until now are recorded before the reserves change
    pair.swap(&at(alice(), 15), 0, 1800, 1000, 0, alice()).unwrap();
    assert_eq!(pair.get_cumulative_prices(), (2 * UQ112 * 15, UQ112 / 2 * 15));
    assert_eq!(pair.get_reserves(), (11000, 18200, 15));
}

#[test]
fn prices_that_do_not_fit_reject_the_operation() {
    let mut pair = new_pair();
    pair.mint(&at(alice(), 0), alice(), 70000, 70000).unwrap();
    // 70000 * 2^112 does not fit
    let result = pair.sync(&at(alice(), 1), 70000, 70000);
    assert_eq!(result.unwrap_err(), PairError::Overflow);
    let result = pair.mint(&at(alice(), 1), alice(), 10, 10);
    assert_eq!(result.unwrap_err(), PairError::Overflow);
    assert_eq!(pair.get_reserves(), (70000, 70000, 0));
    assert_eq!(pair.get_cumulative_prices(), (0, 0));
    assert!(!pair.is_locked());
    // at the same instant nothing accrues
    assert!(pair.mint(&at(alice(), 0), alice(), 10, 10).is_ok());
}

#[test]
fn sync_keeps_reserves_and_shares_together() {
    let mut pair = new_pair();
    assert_eq!(
        pair.sync(&at(alice(), 0), 5, 0).unwrap_err(),
        PairError::InvalidTokenAmounts
    );
    assert_eq!(
        pair.sync(&at(alice(), 0), 5, 5).unwrap_err(),
        PairError::InvalidTokenAmounts
    );
    assert!(pair.sync(&at(alice(), 3), 0, 0).is_ok());
    assert_eq!(pair.get_reserves(), (0, 0, 3));

    let mut pair = funded_pair();
    assert_eq!(
        pair.sync(&at(alice(), 0), 0, 5).unwrap_err(),
        PairError::InvalidTokenAmounts
    );
    assert_eq!(pair.get_reserves(), (10000, 20000, 0));
}

#[test]
fn fee_shares_must_make_up_the_whole() {
    assert_eq!(
        FeeConfig::new(6000, 2000, 2000),
        Some(FeeConfig { lp_share_bp: 6000, protocol_share_bp: 2000, rewards_share_bp: 2000 })
    );
    assert_eq!(FeeConfig::new(6000, 2000, 1999), None);
    assert_eq!(FeeConfig::new(u128::MAX, 1, 10000), None);
    assert_eq!(FeeConfig::standard(), FeeConfig::new(6000, 2000, 2000).unwrap());
    assert!(FeeConfig::standard().is_valid());
    let odd = FeeConfig { lp_share_bp: 1, protocol_share_bp: 1, rewards_share_bp: 1 };
    assert!(!odd.is_valid());
    assert!(PairContract::with_fees(bob(), charlie(), django(), odd).is_none());
}

#[test]
fn fee_is_split_by_basis_points_rounded_down() {
    let config = FeeConfig::new(5000, 3000, 2000).unwrap();
    assert_eq!(config.split(1000), FeeSplit { protocol: 300, rewards: 200 });
    assert_eq!(config.split(9), FeeSplit { protocol: 2, rewards: 1 });
    assert_eq!(config.split(0), FeeSplit { protocol: 0, rewards: 0 });
    // u128::MAX * 3000 / 10000 and u128::MAX * 2000 / 10000, without overflow
    assert_eq!(
        config.split(u128::MAX),
        FeeSplit {
            protocol: 102084710076281539039012382229530463436,
            rewards: 68056473384187692692674921486353642291,
        }
    );

    let mut pair = PairContract::with_fees(bob(), charlie(), django(), config).unwrap();
    assert_eq!(pair.fees(), config);
    pair.mint(&at(alice(), 0), alice(), 1_000_000, 1_000_000).unwrap();
    // the fee on 100000 is 100000 - 99500 = 500
    let receipt = pair.swap(&at(alice(), 0), 0, 90000, 100000, 0, alice()).unwrap();
    assert_eq!(receipt.fee_0, FeeSplit { protocol: 150, rewards: 100 });
}

#[test]
fn constants_of_the_pool() {
    assert_eq!(MINIMUM_LIQUIDITY, 100);
    assert_eq!(UQ112, 1u128 << 112);
    assert_eq!(FEE_DENOMINATOR, 1000);
    assert_eq!(FEE_NUMERATOR, 995);
}

#[test]
fn a_proportional_deposit_without_rounding_comes_back_whole() {
    let mut pair = new_pair();
    pair.mint(&at(alice(), 0), alice(), 40_000, 10_000).unwrap();
    // the supply is 20000: 4000 * 20000 / 40000 = 1000 * 20000 / 10000 = 2000
    let minted = pair.mint(&at(bob(), 0), bob(), 4_000, 1_000).unwrap();
    assert_eq!(minted.liquidity, 2_000);
    let burned = pair.burn(&at(bob(), 0), bob(), minted.liquidity).unwrap();
    assert_eq!((burned.amount_0, burned.amount_1), (4_000, 1_000));
    assert_eq!(pair.get_reserves(), (40_000, 10_000, 0));
    assert_eq!(pair.total_supply(), 20_000);
}

/// The reserves, the supply, the prices, the guard and the holdings of the
/// four accounts that the tests deal with.
fn observed(pair: &PairContract) -> ((u128, u128, u64), u128, (u128, u128), bool, [u128; 4]) {
    (
        pair.get_reserves(),
        pair.total_supply(),
        pair.get_cumulative_prices(),
        pair.is_locked(),
        [
            pair.balance_of(AccountId::zero()),
            pair.balance_of(alice()),
            pair.balance_of(bob()),
            pair.balance_of(charlie()),
        ],
    )
}

#[test]
fn a_long_run_of_requests_keeps_the_pool_in_order() {
    let mut pair = new_pair();
    let holders = [alice(), bob(), charlie(), AccountId::zero()];
    let mut seed: u64 = 0x2545F4914F6CDD1D;
    let mut next = move |bound: u128| -> u128 {
        seed ^= seed << 13;
        seed ^= seed >> 7;
        seed ^= seed << 17;
        (seed as u128) % bound
    };
    let mut now: u64 = 0;
    let mut funded = false;
    let mut succeeded = [0u32; 4];
    for _ in 0..4000 {
        let before = observed(&pair);
        let who = holders[next(4) as usize];
        let to = holders[next(3) as usize];
        if next(10) == 0 {
            now += next(3) as u64;
        }
        let env = at(who, now);
        let kind = next(4) as usize;
        let ok = match kind {
            0 => pair.mint(&env, to, next(3000), next(3000)).is_ok(),
            1 => pair.burn(&env, to, next(before.4[1].max(before.4[2]) + 2)).is_ok(),
            2 => {
                let (reserve_0, reserve_1, _) = before.0;
                let out_0 = next(reserve_0 / 8 + 2);
                let out_1 = if next(3) == 0 { next(reserve_1 / 8 + 2) } else { 0 };
                let swapped = pair.swap(&env, out_0, out_1, next(40), next(2000), to).is_ok();
                let (after_0, after_1, _) = pair.get_reserves();
                assert!(after_0 * after_1 >= reserve_0 * reserve_1);
                swapped
            }
            _ => pair.sync(&env, next(5000), next(5000)).is_ok(),
        };
        let after = observed(&pair);
        if ok {
            succeeded[kind] += 1;
        } else {
            assert_eq!(after, before);
        }
        let ((reserve_0, reserve_1, _), supply, prices, locked, held) = after;
        assert!(!locked);
        assert_eq!(reserve_0 > 0, supply > 0);
        assert_eq!(reserve_1 > 0, supply > 0);
        assert_eq!(held.iter().sum::<u128>(), supply);
        assert!(prices.0 >= before.2 .0 && prices.1 >= before.2 .1);
        funded = funded || supply > 0;
        if funded {
            assert!(supply >= MINIMUM_LIQUIDITY);
            assert!(held[0] >= MINIMUM_LIQUIDITY);
        }
    }
    assert!(succeeded.iter().all(|count| *count > 20), "{:?}", succeeded);
}

#[test]
fn the_default_pool_is_empty_and_unnamed() {
    let pair = PairContract::default();
    assert_eq!(pair.token_0(), AccountId::zero());
    assert_eq!(pair.token_1(), AccountId::zero());
    assert_eq!(pair.factory(), AccountId::zero());
    assert_eq!(pair.get_reserves(), (0, 0, 0));
    assert_eq!(pair.total_supply(), 0);
    assert_eq!(pair.fees(), FeeConfig::standard());
    assert!(!pair.is_locked());
}

#[test]
fn the_fee_is_what_does_not_count_for_the_trade() {
    let mut pair = new_pair();
    pair.mint(&at(alice(), 0), alice(), 1_000_000, 1_000_000).unwrap();
    // of 1001 paid, 1001 * 995 / 1000 = 995 count; the fee is 6
    let receipt = pair.swap(&at(alice(), 0), 0, 990, 1001, 0, alice()).unwrap();
    assert_eq!(receipt.fee_0, FeeSplit { protocol: 1, rewards: 1 });
    assert_eq!(receipt.fee_1, FeeSplit { protocol: 0, rewards: 0 });
    assert_eq!(pair.get_reserves(), (1_001_001, 999_010, 0));

    // of 1 paid, nothing counts: the payment buys nothing
    let result = pair.swap(&at(alice(), 0), 0, 1, 1, 0, alice());
    assert_eq!(result.unwrap_err(), PairError::KInvariantViolated);
    // of 201 paid, 199 count: (1001001 + 199) * (999010 - 198) >= 1001001 * 999010
    let result = pair.swap(&at(alice(), 0), 0, 199, 201, 0, alice());
    assert_eq!(result.unwrap_err(), PairError::KInvariantViolated);
    let receipt = pair.swap(&at(alice(), 0), 0, 198, 201, 0, alice()).unwrap();
    // the fee is 201 - 199 = 2, of which a fifth each rounds to nothing
    assert_eq!(receipt.fee_0, FeeSplit { protocol: 0, rewards: 0 });
    assert_eq!(pair.get_reserves(), (1_001_202, 998_812, 0));
}

#[test]
fn large_reserves_can_be_traded() {
    let mut pair = new_pair();
    let large: u128 = 1 << 63;
    pair.mint(&at(alice(), 0), alice(), large, large).unwrap();
    assert_eq!(pair.total_supply(), large);
    // of 2^20 paid, 1043333 count
    let receipt = pair.swap(&at(bob(), 0), 0, 1_043_332, 1 << 20, 0, bob());
    assert!(receipt.is_ok());
    assert_eq!(pair.get_reserves(), (large + (1 << 20), large - 1_043_332, 0));
    let result = pair.swap(&at(bob(), 0), 0, 1 << 20, 1 << 20, 0, bob());
    assert_eq!(result.unwrap_err(), PairError::KInvariantViolated);
    // the product of balances beyond 2^64 does not fit
    let result = pair.swap(&at(bob(), 0), 0, 1, 3 << 64, 0, bob());
    assert_eq!(result.unwrap_err(), PairError::Overflow);
    assert_eq!(pair.get_reserves(), (large + (1 << 20), large - 1_043_332, 0));
}
