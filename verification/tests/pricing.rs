use bonding_curve::state::accounts::{Pubkey, TokenAccount};
use bonding_curve::state::bonding_curve::BondingCurve;
use bonding_curve::state::curve_config::{CurveConfig, MigrationStatus};
use bonding_curve::state::curve_math::{MIGRATION_THRESHOLD, VIRTUAL_SOL_AMOUNT};
use bonding_curve::utils::error::ErrorCode;
use bonding_curve::utils::fee::calculate_fee;

fn key(byte: u8) -> Pubkey {
    Pubkey::new_from_array([byte; 32])
}

fn curve() -> BondingCurve {
    BondingCurve {
        mint: key(1),
        config: CurveConfig {
            migration_status: MigrationStatus::Active,
            is_subscribed: false,
            developer: key(2),
        },
        bump: 254,
        token_seed: String::from("seed"),
    }
}

fn vault(amount: u64) -> TokenAccount {
    TokenAccount { mint: key(1), owner: key(3), amount }
}

/// The price by the formula, in 128 bits.
fn closed_form_buy(real: u64, tokens: u64, amount: u64) -> u128 {
    let e = real as u128 + VIRTUAL_SOL_AMOUNT as u128;
    let k = e * tokens as u128;
    k / (tokens as u128 - amount as u128) - e
}

fn closed_form_sell(real: u64, tokens: u64, amount: u64) -> u128 {
    let e = real as u128 + VIRTUAL_SOL_AMOUNT as u128;
    let k = e * tokens as u128;
    e - k / (tokens as u128 + amount as u128)
}

#[test]
fn constants_have_their_values() {
    assert_eq!(VIRTUAL_SOL_AMOUNT, 30_000_000_000);
    assert_eq!(MIGRATION_THRESHOLD, 80_000_000_000);
}

#[test]
fn effective_amounts_add_the_padding() {
    let c = curve();
    assert_eq!(c.get_effective_amounts(&vault(77), 5), Ok((30_000_000_005, 77)));
    assert_eq!(c.get_effective_amounts(&vault(0), 0), Ok((30_000_000_000, 0)));
}

#[test]
fn effective_amounts_overflow() {
    let c = curve();
    let largest = u64::MAX - VIRTUAL_SOL_AMOUNT;
    assert_eq!(c.get_effective_amounts(&vault(1), largest), Ok((u64::MAX, 1)));
    assert_eq!(c.get_effective_amounts(&vault(1), largest + 1), Err(ErrorCode::MathOverflow));
}

#[test]
fn buy_price_of_a_fresh_curve() {
    let c = curve();
    let price = c.calculate_buy_price(&vault(1_000_000_000_000), 1_000_000, 0);
    assert_eq!(price, Ok(30_000));
    assert_eq!(closed_form_buy(0, 1_000_000_000_000, 1_000_000), 30_000);
    let k: u128 = 30_000_000_000u128 * 1_000_000_000_000u128;
    assert_eq!(k / (1_000_000_000_000u128 - 1_000_000u128) - 30_000_000_000u128, 30_000);
}

#[test]
fn buy_price_matches_the_formula() {
    let c = curve();
    let cases: [(u64, u64, u64); 6] = [
        (0, 1_000_000_000_000, 1),
        (0, 1_000_000_000_000, 999_000_000_000),
        (12_345_678_901, 800_000_000_000_000, 123_456_789_012),
        (79_999_999_999, 10, 9),
        (5, 3, 2),
        (1_000_000_000, 1_000_000_000_000_000, 500_000_000_000_000),
    ];
    for (real, tokens, amount) in cases {
        let expected = closed_form_buy(real, tokens, amount);
        assert!(expected <= u64::MAX as u128);
        assert_eq!(c.calculate_buy_price(&vault(tokens), amount, real), Ok(expected as u64));
    }
}

#[test]
fn buy_price_small_example() {
    // Ten tokens, three bought: k = 30_000_000_010 * 10, over 7, rounded down.
    let c = curve();
    assert_eq!(c.calculate_buy_price(&vault(10), 3, 10), Ok(12_857_142_861));
}

#[test]
fn buy_of_nothing_is_refused() {
    let c = curve();
    assert_eq!(c.calculate_buy_price(&vault(1_000), 0, 0), Err(ErrorCode::InvalidAmount));
    assert_eq!(c.calculate_buy_price(&vault(0), 0, 0), Err(ErrorCode::InvalidAmount));
}

#[test]
fn buy_of_the_whole_vault_is_refused() {
    let c = curve();
    assert_eq!(c.calculate_buy_price(&vault(1_000), 1_000, 0), Err(ErrorCode::InsufficientLiquidity));
    assert_eq!(c.calculate_buy_price(&vault(1_000), 1_001, 0), Err(ErrorCode::InsufficientLiquidity));
    assert_eq!(c.calculate_buy_price(&vault(1_000), u64::MAX, 0), Err(ErrorCode::InsufficientLiquidity));
    assert_eq!(c.calculate_buy_price(&vault(0), 1, 0), Err(ErrorCode::InsufficientLiquidity));
    assert!(c.calculate_buy_price(&vault(1_000), 999, 0).is_ok());
}

#[test]
fn buy_price_overflow() {
    let c = curve();
    // The padded balance does not fit.
    assert_eq!(c.calculate_buy_price(&vault(10), 1, u64::MAX), Err(ErrorCode::MathOverflow));
    // The price does not fit: all but one of very many tokens.
    assert_eq!(
        c.calculate_buy_price(&vault(u64::MAX), u64::MAX - 1, 0),
        Err(ErrorCode::MathOverflow)
    );
    // The amount is looked at first.
    assert_eq!(c.calculate_buy_price(&vault(10), 10, u64::MAX), Err(ErrorCode::InsufficientLiquidity));
    assert_eq!(c.calculate_buy_price(&vault(10), 0, u64::MAX), Err(ErrorCode::InvalidAmount));
}

#[test]
fn sell_price_matches_the_formula() {
    let c = curve();
    let cases: [(u64, u64, u64); 6] = [
        (0, 1_000_000_000_000, 1),
        (0, 999_999_000_000, 1_000_000),
        (12_345_678_901, 800_000_000_000_000, 123_456_789_012),
        (79_999_999_999, 0, 9),
        (5, 3, u64::MAX),
        (u64::MAX - VIRTUAL_SOL_AMOUNT, u64::MAX, u64::MAX),
    ];
    for (real, tokens, amount) in cases {
        let expected = closed_form_sell(real, tokens, amount);
        assert_eq!(c.calculate_sell_price(&vault(tokens), amount, real), Ok(expected as u64));
    }
}

#[test]
fn sell_price_small_example() {
    // Seven tokens in the vault, three sold: 30_000_000_014 - 30_000_000_014 * 7 / 10.
    let c = curve();
    assert_eq!(c.calculate_sell_price(&vault(7), 3, 14), Ok(9_000_000_005));
}

#[test]
fn sell_into_an_empty_vault_returns_everything_effective() {
    let c = curve();
    assert_eq!(c.calculate_sell_price(&vault(0), 5, 100), Ok(30_000_000_100));
}

#[test]
fn sell_errors() {
    let c = curve();
    assert_eq!(c.calculate_sell_price(&vault(1_000), 0, 0), Err(ErrorCode::InvalidAmount));
    assert_eq!(c.calculate_sell_price(&vault(1_000), 1, u64::MAX), Err(ErrorCode::MathOverflow));
    assert_eq!(c.calculate_sell_price(&vault(1_000), 0, u64::MAX), Err(ErrorCode::InvalidAmount));
}

#[test]
fn tokens_for_value_matches_the_formula() {
    let c = curve();
    // 30e9 more value doubles the effective value: half of the vault comes out.
    assert_eq!(
        c.calculate_tokens_for_sol(&vault(1_000_000_000_000), 30_000_000_000, 0),
        Ok(500_000_000_000)
    );
    // k = 30_000_000_010 * 10, over 30_000_000_011: 9 stay, 1 comes out.
    assert_eq!(c.calculate_tokens_for_sol(&vault(10), 1, 10), Ok(1));
    assert_eq!(c.calculate_tokens_for_sol(&vault(0), 1, 10), Ok(0));
    // A single token comes out whole for any value.
    assert_eq!(c.calculate_tokens_for_sol(&vault(1), 1, 0), Ok(1));
    let e = 40_000_000_000u128;
    let t = 123_456_789_012_345u128;
    let v = 987_654_321u128;
    assert_eq!(
        c.calculate_tokens_for_sol(&vault(t as u64), v as u64, 10_000_000_000),
        Ok((t - e * t / (e + v)) as u64)
    );
}

#[test]
fn tokens_for_value_errors() {
    let c = curve();
    assert_eq!(c.calculate_tokens_for_sol(&vault(10), 0, 0), Err(ErrorCode::InvalidAmount));
    assert_eq!(c.calculate_tokens_for_sol(&vault(10), 1, u64::MAX), Err(ErrorCode::MathOverflow));
}

#[test]
fn buy_price_never_falls_with_the_amount() {
    let c = curve();
    let tokens = 1_000_000u64;
    let mut last = 0u64;
    let mut amount = 1u64;
    while amount < tokens {
        let price = c.calculate_buy_price(&vault(tokens), amount, 7).unwrap();
        assert!(price >= last);
        if amount > 1 {
            // Here the exact prices lie far apart, so the price rises.
            assert!(price > last);
        }
        last = price;
        amount += 9_973;
    }
}

#[test]
fn buy_price_can_stay_the_same() {
    // One and two tokens out of very many both cost less than one unit.
    let c = curve();
    assert_eq!(c.calculate_buy_price(&vault(1_000_000_000_000), 1, 0), Ok(0));
    assert_eq!(c.calculate_buy_price(&vault(1_000_000_000_000), 2, 0), Ok(0));
    assert_eq!(c.calculate_buy_price(&vault(1_000_000_000_000), 34, 0), Ok(1));
}

#[test]
fn sell_price_never_falls_with_the_amount() {
    let c = curve();
    let tokens = 1_000_000u64;
    let mut last = 0u64;
    let mut amount = 1u64;
    while amount < 3 * tokens {
        let price = c.calculate_sell_price(&vault(tokens), amount, 7).unwrap();
        assert!(price >= last);
        last = price;
        amount += 9_973;
    }
}

#[test]
fn selling_back_returns_the_price_or_one_more() {
    let c = curve();
    let cases: [(u64, u64, u64); 5] = [
        (0, 1_000_000_000_000, 1),
        (0, 1_000_000_000_000, 1_000_000),
        (10, 10, 3),
        (79_000_000_000, 500_000_000_000_000, 250_000_000_000_000),
        (0, 2, 1),
    ];
    for (real, tokens, amount) in cases {
        let cost = c.calculate_buy_price(&vault(tokens), amount, real).unwrap();
        let back = c.calculate_sell_price(&vault(tokens - amount), amount, real + cost).unwrap();
        assert!(back == cost || back == cost + 1);
        let e = real as u128 + VIRTUAL_SOL_AMOUNT as u128;
        let exact = (e * tokens as u128) % (tokens as u128 - amount as u128) == 0;
        assert_eq!(back == cost, exact);
    }
}

#[test]
fn selling_back_one_token_returns_more_than_it_cost() {
    let c = curve();
    assert_eq!(c.calculate_buy_price(&vault(1_000_000_000_000), 1, 0), Ok(0));
    assert_eq!(c.calculate_sell_price(&vault(999_999_999_999), 1, 0), Ok(1));
}

#[test]
fn product_after_a_purchase() {
    let c = curve();
    let (real, tokens, amount) = (10u64, 10u64, 3u64);
    let cost = c.calculate_buy_price(&vault(tokens), amount, real).unwrap();
    let before = (real as u128 + VIRTUAL_SOL_AMOUNT as u128) * tokens as u128;
    let after = (real as u128 + cost as u128 + VIRTUAL_SOL_AMOUNT as u128) * (tokens - amount) as u128;
    assert_eq!(after, before - before % (tokens - amount) as u128);
    assert_eq!(before, 300_000_000_100);
    assert_eq!(after, 300_000_000_097);
}

#[test]
fn fee_is_one_percent_rounded_down() {
    assert_eq!(calculate_fee(0, false), 0);
    assert_eq!(calculate_fee(99, false), 0);
    assert_eq!(calculate_fee(100, false), 1);
    assert_eq!(calculate_fee(199, false), 1);
    assert_eq!(calculate_fee(30_000, false), 300);
    assert_eq!(calculate_fee(u64::MAX, false), 184_467_440_737_095_516);
}

#[test]
fn subscribers_pay_no_fee() {
    assert_eq!(calculate_fee(0, true), 0);
    assert_eq!(calculate_fee(30_000, true), 0);
    assert_eq!(calculate_fee(u64::MAX, true), 0);
}
