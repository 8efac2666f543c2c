use vstd::prelude::*;
use vstd::arithmetic::div_mod::{lemma_fundamental_div_mod, lemma_fundamental_div_mod_converse_div, lemma_mod_bound};
use crate::utils::constants::{BPS_DENOMINATOR, TRADE_FEE_BPS};
use crate::utils::error::ErrorCode;

verus! {

/// Value balance at which a curve stops trading and hands its reserves over.
pub const MIGRATION_THRESHOLD: u64 = 80_000_000_000;

/// Value that is added to a curve's balance whenever a price is computed.
/// It is never held and never moved.
pub const VIRTUAL_SOL_AMOUNT: u64 = 30_000_000_000;

/// The value that prices are computed from: what the curve holds, and the
/// padding.
pub open spec fn effective_value(real_value: int) -> int {
    real_value + VIRTUAL_SOL_AMOUNT as int
}

/// The product that a trade keeps, up to rounding: effective value times the
/// tokens in the vault.
pub open spec fn invariant_product(real_value: int, tokens: int) -> int {
    effective_value(real_value) * tokens
}

/// Value to pay for taking `amount` tokens out of a vault of `tokens`: the
/// effective value that keeps the product with the remaining tokens, rounded
/// down, less the present effective value.
pub open spec fn buy_cost(real_value: int, tokens: int, amount: int) -> int
    recommends
        0 <= real_value,
        0 <= amount < tokens,
{
    invariant_product(real_value, tokens) / (tokens - amount) - effective_value(real_value)
}

/// Value to receive for putting `amount` tokens into a vault of `tokens`: the
/// present effective value, less the one that keeps the product with the
/// larger vault, rounded down.
pub open spec fn sell_return(real_value: int, tokens: int, amount: int) -> int
    recommends
        0 <= real_value,
        0 <= tokens,
        0 < amount,
{
    effective_value(real_value) - invariant_product(real_value, tokens) / (tokens + amount)
}

/// Tokens to receive for adding `value_in` to the curve: the present vault,
/// less the one that keeps the product with the larger value, rounded down.
pub open spec fn tokens_for_value(real_value: int, tokens: int, value_in: int) -> int
    recommends
        0 <= real_value,
        0 <= tokens,
        0 <= value_in,
{
    tokens - invariant_product(real_value, tokens) / (effective_value(real_value) + value_in)
}

/// The fee on a trade worth `base`: `TRADE_FEE_BPS` hundredths of a percent of
/// it, rounded down; nothing for a subscriber.
pub open spec fn trade_fee(base: int, is_subscribed: bool) -> int {
    if is_subscribed {
        0
    } else {
        base * TRADE_FEE_BPS as int / BPS_DENOMINATOR as int
    }
}

/// What asking for the price of buying `amount` tokens gives.
pub open spec fn buy_quote(real_value: u64, tokens: u64, amount: u64) -> Result<u64, ErrorCode> {
    if amount == 0 {
        Err(ErrorCode::InvalidAmount)
    } else if amount >= tokens {
        Err(ErrorCode::InsufficientLiquidity)
    } else if effective_value(real_value as int) > u64::MAX {
        Err(ErrorCode::MathOverflow)
    } else if buy_cost(real_value as int, tokens as int, amount as int) > u64::MAX {
        Err(ErrorCode::MathOverflow)
    } else {
        Ok(buy_cost(real_value as int, tokens as int, amount as int) as u64)
    }
}

/// What asking for the price of selling `amount` tokens gives.
pub open spec fn sell_quote(real_value: u64, tokens: u64, amount: u64) -> Result<u64, ErrorCode> {
    if amount == 0 {
        Err(ErrorCode::InvalidAmount)
    } else if effective_value(real_value as int) > u64::MAX {
        Err(ErrorCode::MathOverflow)
    } else {
        Ok(sell_return(real_value as int, tokens as int, amount as int) as u64)
    }
}

/// What asking how many tokens `value_in` buys gives.
pub open spec fn tokens_quote(real_value: u64, tokens: u64, value_in: u64) -> Result<u64, ErrorCode> {
    if value_in == 0 {
        Err(ErrorCode::InvalidAmount)
    } else if effective_value(real_value as int) > u64::MAX {
        Err(ErrorCode::MathOverflow)
    } else {
        Ok(tokens_for_value(real_value as int, tokens as int, value_in as int) as u64)
    }
}

/// A quotient by a positive number, times that number, is the largest
/// multiple that does not exceed the dividend.
pub(crate) proof fn lemma_quotient_bounds(x: int, d: int)
    requires
        0 < d,
    ensures
        (x / d) * d <= x < (x / d) * d + d,
        x - (x / d) * d == x % d,
{
    lemma_fundamental_div_mod(x, d);
    lemma_mod_bound(x, d);
    assert(d * (x / d) == (x / d) * d) by (nonlinear_arith);
}

/// A number whose multiple brackets the dividend is the quotient.
pub(crate) proof fn lemma_quotient_unique(x: int, d: int, q: int)
    requires
        0 < d,
        q * d <= x < q * d + d,
    ensures
        x / d == q,
{
    lemma_fundamental_div_mod_converse_div(x, d, q, x - q * d);
}

/// A price to pay is never negative.
pub proof fn lemma_buy_cost_bounds(real_value: int, tokens: int, amount: int)
    requires
        0 <= real_value,
        0 <= amount < tokens,
    ensures
        0 <= buy_cost(real_value, tokens, amount),
{
    let e = effective_value(real_value);
    let n = tokens - amount;
    let k = invariant_product(real_value, tokens);
    assert(0 <= e * n <= k) by (nonlinear_arith)
        requires
            k == e * tokens,
            0 < n <= tokens,
            0 <= e,
    ;
    lemma_quotient_monotonic(e * n, k, n, n);
    lemma_quotient_unique(e * n, n, e);
}

/// A price to receive is never negative and never more than the effective
/// value, so that it fits wherever the effective value does.
pub proof fn lemma_sell_return_bounds(real_value: int, tokens: int, amount: int)
    requires
        0 <= real_value,
        0 <= tokens,
        0 < amount,
    ensures
        0 <= sell_return(real_value, tokens, amount) <= effective_value(real_value),
{
    let e = effective_value(real_value);
    let n = tokens + amount;
    let k = invariant_product(real_value, tokens);
    assert(0 <= k <= e * n) by (nonlinear_arith)
        requires
            k == e * tokens,
            0 <= tokens <= n,
            0 <= e,
    ;
    lemma_quotient_monotonic(k, e * n, n, n);
    lemma_quotient_monotonic(0, k, n, n);
    lemma_quotient_unique(e * n, n, e);
}

/// The tokens that a value buys are never more than the vault holds.
pub proof fn lemma_tokens_for_value_bounds(real_value: int, tokens: int, value_in: int)
    requires
        0 <= real_value,
        0 <= tokens,
        0 <= value_in,
    ensures
        0 <= tokens_for_value(real_value, tokens, value_in) <= tokens,
{
    let e = effective_value(real_value);
    let n = e + value_in;
    let k = invariant_product(real_value, tokens);
    assert(0 <= k <= tokens * n) by (nonlinear_arith)
        requires
            k == e * tokens,
            0 <= e <= n,
            0 <= tokens,
    ;
    lemma_quotient_monotonic(k, tokens * n, n, n);
    lemma_quotient_monotonic(0, k, n, n);
    lemma_quotient_unique(tokens * n, n, tokens);
}

/// A quotient does not shrink when the dividend grows, nor when a positive
/// divisor shrinks.
pub(crate) proof fn lemma_quotient_monotonic(x: int, y: int, d: int, e: int)
    requires
        0 <= x <= y,
        0 < e <= d,
    ensures
        x / d <= y / e,
{
    lemma_quotient_bounds(x, d);
    lemma_quotient_bounds(y, e);
    let p = x / d;
    let q = y / e;
    if p > q {
        assert(p * d >= (q + 1) * e) by (nonlinear_arith)
            requires
                p >= q + 1,
                q + 1 >= 1,
                d >= e,
                e > 0,
                p * d <= x,
                0 <= x,
        {
            assert(p * d >= (q + 1) * d);
            assert((q + 1) * d >= (q + 1) * e);
        }
        assert((q + 1) * e == q * e + e) by (nonlinear_arith);
    }
}

} // verus!
