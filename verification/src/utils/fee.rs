use vstd::prelude::*;
use crate::state::curve_math::trade_fee;
use crate::utils::constants::{BPS_DENOMINATOR, TRADE_FEE_BPS};

verus! {

/// The fee on a trade worth `base_amount`: one percent of it, rounded down,
/// and nothing for a subscriber. It never exceeds the trade's worth.
pub fn calculate_fee(base_amount: u64, is_subscribed: bool) -> (fee: u64)
    ensures
        fee == trade_fee(base_amount as int, is_subscribed),
        fee <= base_amount,
{
    if is_subscribed {
        return 0;
    }
    let rate: u128 = TRADE_FEE_BPS as u128;
    let whole: u128 = BPS_DENOMINATOR as u128;
    assert(base_amount * rate == base_amount * 100) by (nonlinear_arith)
        requires
            rate == 100,
    ;
    let scaled: u128 = base_amount as u128 * rate;
    let fee: u128 = scaled / whole;
    fee as u64
}

/// A fee is not negative and does not exceed what it is taken from.
pub proof fn lemma_fee_bounds(base: int, is_subscribed: bool)
    requires
        0 <= base,
    ensures
        0 <= trade_fee(base, is_subscribed) <= base,
{
    assert(base * TRADE_FEE_BPS as int == base * 100) by (nonlinear_arith)
        requires
            TRADE_FEE_BPS == 100,
    ;
}

} // verus!
