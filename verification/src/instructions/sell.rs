use vstd::prelude::*;
use crate::state::accounts::{Pubkey, TokenAccount};
use crate::state::bonding_curve::BondingCurve;
use crate::state::curve_config::MigrationStatus;
use crate::state::curve_math::{sell_quote, trade_fee};
use crate::state::events::SellEvent;
use crate::utils::error::ErrorCode;
use crate::utils::fee::calculate_fee;

verus! {

/// What a sale reads: who sells, the curve, and its reserves.
#[derive(Debug, PartialEq, Eq)]
pub struct Sell {
    pub seller: Pubkey,
    pub mint: Pubkey,
    pub curve: BondingCurve,
    /// Value that the curve holds.
    pub curve_lamports: u64,
    /// The vault; its amount is the curve's token reserve.
    pub token_vault: TokenAccount,
}

/// The movements that carry a sale out, in the order in which they are made.
/// The curve gives up `curve_amount`, which is `seller_amount` and
/// `fee_amount` together.
#[derive(Clone, Copy, Debug, PartialEq, Eq)]
pub struct SellSettlement {
    /// Tokens to move from the seller to the vault.
    pub token_amount: u64,
    /// Value that leaves the curve: the price of the tokens.
    pub curve_amount: u64,
    /// Value to move from the curve to the seller.
    pub seller_amount: u64,
    /// Value to move from the curve to the fee collector; nothing is moved
    /// when it is zero.
    pub fee_amount: u64,
    pub event: SellEvent,
}

/// What selling `amount` tokens for at least `min_sol_return` gives.
///
/// The curve has to be active, and it has to hold the price: a sale that the
/// curve cannot pay is refused with `InsufficientLiquidity`. The price is the
/// curve's; the fee is taken out of it, and what is left may not be less
/// than `min_sol_return`.
pub open spec fn sell_outcome(ctx: Sell, amount: u64, min_sol_return: u64, is_subscribed: bool) -> Result<
    SellSettlement,
    ErrorCode,
> {
    if ctx.curve.config.migration_status != MigrationStatus::Active {
        Err(ErrorCode::MigrationComplete)
    } else {
        match sell_quote(ctx.curve_lamports, ctx.token_vault.amount, amount) {
            Err(e) => Err(e),
            Ok(base_price) => {
                let fee = trade_fee(base_price as int, is_subscribed);
                let total_return = base_price - fee;
                if base_price > ctx.curve_lamports {
                    Err(ErrorCode::InsufficientLiquidity)
                } else if total_return < min_sol_return {
                    Err(ErrorCode::PriceBelowMinReturn)
                } else {
                    Ok(
                        SellSettlement {
                            token_amount: amount,
                            curve_amount: base_price,
                            seller_amount: total_return as u64,
                            fee_amount: fee as u64,
                            event: SellEvent {
                                mint: ctx.mint,
                                amount,
                                sol_amount: total_return as u64,
                                seller: ctx.seller,
                                is_subscribed,
                            },
                        },
                    )
                }
            },
        }
    }
}

/// Sells `amount` tokens for at least `min_sol_return`.
///
/// The settlement says what has to be moved; the curve holds what it gives
/// up. A sale never migrates a curve, and changes nothing of it.
pub fn handler(ctx: &Sell, amount: u64, min_sol_return: u64, is_subscribed: bool) -> (res: Result<
    SellSettlement,
    ErrorCode,
>)
    ensures
        res == sell_outcome(*ctx, amount, min_sol_return, is_subscribed),
{
    if !ctx.curve.config.is_active() {
        return Err(ErrorCode::MigrationComplete);
    }
    let base_price: u64 = ctx.curve.calculate_sell_price(&ctx.token_vault, amount, ctx.curve_lamports)?;
    if base_price > ctx.curve_lamports {
        return Err(ErrorCode::InsufficientLiquidity);
    }
    let fee_amount: u64 = calculate_fee(base_price, is_subscribed);
    let total_return: u64 = base_price - fee_amount;
    if total_return < min_sol_return {
        return Err(ErrorCode::PriceBelowMinReturn);
    }
    Ok(
        SellSettlement {
            token_amount: amount,
            curve_amount: base_price,
            seller_amount: total_return,
            fee_amount,
            event: SellEvent {
                mint: ctx.mint,
                amount,
                sol_amount: total_return,
                seller: ctx.seller,
                is_subscribed,
            },
        },
    )
}

} // verus!
