use vstd::prelude::*;
use crate::state::accounts::{Pubkey, TokenAccount};
use crate::state::bonding_curve::BondingCurve;
use crate::state::curve_config::MigrationStatus;
use crate::state::curve_math::{buy_quote, sell_quote, tokens_quote};
use crate::utils::error::ErrorCode;

verus! {

/// What a price query reads: the curve and its reserves.
#[derive(Debug, PartialEq, Eq)]
pub struct GetPrice {
    pub mint: Pubkey,
    pub curve: BondingCurve,
    /// Value that the curve holds.
    pub curve_lamports: u64,
    /// The vault; its amount is the curve's token reserve.
    pub token_vault: TokenAccount,
}

/// The price of `amount` tokens, before the fee: what a buyer pays for them
/// if `is_buy`, what a seller receives for them if not.
///
/// The answer does not depend on whether the curve is still trading.
pub fn calculate_price(ctx: &GetPrice, amount: u64, is_buy: bool) -> (res: Result<u64, ErrorCode>)
    ensures
        is_buy ==> res == buy_quote(ctx.curve_lamports, ctx.token_vault.amount, amount),
        !is_buy ==> res == sell_quote(ctx.curve_lamports, ctx.token_vault.amount, amount),
{
    if is_buy {
        ctx.curve.calculate_buy_price(&ctx.token_vault, amount, ctx.curve_lamports)
    } else {
        ctx.curve.calculate_sell_price(&ctx.token_vault, amount, ctx.curve_lamports)
    }
}

/// Where the curve stands in its life.
pub fn get_migration_status(ctx: &GetPrice) -> (res: Result<MigrationStatus, ErrorCode>)
    ensures
        res == Ok::<MigrationStatus, ErrorCode>(ctx.curve.config.migration_status),
{
    Ok(ctx.curve.config.migration_status)
}

/// The tokens that `sol_amount` of value buys, before the fee.
pub fn calculate_tokens_for_sol(ctx: &GetPrice, sol_amount: u64) -> (res: Result<u64, ErrorCode>)
    ensures
        res == tokens_quote(ctx.curve_lamports, ctx.token_vault.amount, sol_amount),
{
    ctx.curve.calculate_tokens_for_sol(&ctx.token_vault, sol_amount, ctx.curve_lamports)
}

} // verus!
