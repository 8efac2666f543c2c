//! A bonding curve: a token is bought from and sold to a reserve at a price
//! that is a function of the reserve alone. This library prices the trades,
//! takes the fee, holds the trader's bounds, and moves a curve from trading
//! to migrated, once and for good, when its reserve reaches the threshold.
//!
//! The library moves no funds. Each operation reads the reserves that it is
//! given and answers with the movements that carry it out.

use vstd::prelude::*;

pub mod instructions;
pub mod state;
pub mod utils;

use crate::instructions::buy::{after_purchase, buy_outcome, Buy, BuySettlement};
use crate::instructions::create_metadata::{
    prepares_metadata, CreateMetadata, CreateMetadataParams, MetadataInvocation,
};
use crate::instructions::create_token::{launched_curve, CreateToken, CreateTokenParams};
use crate::instructions::price::GetPrice;
use crate::instructions::sell::{sell_outcome, Sell, SellSettlement};
use crate::state::curve_config::MigrationStatus;
use crate::state::curve_math::{buy_quote, sell_quote};
use crate::utils::error::ErrorCode;

verus! {

/// Sets the curve of a new token up; see `instructions::create_token::handler`.
pub fn create_token(ctx: &mut CreateToken, params: CreateTokenParams) -> (res: Result<u64, ErrorCode>)
    ensures
        params.curve_config.migration_status == MigrationStatus::Active ==> {
            &&& res == Ok::<u64, ErrorCode>(params.total_supply)
            &&& *final(ctx) == (CreateToken { curve: launched_curve(*old(ctx), params), ..*old(ctx) })
        },
        params.curve_config.migration_status != MigrationStatus::Active ==> {
            &&& res == Err::<u64, ErrorCode>(ErrorCode::InvalidCurveConfig)
            &&& *final(ctx) == *old(ctx)
        },
{
    instructions::create_token::handler(ctx, params)
}

/// Prepares the recording of a token's name; see
/// `instructions::create_metadata::handler`.
pub fn create_metadata(ctx: &CreateMetadata, params: CreateMetadataParams) -> (res: Result<
    MetadataInvocation,
    ErrorCode,
>)
    ensures
        prepares_metadata(*ctx, params, res),
{
    instructions::create_metadata::handler(ctx, params)
}

/// Buys `amount` tokens for at most `max_sol_cost`; see
/// `instructions::buy::handler`.
pub fn buy(ctx: &mut Buy, amount: u64, max_sol_cost: u64, is_subscribed: bool) -> (res: Result<
    BuySettlement,
    ErrorCode,
>)
    ensures
        res == buy_outcome(*old(ctx), amount, max_sol_cost, is_subscribed),
        *final(ctx) == after_purchase(*old(ctx), res),
{
    instructions::buy::handler(ctx, amount, max_sol_cost, is_subscribed)
}

/// Sells `amount` tokens for at least `min_sol_return`; see
/// `instructions::sell::handler`.
pub fn sell(ctx: &Sell, amount: u64, min_sol_return: u64, is_subscribed: bool) -> (res: Result<
    SellSettlement,
    ErrorCode,
>)
    ensures
        res == sell_outcome(*ctx, amount, min_sol_return, is_subscribed),
{
    instructions::sell::handler(ctx, amount, min_sol_return, is_subscribed)
}

/// The price of `amount` tokens, before the fee; see
/// `instructions::price::calculate_price`.
pub fn calculate_price(ctx: &GetPrice, amount: u64, is_buy: bool) -> (res: Result<u64, ErrorCode>)
    ensures
        is_buy ==> res == buy_quote(ctx.curve_lamports, ctx.token_vault.amount, amount),
        !is_buy ==> res == sell_quote(ctx.curve_lamports, ctx.token_vault.amount, amount),
{
    instructions::price::calculate_price(ctx, amount, is_buy)
}

} // verus!
