use vstd::prelude::*;
use crate::instructions::migrate::{migrated, migration_outcome, plan_migration, MigrationSettlement};
use crate::state::accounts::{Pubkey, TokenAccount};
use crate::state::bonding_curve::BondingCurve;
use crate::state::curve_config::MigrationStatus;
use crate::state::curve_math::{buy_quote, tokens_quote, trade_fee, MIGRATION_THRESHOLD};
use crate::state::events::BuyEvent;
use crate::utils::error::ErrorCode;
use crate::utils::fee::calculate_fee;

verus! {

/// What a purchase reads: who buys, the curve, its reserves, and the balance
/// that the curve's account has to keep if the purchase leads to a migration.
#[derive(Debug, PartialEq, Eq)]
pub struct Buy {
    pub buyer: Pubkey,
    pub mint: Pubkey,
    pub curve: BondingCurve,
    /// Value that the curve holds.
    pub curve_lamports: u64,
    /// The vault; its amount is the curve's token reserve.
    pub token_vault: TokenAccount,
    /// Value that has to stay in the curve's account when it migrates.
    pub rent_exempt_balance: u64,
}

/// The movements that carry a purchase out, in the order in which they are
/// made.
#[derive(Clone, Copy, Debug, PartialEq, Eq)]
pub struct BuySettlement {
    /// Value to move from the buyer to the curve.
    pub curve_amount: u64,
    /// Value to move from the buyer to the fee collector; nothing is moved
    /// when it is zero.
    pub fee_amount: u64,
    /// Tokens to move from the vault to the buyer.
    pub token_amount: u64,
    pub event: BuyEvent,
    /// The migration that the purchase led to, to be carried out after the
    /// movements above.
    pub migration: Option<MigrationSettlement>,
}

/// What is left to decide once a purchase is priced and accepted: whether the
/// curve, with `curve_amount` more value and `token_amount` fewer tokens, has
/// reached the threshold, and the migration if it has.
///
/// A migration that cannot be carried out makes the whole purchase fail.
pub open spec fn purchase_outcome(
    ctx: Buy,
    token_amount: u64,
    curve_amount: u64,
    fee_amount: u64,
    is_subscribed: bool,
) -> Result<BuySettlement, ErrorCode> {
    let event = BuyEvent {
        mint: ctx.mint,
        amount: token_amount,
        sol_amount: curve_amount,
        buyer: ctx.buyer,
        is_subscribed,
    };
    let new_value = ctx.curve_lamports + curve_amount;
    let new_tokens = ctx.token_vault.amount - token_amount;
    if new_value > u64::MAX {
        Err(ErrorCode::MathOverflow)
    } else if new_value < MIGRATION_THRESHOLD {
        Ok(BuySettlement { curve_amount, fee_amount, token_amount, event, migration: None })
    } else {
        match migration_outcome(
            ctx.curve.config,
            ctx.mint,
            new_value as u64,
            new_tokens as u64,
            ctx.rent_exempt_balance,
        ) {
            Ok(migration) => Ok(
                BuySettlement { curve_amount, fee_amount, token_amount, event, migration: Some(migration) },
            ),
            Err(e) => Err(e),
        }
    }
}

/// What buying `amount` tokens for at most `max_sol_cost` gives.
///
/// The curve has to be active. The price is the curve's; the fee comes on
/// top of it, and the two together may not exceed `max_sol_cost`.
pub open spec fn buy_outcome(ctx: Buy, amount: u64, max_sol_cost: u64, is_subscribed: bool) -> Result<
    BuySettlement,
    ErrorCode,
> {
    if ctx.curve.config.migration_status != MigrationStatus::Active {
        Err(ErrorCode::MigrationComplete)
    } else {
        match buy_quote(ctx.curve_lamports, ctx.token_vault.amount, amount) {
            Err(e) => Err(e),
            Ok(base_price) => {
                let fee = trade_fee(base_price as int, is_subscribed);
                if base_price + fee > u64::MAX {
                    Err(ErrorCode::MathOverflow)
                } else if base_price + fee > max_sol_cost {
                    Err(ErrorCode::PriceExceedsMaxCost)
                } else {
                    purchase_outcome(ctx, amount, base_price, fee as u64, is_subscribed)
                }
            },
        }
    }
}

/// What spending `sol_amount` on at least `min_token_amount` tokens gives.
///
/// The curve has to be active. The tokens are what the curve gives for the
/// value; the fee comes on top of the value.
pub open spec fn buy_with_sol_outcome(
    ctx: Buy,
    sol_amount: u64,
    min_token_amount: u64,
    is_subscribed: bool,
) -> Result<BuySettlement, ErrorCode> {
    if ctx.curve.config.migration_status != MigrationStatus::Active {
        Err(ErrorCode::MigrationComplete)
    } else {
        match tokens_quote(ctx.curve_lamports, ctx.token_vault.amount, sol_amount) {
            Err(e) => Err(e),
            Ok(token_amount) => {
                if token_amount < min_token_amount {
                    Err(ErrorCode::SlippageExceeded)
                } else {
                    purchase_outcome(
                        ctx,
                        token_amount,
                        sol_amount,
                        trade_fee(sol_amount as int, is_subscribed) as u64,
                        is_subscribed,
                    )
                }
            },
        }
    }
}

/// The accounts as a purchase with the given result leaves them: the curve is
/// marked as migrated if the purchase led to a migration, and nothing else
/// changes.
pub open spec fn after_purchase(ctx: Buy, res: Result<BuySettlement, ErrorCode>) -> Buy {
    match res {
        Ok(settlement) => if settlement.migration is Some {
            Buy { curve: migrated(ctx.curve), ..ctx }
        } else {
            ctx
        },
        Err(_) => ctx,
    }
}

/// Decides what follows a purchase that is priced and accepted, and marks the
/// curve as migrated if the purchase lifts it to the threshold.
fn settle_purchase(
    ctx: &mut Buy,
    token_amount: u64,
    curve_amount: u64,
    fee_amount: u64,
    is_subscribed: bool,
) -> (res: Result<BuySettlement, ErrorCode>)
    requires
        token_amount <= old(ctx).token_vault.amount,
    ensures
        res == purchase_outcome(*old(ctx), token_amount, curve_amount, fee_amount, is_subscribed),
        *final(ctx) == after_purchase(*old(ctx), res),
{
    let event = BuyEvent {
        mint: ctx.mint,
        amount: token_amount,
        sol_amount: curve_amount,
        buyer: ctx.buyer,
        is_subscribed,
    };
    let new_curve_lamports: u64 = match ctx.curve_lamports.checked_add(curve_amount) {
        Some(lamports) => lamports,
        None => { return Err(ErrorCode::MathOverflow); },
    };
    if new_curve_lamports < MIGRATION_THRESHOLD {
        return Ok(BuySettlement { curve_amount, fee_amount, token_amount, event, migration: None });
    }
    let vault_balance: u64 = ctx.token_vault.amount - token_amount;
    let migration = plan_migration(
        &ctx.curve.config,
        ctx.mint,
        new_curve_lamports,
        vault_balance,
        ctx.rent_exempt_balance,
    )?;
    ctx.curve.config.migration_status = MigrationStatus::Migrated;
    Ok(BuySettlement { curve_amount, fee_amount, token_amount, event, migration: Some(migration) })
}

/// Buys `amount` tokens for at most `max_sol_cost`.
///
/// On an error nothing changes. On success the settlement says what has to
/// be moved; if the purchase lifts the curve's value to the threshold, the
/// curve is migrated within the same call.
pub fn handler(ctx: &mut Buy, amount: u64, max_sol_cost: u64, is_subscribed: bool) -> (res: Result<
    BuySettlement,
    ErrorCode,
>)
    ensures
        res == buy_outcome(*old(ctx), amount, max_sol_cost, is_subscribed),
        *final(ctx) == after_purchase(*old(ctx), res),
{
    if !ctx.curve.config.is_active() {
        return Err(ErrorCode::MigrationComplete);
    }
    let curve_lamports: u64 = ctx.curve_lamports;
    let base_price: u64 = ctx.curve.calculate_buy_price(&ctx.token_vault, amount, curve_lamports)?;
    let fee_amount: u64 = calculate_fee(base_price, is_subscribed);

    let total_cost: u64 = match base_price.checked_add(fee_amount) {
        Some(total) => total,
        None => { return Err(ErrorCode::MathOverflow); },
    };
    if total_cost > max_sol_cost {
        return Err(ErrorCode::PriceExceedsMaxCost);
    }
    settle_purchase(ctx, amount, base_price, fee_amount, is_subscribed)
}

/// Spends `sol_amount` on tokens, of which there have to be at least
/// `min_token_amount`.
///
/// On an error nothing changes. On success the settlement says what has to
/// be moved; if the purchase lifts the curve's value to the threshold, the
/// curve is migrated within the same call.
pub fn handler_with_sol(ctx: &mut Buy, sol_amount: u64, min_token_amount: u64, is_subscribed: bool) -> (res:
    Result<BuySettlement, ErrorCode>)
    ensures
        res == buy_with_sol_outcome(*old(ctx), sol_amount, min_token_amount, is_subscribed),
        *final(ctx) == after_purchase(*old(ctx), res),
{
    if !ctx.curve.config.is_active() {
        return Err(ErrorCode::MigrationComplete);
    }
    let curve_lamports: u64 = ctx.curve_lamports;
    let token_amount: u64 = ctx.curve.calculate_tokens_for_sol(&ctx.token_vault, sol_amount, curve_lamports)?;
    if token_amount < min_token_amount {
        return Err(ErrorCode::SlippageExceeded);
    }
    let fee_amount: u64 = calculate_fee(sol_amount, is_subscribed);
    proof {
        crate::state::curve_math::lemma_tokens_for_value_bounds(
            curve_lamports as int,
            ctx.token_vault.amount as int,
            sol_amount as int,
        );
    }
    settle_purchase(ctx, token_amount, sol_amount, fee_amount, is_subscribed)
}

} // verus!
