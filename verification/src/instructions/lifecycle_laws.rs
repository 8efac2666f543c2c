use vstd::prelude::*;
use crate::instructions::buy::{
    after_purchase, buy_outcome, buy_with_sol_outcome, purchase_outcome, Buy, BuySettlement,
};
use crate::instructions::migrate::{migrated, migration_outcome, MigrationSettlement};
use crate::instructions::sell::{sell_outcome, Sell, SellSettlement};
use crate::state::curve_config::MigrationStatus;
use crate::state::curve_laws::{after_trade, Reserves, Trade};
use crate::state::curve_math::{
    buy_cost, buy_quote, lemma_buy_cost_bounds, lemma_sell_return_bounds, sell_quote, sell_return,
    trade_fee, MIGRATION_THRESHOLD,
};
use crate::utils::error::ErrorCode;
use crate::utils::fee::lemma_fee_bounds;

verus! {

/// What a purchase of `amount` tokens costs in all, fee included, where the
/// curve quotes a price for it.
pub open spec fn total_cost(ctx: Buy, amount: u64, is_subscribed: bool) -> int
    recommends
        buy_quote(ctx.curve_lamports, ctx.token_vault.amount, amount) is Ok,
{
    let base_price = buy_quote(ctx.curve_lamports, ctx.token_vault.amount, amount)->Ok_0;
    base_price + trade_fee(base_price as int, is_subscribed)
}

/// On an active curve, a purchase of no tokens is refused with
/// `InvalidAmount`, and a purchase of as many tokens as the vault holds, or
/// of more, with `InsufficientLiquidity`, whatever the reserves and the bound.
pub proof fn lemma_purchase_boundaries(ctx: Buy, amount: u64, max_sol_cost: u64, is_subscribed: bool)
    requires
        ctx.curve.config.migration_status == MigrationStatus::Active,
    ensures
        amount == 0 ==> buy_outcome(ctx, amount, max_sol_cost, is_subscribed) == Err::<
            BuySettlement,
            ErrorCode,
        >(ErrorCode::InvalidAmount),
        amount > 0 && amount >= ctx.token_vault.amount ==> buy_outcome(
            ctx,
            amount,
            max_sol_cost,
            is_subscribed,
        ) == Err::<BuySettlement, ErrorCode>(ErrorCode::InsufficientLiquidity),
{
}

/// Fees go past the reserves: a purchase adds exactly its price to the
/// curve, and the fee is paid on top of it; a sale takes exactly its price
/// out of the curve, which holds it, and the seller and the fee collector
/// share it.
pub proof fn lemma_reserves_change_by_the_price(
    buy: Buy,
    sell: Sell,
    amount: u64,
    bound: u64,
    is_subscribed: bool,
)
    ensures
        buy_outcome(buy, amount, bound, is_subscribed) matches Ok(bought) ==> {
            &&& bought.token_amount == amount
            &&& bought.curve_amount == buy_cost(
                buy.curve_lamports as int,
                buy.token_vault.amount as int,
                amount as int,
            )
            &&& bought.fee_amount == trade_fee(bought.curve_amount as int, is_subscribed)
            &&& bought.curve_amount + bought.fee_amount <= bound
        },
        sell_outcome(sell, amount, bound, is_subscribed) matches Ok(sold) ==> {
            &&& sold.token_amount == amount
            &&& sold.curve_amount == sell_return(
                sell.curve_lamports as int,
                sell.token_vault.amount as int,
                amount as int,
            )
            &&& sold.fee_amount == trade_fee(sold.curve_amount as int, is_subscribed)
            &&& sold.curve_amount <= sell.curve_lamports
            &&& sold.seller_amount + sold.fee_amount == sold.curve_amount
            &&& sold.seller_amount >= bound
        },
{
    if buy_outcome(buy, amount, bound, is_subscribed) is Ok {
        lemma_buy_cost_bounds(buy.curve_lamports as int, buy.token_vault.amount as int, amount as int);
        let base_price = buy_quote(buy.curve_lamports, buy.token_vault.amount, amount)->Ok_0;
        lemma_fee_bounds(base_price as int, is_subscribed);
    }
    if sell_outcome(sell, amount, bound, is_subscribed) is Ok {
        lemma_sell_return_bounds(
            sell.curve_lamports as int,
            sell.token_vault.amount as int,
            amount as int,
        );
        let base_price = sell_quote(sell.curve_lamports, sell.token_vault.amount, amount)->Ok_0;
        lemma_fee_bounds(base_price as int, is_subscribed);
    }
}

/// The trades that are accepted are those of the model of reserves: a
/// purchase or a sale that succeeds changes the reserves as `after_trade`
/// says, by its price and its tokens. So what is proved of sequences of
/// trades in the model holds of the trades that the curve accepts.
pub proof fn lemma_accepted_trades_follow_the_model(
    buy: Buy,
    sell: Sell,
    amount: u64,
    bound: u64,
    is_subscribed: bool,
)
    ensures
        buy_outcome(buy, amount, bound, is_subscribed) matches Ok(bought) ==> after_trade(
            Reserves { real_value: buy.curve_lamports as int, tokens: buy.token_vault.amount as int },
            Trade::Buy { amount: amount as int },
        ) == (Reserves {
            real_value: buy.curve_lamports + bought.curve_amount,
            tokens: buy.token_vault.amount - bought.token_amount,
        }),
        sell_outcome(sell, amount, bound, is_subscribed) matches Ok(sold) ==> after_trade(
            Reserves { real_value: sell.curve_lamports as int, tokens: sell.token_vault.amount as int },
            Trade::Sell { amount: amount as int },
        ) == (Reserves {
            real_value: sell.curve_lamports - sold.curve_amount,
            tokens: sell.token_vault.amount + sold.token_amount,
        }),
{
    lemma_reserves_change_by_the_price(buy, sell, amount, bound, is_subscribed);
}

/// The bound on the cost of a purchase is exact.
///
/// On an active curve that quotes a price, with a total cost that fits in 64
/// bits: a bound one unit below the total cost is refused with
/// `PriceExceedsMaxCost`; with the total cost as the bound the purchase is
/// accepted, and it succeeds unless it leads to a migration that cannot be
/// carried out; in particular it succeeds where the curve stays below the
/// threshold.
pub proof fn lemma_slippage_bound(ctx: Buy, amount: u64, is_subscribed: bool)
    requires
        ctx.curve.config.migration_status == MigrationStatus::Active,
        buy_quote(ctx.curve_lamports, ctx.token_vault.amount, amount) is Ok,
        total_cost(ctx, amount, is_subscribed) <= u64::MAX,
    ensures
        ({
            let base_price = buy_quote(ctx.curve_lamports, ctx.token_vault.amount, amount)->Ok_0;
            let fee = trade_fee(base_price as int, is_subscribed) as u64;
            let total = total_cost(ctx, amount, is_subscribed);
            &&& total >= 1 ==> buy_outcome(ctx, amount, (total - 1) as u64, is_subscribed) == Err::<
                BuySettlement,
                ErrorCode,
            >(ErrorCode::PriceExceedsMaxCost)
            &&& buy_outcome(ctx, amount, total as u64, is_subscribed) == purchase_outcome(
                ctx,
                amount,
                base_price,
                fee,
                is_subscribed,
            )
            &&& ctx.curve_lamports + base_price < MIGRATION_THRESHOLD ==> buy_outcome(
                ctx,
                amount,
                total as u64,
                is_subscribed,
            ) is Ok
        }),
{
    let base_price = buy_quote(ctx.curve_lamports, ctx.token_vault.amount, amount)->Ok_0;
    lemma_fee_bounds(base_price as int, is_subscribed);
}

/// A purchase that succeeds and lifts the curve's value to the threshold
/// migrates the curve within the same call: the settlement carries the
/// migration of the reserves as the purchase leaves them, and the curve is
/// marked as migrated. A purchase that stays below the threshold carries no
/// migration and leaves the curve as it was.
pub proof fn lemma_purchase_at_threshold_migrates(
    ctx: Buy,
    amount: u64,
    max_sol_cost: u64,
    is_subscribed: bool,
)
    requires
        buy_outcome(ctx, amount, max_sol_cost, is_subscribed) is Ok,
    ensures
        ({
            let res = buy_outcome(ctx, amount, max_sol_cost, is_subscribed);
            let settlement = res->Ok_0;
            let new_value = ctx.curve_lamports + settlement.curve_amount;
            let new_tokens = ctx.token_vault.amount - amount;
            &&& settlement.token_amount == amount
            &&& 0 < new_tokens
            &&& new_value >= MIGRATION_THRESHOLD ==> {
                &&& after_purchase(ctx, res).curve.config.migration_status == MigrationStatus::Migrated
                &&& migration_outcome(
                    ctx.curve.config,
                    ctx.mint,
                    new_value as u64,
                    new_tokens as u64,
                    ctx.rent_exempt_balance,
                ) == Ok::<MigrationSettlement, ErrorCode>(settlement.migration->Some_0)
                &&& settlement.migration is Some
            }
            &&& new_value < MIGRATION_THRESHOLD ==> {
                &&& settlement.migration is None
                &&& after_purchase(ctx, res) == ctx
            }
        }),
{
}

/// A curve that is not active refuses every purchase, every sale and every
/// migration with `MigrationComplete`, whatever the reserves and the
/// arguments.
pub proof fn lemma_inactive_curve_refuses(
    buy: Buy,
    sell: Sell,
    amount: u64,
    bound: u64,
    is_subscribed: bool,
    real_value: u64,
    tokens: u64,
    rent_exempt_balance: u64,
)
    requires
        buy.curve.config.migration_status != MigrationStatus::Active,
        sell.curve.config.migration_status != MigrationStatus::Active,
    ensures
        buy_outcome(buy, amount, bound, is_subscribed) == Err::<BuySettlement, ErrorCode>(
            ErrorCode::MigrationComplete,
        ),
        buy_with_sol_outcome(buy, amount, bound, is_subscribed) == Err::<BuySettlement, ErrorCode>(
            ErrorCode::MigrationComplete,
        ),
        sell_outcome(sell, amount, bound, is_subscribed) == Err::<SellSettlement, ErrorCode>(
            ErrorCode::MigrationComplete,
        ),
        migration_outcome(buy.curve.config, buy.mint, real_value, tokens, rent_exempt_balance) == Err::<
            MigrationSettlement,
            ErrorCode,
        >(ErrorCode::MigrationComplete),
{
}

/// After a purchase that lifted the curve to the threshold, every further
/// purchase and sale on that curve fails with `MigrationComplete`.
pub proof fn lemma_no_trade_after_migration(
    ctx: Buy,
    amount: u64,
    max_sol_cost: u64,
    is_subscribed: bool,
    next_buy: Buy,
    next_sell: Sell,
    next_amount: u64,
    next_bound: u64,
    next_is_subscribed: bool,
)
    requires
        buy_outcome(ctx, amount, max_sol_cost, is_subscribed) is Ok,
        ctx.curve_lamports + (buy_outcome(ctx, amount, max_sol_cost, is_subscribed)->Ok_0).curve_amount
            >= MIGRATION_THRESHOLD,
        next_buy.curve == after_purchase(
            ctx,
            buy_outcome(ctx, amount, max_sol_cost, is_subscribed),
        ).curve,
        next_sell.curve == next_buy.curve,
    ensures
        buy_outcome(next_buy, next_amount, next_bound, next_is_subscribed) == Err::<
            BuySettlement,
            ErrorCode,
        >(ErrorCode::MigrationComplete),
        buy_with_sol_outcome(next_buy, next_amount, next_bound, next_is_subscribed) == Err::<
            BuySettlement,
            ErrorCode,
        >(ErrorCode::MigrationComplete),
        sell_outcome(next_sell, next_amount, next_bound, next_is_subscribed) == Err::<
            SellSettlement,
            ErrorCode,
        >(ErrorCode::MigrationComplete),
{
    lemma_purchase_at_threshold_migrates(ctx, amount, max_sol_cost, is_subscribed);
}

/// The only change that a purchase ever makes to the accounts is to mark an
/// active curve as migrated: no status is left but `Active`, and none is
/// entered but `Migrated`.
pub proof fn lemma_status_moves_one_way(ctx: Buy, amount: u64, bound: u64, is_subscribed: bool)
    ensures
        ({
            let after = after_purchase(ctx, buy_outcome(ctx, amount, bound, is_subscribed));
            after == ctx || (ctx.curve.config.migration_status == MigrationStatus::Active && after == (Buy {
                curve: migrated(ctx.curve),
                ..ctx
            }))
        }),
        ({
            let after = after_purchase(ctx, buy_with_sol_outcome(ctx, amount, bound, is_subscribed));
            after == ctx || (ctx.curve.config.migration_status == MigrationStatus::Active && after == (Buy {
                curve: migrated(ctx.curve),
                ..ctx
            }))
        }),
{
}

} // verus!
