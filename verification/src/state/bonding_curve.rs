use vstd::prelude::*;
use crate::state::accounts::{Pubkey, TokenAccount};
use crate::state::curve_config::CurveConfig;
use crate::state::curve_math::{
    buy_quote, effective_value, lemma_buy_cost_bounds, lemma_sell_return_bounds,
    lemma_tokens_for_value_bounds, sell_quote, tokens_quote, VIRTUAL_SOL_AMOUNT,
};
use crate::utils::error::ErrorCode;

verus! {

/// One curve: the token it sells, its settings, and how its address was
/// derived. The reserves are not part of it: they are read from the ledger
/// for every operation.
#[derive(Debug, PartialEq, Eq)]
pub struct BondingCurve {
    pub mint: Pubkey,
    pub config: CurveConfig,
    pub bump: u8,
    pub token_seed: String,
}

impl Clone for BondingCurve {
    fn clone(&self) -> (copy: BondingCurve)
        ensures
            copy == *self,
    {
        BondingCurve {
            mint: self.mint,
            config: self.config,
            bump: self.bump,
            token_seed: self.token_seed.clone(),
        }
    }
}

impl BondingCurve {
    /// The two quantities that prices are computed from: the curve's balance
    /// with the padding added, and the tokens in the vault.
    ///
    /// Fails with `MathOverflow` exactly when the padded balance does not fit
    /// in 64 bits.
    pub fn get_effective_amounts(&self, token_vault: &TokenAccount, curve_lamports: u64) -> (res: Result<(u64, u64), ErrorCode>)
        ensures
            effective_value(curve_lamports as int) <= u64::MAX ==> res == Ok::<(u64, u64), ErrorCode>(
                (effective_value(curve_lamports as int) as u64, token_vault.amount),
            ),
            effective_value(curve_lamports as int) > u64::MAX ==> res == Err::<(u64, u64), ErrorCode>(
                ErrorCode::MathOverflow,
            ),
    {
        match curve_lamports.checked_add(VIRTUAL_SOL_AMOUNT) {
            Some(effective_sol) => Ok((effective_sol, token_vault.amount)),
            None => Err(ErrorCode::MathOverflow),
        }
    }

    /// The value to pay for `buy_amount` tokens, before the fee.
    ///
    /// The price is `buy_cost` of the reserves. It is refused with
    /// `InvalidAmount` for no tokens, with `InsufficientLiquidity` for as many
    /// tokens as the vault holds or more, and with `MathOverflow` when the
    /// padded balance or the price does not fit in 64 bits.
    pub fn calculate_buy_price(&self, token_vault: &TokenAccount, buy_amount: u64, curve_lamports: u64) -> (res: Result<u64, ErrorCode>)
        ensures
            res == buy_quote(curve_lamports, token_vault.amount, buy_amount),
    {
        if buy_amount == 0 {
            return Err(ErrorCode::InvalidAmount);
        }
        if buy_amount >= token_vault.amount {
            return Err(ErrorCode::InsufficientLiquidity);
        }
        let (effective_sol, total_tokens) = self.get_effective_amounts(token_vault, curve_lamports)?;

        let effective_sol_u128: u128 = effective_sol as u128;
        let total_tokens_u128: u128 = total_tokens as u128;

        assert(effective_sol_u128 * total_tokens_u128 <= u128::MAX) by (nonlinear_arith)
            requires
                effective_sol_u128 <= u64::MAX,
                total_tokens_u128 <= u64::MAX,
        ;
        let k: u128 = effective_sol_u128 * total_tokens_u128;
        let new_token_amount: u128 = total_tokens_u128 - buy_amount as u128;
        let new_sol_amount: u128 = k / new_token_amount;

        proof {
            lemma_buy_cost_bounds(curve_lamports as int, total_tokens as int, buy_amount as int);
        }
        let price_difference: u128 = new_sol_amount - effective_sol_u128;

        if price_difference > u64::MAX as u128 {
            return Err(ErrorCode::MathOverflow);
        }
        Ok(price_difference as u64)
    }

    /// The value to receive for `sell_amount` tokens, before the fee.
    ///
    /// The price is `sell_return` of the reserves. It is refused with
    /// `InvalidAmount` for no tokens, and with `MathOverflow` when the padded
    /// balance does not fit in 64 bits.
    pub fn calculate_sell_price(&self, token_vault: &TokenAccount, sell_amount: u64, curve_lamports: u64) -> (res: Result<u64, ErrorCode>)
        ensures
            res == sell_quote(curve_lamports, token_vault.amount, sell_amount),
    {
        if sell_amount == 0 {
            return Err(ErrorCode::InvalidAmount);
        }
        let (effective_sol, total_tokens) = self.get_effective_amounts(token_vault, curve_lamports)?;

        let effective_sol_u128: u128 = effective_sol as u128;
        let total_tokens_u128: u128 = total_tokens as u128;

        assert(effective_sol_u128 * total_tokens_u128 <= u128::MAX) by (nonlinear_arith)
            requires
                effective_sol_u128 <= u64::MAX,
                total_tokens_u128 <= u64::MAX,
        ;
        let k: u128 = effective_sol_u128 * total_tokens_u128;
        let new_token_amount: u128 = total_tokens_u128 + sell_amount as u128;
        let new_sol_amount: u128 = k / new_token_amount;

        proof {
            lemma_sell_return_bounds(curve_lamports as int, total_tokens as int, sell_amount as int);
        }
        let price_difference: u128 = effective_sol_u128 - new_sol_amount;

        Ok(price_difference as u64)
    }

    /// The tokens that `sol_amount` of value buys, before the fee.
    ///
    /// The amount is `tokens_for_value` of the reserves. It is refused with
    /// `InvalidAmount` for no value, and with `MathOverflow` when the padded
    /// balance does not fit in 64 bits.
    pub fn calculate_tokens_for_sol(&self, token_vault: &TokenAccount, sol_amount: u64, curve_lamports: u64) -> (res: Result<u64, ErrorCode>)
        ensures
            res == tokens_quote(curve_lamports, token_vault.amount, sol_amount),
    {
        if sol_amount == 0 {
            return Err(ErrorCode::InvalidAmount);
        }
        let (effective_sol, total_tokens) = self.get_effective_amounts(token_vault, curve_lamports)?;

        let effective_sol_u128: u128 = effective_sol as u128;
        let total_tokens_u128: u128 = total_tokens as u128;
        let sol_amount_u128: u128 = sol_amount as u128;

        assert(effective_sol_u128 * total_tokens_u128 <= u128::MAX) by (nonlinear_arith)
            requires
                effective_sol_u128 <= u64::MAX,
                total_tokens_u128 <= u64::MAX,
        ;
        let k: u128 = effective_sol_u128 * total_tokens_u128;
        let new_sol: u128 = effective_sol_u128 + sol_amount_u128;
        let new_tokens: u128 = k / new_sol;

        proof {
            lemma_tokens_for_value_bounds(curve_lamports as int, total_tokens as int, sol_amount as int);
        }
        let token_amount: u128 = total_tokens_u128 - new_tokens;

        Ok(token_amount as u64)
    }
}

} // verus!
