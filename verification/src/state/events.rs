use vstd::prelude::*;
use crate::state::accounts::Pubkey;

verus! {

/// Record of a curve handing its reserves over.
#[derive(Clone, Copy, Debug, PartialEq, Eq)]
pub struct MigrationEvent {
    pub mint: Pubkey,
    /// Value that left the curve.
    pub real_sol_amount: u64,
    /// The padding that was added to the curve's value when pricing.
    pub virtual_sol_amount: u64,
    /// Token units that left the vault.
    pub token_amount: u64,
    pub effective_price: u64,
    pub developer: Pubkey,
    pub is_subscribed: bool,
}

/// Record of a purchase.
#[derive(Clone, Copy, Debug, PartialEq, Eq)]
pub struct BuyEvent {
    pub mint: Pubkey,
    /// Token units bought.
    pub amount: u64,
    /// Value that went into the curve's reserves; the fee is not part of it.
    pub sol_amount: u64,
    pub buyer: Pubkey,
    pub is_subscribed: bool,
}

/// Record of a sale.
#[derive(Clone, Copy, Debug, PartialEq, Eq)]
pub struct SellEvent {
    pub mint: Pubkey,
    /// Token units sold.
    pub amount: u64,
    /// Value that the seller received, after the fee.
    pub sol_amount: u64,
    pub seller: Pubkey,
    pub is_subscribed: bool,
}

} // verus!
