use vstd::prelude::*;
use crate::state::accounts::Pubkey;
use crate::state::bonding_curve::BondingCurve;
use crate::state::curve_config::{CurveConfig, MigrationStatus};
use crate::utils::error::ErrorCode;

verus! {

/// What launching a token reads and fills in: who launches it, the token,
/// and the curve's account with the bump of its address.
#[derive(Debug, PartialEq, Eq)]
pub struct CreateToken {
    pub creator: Pubkey,
    pub mint: Pubkey,
    /// The account of the curve, to be filled in.
    pub curve: BondingCurve,
    /// The bump with which the curve's address was derived.
    pub curve_bump: u8,
}

/// What the one who launches a token chooses.
#[derive(Debug, PartialEq, Eq)]
pub struct CreateTokenParams {
    pub curve_config: CurveConfig,
    pub total_supply: u64,
    /// Tells the tokens of one creator apart.
    pub token_seed: String,
}

/// The curve that a launch sets up: for the given token, with the chosen
/// settings, and with the one who launches it as its developer.
pub open spec fn launched_curve(ctx: CreateToken, params: CreateTokenParams) -> BondingCurve {
    BondingCurve {
        mint: ctx.mint,
        config: CurveConfig { developer: ctx.creator, ..params.curve_config },
        bump: ctx.curve_bump,
        token_seed: params.token_seed,
    }
}

/// Sets the curve of a new token up, and says how many tokens have to be
/// minted into its vault: the whole supply.
///
/// A curve starts active: settings that say otherwise are refused with
/// `InvalidCurveConfig`, and nothing changes.
pub fn handler(ctx: &mut CreateToken, params: CreateTokenParams) -> (res: Result<u64, ErrorCode>)
    ensures
        params.curve_config.migration_status == MigrationStatus::Active ==> {
            &&& res == Ok::<u64, ErrorCode>(params.total_supply)
            &&& *final(ctx) == (CreateToken { curve: launched_curve(*old(ctx), params), ..*old(ctx) })
        },
        params.curve_config.migration_status != MigrationStatus::Active ==> {
            &&& res == Err::<u64, ErrorCode>(ErrorCode::InvalidCurveConfig)
            &&& *final(ctx) == *old(ctx)
        },
{
    if !params.curve_config.validate() || !params.curve_config.is_active() {
        return Err(ErrorCode::InvalidCurveConfig);
    }
    ctx.curve.mint = ctx.mint;
    ctx.curve.config = params.curve_config;
    ctx.curve.config.developer = ctx.creator;
    ctx.curve.bump = ctx.curve_bump;
    ctx.curve.token_seed = params.token_seed;
    Ok(params.total_supply)
}

} // verus!
