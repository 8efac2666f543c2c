use vstd::prelude::*;
use vstd::bytes::{
    spec_u128_to_le_bytes, spec_u64_to_le_bytes, u128_to_le_bytes, u64_to_le_bytes,
};
use crate::state::accounts::{Pubkey, TokenAccount};
use crate::state::bonding_curve::BondingCurve;
use crate::state::curve_config::{CurveConfig, MigrationStatus};
use crate::state::curve_math::{
    effective_value, invariant_product, MIGRATION_THRESHOLD, VIRTUAL_SOL_AMOUNT,
};
use crate::state::events::MigrationEvent;
use crate::utils::error::ErrorCode;
use crate::utils::metadata::{AccountMeta, Instruction};

verus! {

/// What a subscribed developer is paid when the curve migrates.
pub const DEV_FEE_LAMPORTS: u64 = 3_000_000_000;

/// What the venue charges for opening a pool.
pub const RAYDIUM_POOL_CREATION_FEE: u64 = 150_000_000;

/// Address of the venue's program.
pub const RAYDIUM_CP_PROGRAM_ID: [u8; 32] = [
    169, 42, 90, 139, 79, 41, 89, 82,
    132, 37, 80, 170, 147, 253, 91, 149,
    181, 172, 230, 168, 235, 146, 12, 147,
    148, 46, 67, 105, 12, 32, 236, 115,
];

/// The price that a migration record carries.
pub const MIGRATION_EFFECTIVE_PRICE: u64 = 1;

/// What a migration reads: the curve, its reserves, and the balance that the
/// curve's account has to keep.
#[derive(Debug, PartialEq, Eq)]
pub struct MigrateLiquidity {
    pub mint: Pubkey,
    pub curve: BondingCurve,
    /// Value that the curve holds.
    pub curve_lamports: u64,
    /// The vault; its amount is the curve's token reserve.
    pub token_vault: TokenAccount,
    /// Value that has to stay in the curve's account.
    pub rent_exempt_balance: u64,
}

/// The movements that carry a migration out. Together they empty the vault
/// and leave the curve with `retained_value`.
#[derive(Clone, Copy, Debug, PartialEq, Eq)]
pub struct MigrationSettlement {
    /// Tokens to move from the vault to the venue.
    pub venue_tokens: u64,
    /// Value to move from the curve to the venue.
    pub venue_value: u64,
    /// Value to move from the curve to the developer; zero for a developer
    /// who is not subscribed.
    pub developer_fee: u64,
    /// Value to move from the curve to pay for the pool.
    pub listing_fee: u64,
    /// Tokens to move from the vault to the migration admin.
    pub leftover_tokens: u64,
    /// Value that stays in the curve.
    pub retained_value: u64,
    pub event: MigrationEvent,
}

/// The fixed amounts that a migration takes out of what goes to the venue.
pub open spec fn migration_fees(is_subscribed: bool) -> int {
    if is_subscribed {
        DEV_FEE_LAMPORTS as int + RAYDIUM_POOL_CREATION_FEE as int
    } else {
        RAYDIUM_POOL_CREATION_FEE as int
    }
}

/// Value that goes to the venue: the balance less what must stay and less the
/// fixed amounts.
pub open spec fn venue_value(config: CurveConfig, real_value: int, rent_exempt_balance: int) -> int {
    real_value - rent_exempt_balance - migration_fees(config.is_subscribed)
}

/// Tokens that go to the venue, so that the venue starts at the curve's price:
/// the product before the migration over the value that goes to the venue,
/// rounded down.
pub open spec fn venue_tokens(config: CurveConfig, real_value: int, tokens: int, rent_exempt_balance: int) -> int {
    invariant_product(real_value, tokens) / venue_value(config, real_value, rent_exempt_balance)
}

/// What migrating a curve with the given settings and reserves gives.
///
/// The curve has to be active and to hold the threshold; something has to
/// remain for the venue after what stays and the fixed amounts; and the venue
/// cannot be given more tokens than the vault holds.
pub open spec fn migration_outcome(
    config: CurveConfig,
    mint: Pubkey,
    real_value: u64,
    tokens: u64,
    rent_exempt_balance: u64,
) -> Result<MigrationSettlement, ErrorCode> {
    let to_venue = venue_value(config, real_value as int, rent_exempt_balance as int);
    let tokens_to_venue = venue_tokens(config, real_value as int, tokens as int, rent_exempt_balance as int);
    if config.migration_status != MigrationStatus::Active {
        Err(ErrorCode::MigrationComplete)
    } else if real_value < MIGRATION_THRESHOLD {
        Err(ErrorCode::InsufficientLiquidity)
    } else if to_venue <= 0 {
        Err(ErrorCode::InsufficientLiquidity)
    } else if effective_value(real_value as int) > u64::MAX {
        Err(ErrorCode::MathOverflow)
    } else if tokens_to_venue > tokens {
        Err(ErrorCode::MathOverflow)
    } else {
        Ok(
            MigrationSettlement {
                venue_tokens: tokens_to_venue as u64,
                venue_value: to_venue as u64,
                developer_fee: if config.is_subscribed {
                    DEV_FEE_LAMPORTS
                } else {
                    0
                },
                listing_fee: RAYDIUM_POOL_CREATION_FEE,
                leftover_tokens: (tokens - tokens_to_venue) as u64,
                retained_value: rent_exempt_balance,
                event: MigrationEvent {
                    mint,
                    real_sol_amount: (real_value - rent_exempt_balance) as u64,
                    virtual_sol_amount: VIRTUAL_SOL_AMOUNT,
                    token_amount: tokens,
                    effective_price: MIGRATION_EFFECTIVE_PRICE,
                    developer: config.developer,
                    is_subscribed: config.is_subscribed,
                },
            },
        )
    }
}

/// A migration accounts for everything that the curve holds: the value goes
/// to the venue, to the developer and to the pool, but for what has to stay;
/// the tokens go to the venue and to the migration admin. The record says
/// what left the curve.
pub proof fn lemma_migration_moves_everything(
    config: CurveConfig,
    mint: Pubkey,
    real_value: u64,
    tokens: u64,
    rent_exempt_balance: u64,
)
    requires
        migration_outcome(config, mint, real_value, tokens, rent_exempt_balance) is Ok,
    ensures
        ({
            let settlement = migration_outcome(config, mint, real_value, tokens, rent_exempt_balance)->Ok_0;
            &&& settlement.venue_value + settlement.developer_fee + settlement.listing_fee
                + settlement.retained_value == real_value
            &&& settlement.venue_tokens + settlement.leftover_tokens == tokens
            &&& settlement.retained_value == rent_exempt_balance
            &&& settlement.venue_value > 0
            &&& settlement.event.real_sol_amount + settlement.retained_value == real_value
            &&& settlement.event.token_amount == tokens
        }),
{
    let to_venue = venue_value(config, real_value as int, rent_exempt_balance as int);
    let product = invariant_product(real_value as int, tokens as int);
    assert(0 <= product) by (nonlinear_arith)
        requires
            product == effective_value(real_value as int) * tokens,
            0 <= effective_value(real_value as int),
            0 <= tokens,
    ;
    crate::state::curve_math::lemma_quotient_monotonic(0, product, to_venue, to_venue);
}

/// A migration can be carried out only while the vault is nearly empty: the
/// venue is given no more tokens than the vault holds exactly if the tokens,
/// times what the effective value has over the value for the venue, come to
/// less than the value for the venue. The venue is then given all the tokens
/// of the vault, and none is left over.
pub proof fn lemma_migration_token_limit(
    config: CurveConfig,
    mint: Pubkey,
    real_value: u64,
    tokens: u64,
    rent_exempt_balance: u64,
)
    requires
        config.migration_status == MigrationStatus::Active,
        real_value >= MIGRATION_THRESHOLD,
        venue_value(config, real_value as int, rent_exempt_balance as int) > 0,
        effective_value(real_value as int) <= u64::MAX,
    ensures
        migration_outcome(config, mint, real_value, tokens, rent_exempt_balance) is Ok <==> tokens * (
        VIRTUAL_SOL_AMOUNT + rent_exempt_balance + migration_fees(config.is_subscribed)) < venue_value(
            config,
            real_value as int,
            rent_exempt_balance as int,
        ),
        migration_outcome(config, mint, real_value, tokens, rent_exempt_balance) matches Ok(settlement) ==> {
            &&& settlement.venue_tokens == tokens
            &&& settlement.leftover_tokens == 0
        },
{
    let to_venue = venue_value(config, real_value as int, rent_exempt_balance as int);
    let gap = VIRTUAL_SOL_AMOUNT + rent_exempt_balance + migration_fees(config.is_subscribed);
    let e = effective_value(real_value as int);
    let product = invariant_product(real_value as int, tokens as int);
    let t = tokens as int;
    assert(e == to_venue + gap);
    assert(product == t * to_venue + t * gap) by (nonlinear_arith)
        requires
            product == e * t,
            e == to_venue + gap,
    ;
    crate::state::curve_math::lemma_quotient_bounds(product, to_venue);
    let q = product / to_venue;
    if t * gap < to_venue {
        crate::state::curve_math::lemma_quotient_unique(product, to_venue, t);
    } else {
        // The product reaches the next multiple, so the quotient is past the
        // tokens that the vault holds.
        if q <= t {
            assert(q * to_venue + to_venue <= t * to_venue + to_venue) by (nonlinear_arith)
                requires
                    q <= t,
                    0 < to_venue,
            ;
        }
    }
}

/// Works out the movements of a migration from the curve's settings and
/// reserves. Nothing is changed: the caller marks the curve as migrated.
pub fn plan_migration(
    config: &CurveConfig,
    mint: Pubkey,
    curve_lamports: u64,
    total_tokens: u64,
    rent_exempt_balance: u64,
) -> (res: Result<MigrationSettlement, ErrorCode>)
    ensures
        res == migration_outcome(*config, mint, curve_lamports, total_tokens, rent_exempt_balance),
{
    if !config.is_active() {
        return Err(ErrorCode::MigrationComplete);
    }
    if curve_lamports < MIGRATION_THRESHOLD {
        return Err(ErrorCode::InsufficientLiquidity);
    }
    let available_liquidity: u64 = match curve_lamports.checked_sub(rent_exempt_balance) {
        Some(available) => available,
        None => { return Err(ErrorCode::InsufficientLiquidity); },
    };
    let developer_fee: u64 = if config.is_subscribed {
        DEV_FEE_LAMPORTS
    } else {
        0
    };
    let fees: u64 = developer_fee + RAYDIUM_POOL_CREATION_FEE;
    if available_liquidity <= fees {
        return Err(ErrorCode::InsufficientLiquidity);
    }
    let raydium_sol: u64 = available_liquidity - fees;

    let current_effective_sol: u64 = match curve_lamports.checked_add(VIRTUAL_SOL_AMOUNT) {
        Some(effective) => effective,
        None => { return Err(ErrorCode::MathOverflow); },
    };
    assert(current_effective_sol as u128 * total_tokens as u128 <= u128::MAX) by (nonlinear_arith)
        requires
            current_effective_sol <= u64::MAX,
            total_tokens <= u64::MAX,
    ;
    let k: u128 = current_effective_sol as u128 * total_tokens as u128;
    let raydium_tokens: u128 = k / raydium_sol as u128;

    if raydium_tokens > total_tokens as u128 {
        return Err(ErrorCode::MathOverflow);
    }
    Ok(
        MigrationSettlement {
            venue_tokens: raydium_tokens as u64,
            venue_value: raydium_sol,
            developer_fee,
            listing_fee: RAYDIUM_POOL_CREATION_FEE,
            leftover_tokens: total_tokens - raydium_tokens as u64,
            retained_value: rent_exempt_balance,
            event: MigrationEvent {
                mint,
                real_sol_amount: available_liquidity,
                virtual_sol_amount: VIRTUAL_SOL_AMOUNT,
                token_amount: total_tokens,
                effective_price: MIGRATION_EFFECTIVE_PRICE,
                developer: config.developer,
                is_subscribed: config.is_subscribed,
            },
        },
    )
}

/// The curve as a migration leaves it: marked as migrated, and otherwise as
/// it was.
pub open spec fn migrated(curve: BondingCurve) -> BondingCurve {
    BondingCurve {
        config: CurveConfig { migration_status: MigrationStatus::Migrated, ..curve.config },
        ..curve
    }
}

/// Migrates the curve: works out what moves where, and marks the curve as
/// migrated.
///
/// On an error nothing changes. On success the curve is migrated, for good,
/// and the settlement says what has to be moved.
pub fn handler(ctx: &mut MigrateLiquidity) -> (res: Result<MigrationSettlement, ErrorCode>)
    ensures
        res == migration_outcome(
            old(ctx).curve.config,
            old(ctx).mint,
            old(ctx).curve_lamports,
            old(ctx).token_vault.amount,
            old(ctx).rent_exempt_balance,
        ),
        res is Err ==> *final(ctx) == *old(ctx),
        res is Ok ==> *final(ctx) == (MigrateLiquidity { curve: migrated(old(ctx).curve), ..*old(ctx) }),
{
    let settlement = plan_migration(
        &ctx.curve.config,
        ctx.mint,
        ctx.curve_lamports,
        ctx.token_vault.amount,
        ctx.rent_exempt_balance,
    )?;
    ctx.curve.config.migration_status = MigrationStatus::Migrated;
    Ok(settlement)
}

/// The accounts that the venue opens a pool with.
#[derive(Clone, Copy, Debug, PartialEq, Eq)]
pub struct PoolAccounts {
    /// The venue's program.
    pub raydium_program: Pubkey,
    /// Who signs for the pool.
    pub authority: Pubkey,
    pub raydium_pool: Pubkey,
    pub raydium_token_vault: Pubkey,
    pub raydium_sol_vault: Pubkey,
}

/// The bytes that tell the venue to open a pool: a zero, the tokens in 16
/// bytes, the value in 8 bytes, and 8 bytes of zero for a pool that opens at
/// once; each number with its lowest byte first.
pub open spec fn pool_init_data(tokens: u64, value: u64) -> Seq<u8> {
    seq![0u8] + spec_u128_to_le_bytes(tokens as u128) + spec_u64_to_le_bytes(value)
        + spec_u64_to_le_bytes(0)
}

/// The accounts that the instruction to open a pool lists: all of them
/// writable, and the authority signing.
pub open spec fn pool_account_metas(accounts: PoolAccounts) -> Seq<AccountMeta> {
    seq![
        AccountMeta { pubkey: accounts.authority, is_signer: true, is_writable: true },
        AccountMeta { pubkey: accounts.raydium_pool, is_signer: false, is_writable: true },
        AccountMeta { pubkey: accounts.raydium_token_vault, is_signer: false, is_writable: true },
        AccountMeta { pubkey: accounts.raydium_sol_vault, is_signer: false, is_writable: true },
    ]
}

/// Builds the instruction that opens the venue's pool with what a migration
/// gives to the venue.
pub fn init_pool_ix(accounts: &PoolAccounts, settlement: &MigrationSettlement) -> (ix: Instruction)
    ensures
        ix.program_id == accounts.raydium_program,
        ix.accounts@ == pool_account_metas(*accounts),
        ix.data@ == pool_init_data(settlement.venue_tokens, settlement.venue_value),
        ix.data@.len() == 33,
{
    let mut metas: Vec<AccountMeta> = Vec::new();
    metas.push(AccountMeta { pubkey: accounts.authority, is_signer: true, is_writable: true });
    metas.push(AccountMeta { pubkey: accounts.raydium_pool, is_signer: false, is_writable: true });
    metas.push(AccountMeta { pubkey: accounts.raydium_token_vault, is_signer: false, is_writable: true });
    metas.push(AccountMeta { pubkey: accounts.raydium_sol_vault, is_signer: false, is_writable: true });
    assert(metas@ =~= pool_account_metas(*accounts));

    let mut data: Vec<u8> = Vec::new();
    data.push(0u8);
    let mut tokens_bytes: Vec<u8> = u128_to_le_bytes(settlement.venue_tokens as u128);
    let mut value_bytes: Vec<u8> = u64_to_le_bytes(settlement.venue_value);
    let mut start_bytes: Vec<u8> = u64_to_le_bytes(0);
    data.append(&mut tokens_bytes);
    data.append(&mut value_bytes);
    data.append(&mut start_bytes);
    assert(data@ =~= pool_init_data(settlement.venue_tokens, settlement.venue_value));
    Instruction { program_id: accounts.raydium_program, accounts: metas, data }
}

} // verus!
