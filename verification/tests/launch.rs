use bonding_curve::instructions::create_token::{self, CreateToken, CreateTokenParams};
use bonding_curve::state::accounts::{Pubkey, TokenAccount};
use bonding_curve::state::bonding_curve::BondingCurve;
use bonding_curve::state::curve_config::{CurveConfig, MigrationStatus};
use bonding_curve::utils::constants::{BPS_DENOMINATOR, FEE_COLLECTOR, MIGRATION_ADMIN, TRADE_FEE_BPS};
use bonding_curve::utils::error::ErrorCode;
use bonding_curve::utils::validation::verify_token_balance;

fn address(byte: u8) -> Pubkey {
    Pubkey::new_from_array([byte; 32])
}

fn blank() -> CreateToken {
    CreateToken {
        creator: address(7),
        mint: address(8),
        curve: BondingCurve {
            mint: Pubkey::new_from_array([0; 32]),
            config: CurveConfig::default(),
            bump: 0,
            token_seed: String::new(),
        },
        curve_bump: 251,
    }
}

fn params_with(status: MigrationStatus) -> CreateTokenParams {
    CreateTokenParams {
        curve_config: CurveConfig { migration_status: status, is_subscribed: true, developer: address(99) },
        total_supply: 1_000_000_000_000_000,
        token_seed: String::from("my-token"),
    }
}

#[test]
fn launch_fills_the_curve_in() {
    let mut ctx = blank();
    let res = create_token::handler(&mut ctx, params_with(MigrationStatus::Active));
    assert_eq!(res, Ok(1_000_000_000_000_000));
    assert_eq!(
        ctx.curve,
        BondingCurve {
            mint: address(8),
            config: CurveConfig {
                migration_status: MigrationStatus::Active,
                is_subscribed: true,
                developer: address(7),
            },
            bump: 251,
            token_seed: String::from("my-token"),
        }
    );
    assert_eq!(ctx.creator, address(7));
    assert_eq!(ctx.mint, address(8));
}

#[test]
fn launch_through_the_entry_point() {
    let mut ctx = blank();
    let mut other = blank();
    let res = bonding_curve::create_token(&mut ctx, params_with(MigrationStatus::Active));
    assert_eq!(res, create_token::handler(&mut other, params_with(MigrationStatus::Active)));
    assert_eq!(ctx, other);
}

#[test]
fn launch_of_a_curve_that_is_not_active_is_refused() {
    for status in [MigrationStatus::Migrated, MigrationStatus::Failed] {
        let mut ctx = blank();
        assert_eq!(create_token::handler(&mut ctx, params_with(status)), Err(ErrorCode::InvalidCurveConfig));
        assert_eq!(ctx, blank());
    }
}

#[test]
fn default_settings() {
    let config = CurveConfig::default();
    assert_eq!(config.migration_status, MigrationStatus::Active);
    assert!(!config.is_subscribed);
    assert_eq!(config.developer.to_bytes(), [0u8; 32]);
    assert_eq!(MigrationStatus::default(), MigrationStatus::Active);
    assert!(config.validate());
    assert!(config.is_active());
    let migrated = CurveConfig { migration_status: MigrationStatus::Migrated, ..config };
    assert!(migrated.validate());
    assert!(!migrated.is_active());
}

#[test]
fn token_balance_is_verified() {
    let account = TokenAccount { mint: address(1), owner: address(2), amount: 500 };
    assert_eq!(verify_token_balance(&account, 500), Ok(()));
    assert_eq!(verify_token_balance(&account, 499), Err(ErrorCode::BalanceMismatch));
    assert_eq!(verify_token_balance(&account, 0), Err(ErrorCode::BalanceMismatch));
}

#[test]
fn addresses_compare_by_their_bytes() {
    let a = Pubkey::new_from_array([3; 32]);
    let mut bytes = [3u8; 32];
    assert!(a.same_as(&Pubkey::new_from_array(bytes)));
    assert_eq!(a, Pubkey::new_from_array(bytes));
    bytes[31] = 4;
    assert!(!a.same_as(&Pubkey::new_from_array(bytes)));
    assert_ne!(a, Pubkey::new_from_array(bytes));
    bytes[31] = 3;
    bytes[0] = 0;
    assert!(!a.same_as(&Pubkey::new_from_array(bytes)));
    assert_eq!(a.to_bytes(), [3; 32]);
}

#[test]
fn fixed_addresses_and_rates() {
    assert_eq!(TRADE_FEE_BPS, 100);
    assert_eq!(BPS_DENOMINATOR, 10_000);
    assert_eq!(FEE_COLLECTOR[0], 194);
    assert_eq!(FEE_COLLECTOR[31], 3);
    assert_eq!(MIGRATION_ADMIN[0], 224);
    assert_eq!(MIGRATION_ADMIN[31], 200);
    assert_ne!(FEE_COLLECTOR, MIGRATION_ADMIN);
}

#[test]
fn errors_have_their_texts() {
    assert_eq!(ErrorCode::SlippageExceeded.message(), "Slippage tolerance exceeded");
    assert_eq!(ErrorCode::InsufficientLiquidity.message(), "Insufficient liquidity in pool");
    assert_eq!(ErrorCode::MathOverflow.message(), "Math operation overflow");
    assert_eq!(ErrorCode::PriceExceedsMaxCost.message(), "Price exceeds maximum cost");
    assert_eq!(ErrorCode::PriceBelowMinReturn.message(), "Price below minimum return");
    assert_eq!(ErrorCode::BalanceMismatch.message(), "Balance mismatch");
    assert_eq!(ErrorCode::InvalidCurveConfig.message(), "Invalid curve configuration");
    assert_eq!(ErrorCode::InvalidAmount.message(), "Invalid amount");
    assert_eq!(ErrorCode::InvalidDecimals.message(), "Invalid token decimals");
    assert_eq!(ErrorCode::InvalidMintAuthority.message(), "Invalid mint authority");
    assert_eq!(ErrorCode::InvalidMetadataAddress.message(), "Invalid metadata address");
    assert_eq!(ErrorCode::MetadataCreationFailed.message(), "Metadata creation failed");
    assert_eq!(ErrorCode::InvalidOwner.message(), "Invalid account owner");
    assert_eq!(ErrorCode::InvalidMetadataProgram.message(), "Invalid metadata program");
    assert_eq!(ErrorCode::MigrationRequired.message(), "Migration required before operation");
    assert_eq!(ErrorCode::InvalidMigrationAdmin.message(), "Invalid migration admin");
    assert_eq!(ErrorCode::MigrationComplete.message(), "Migration already completed");
}
