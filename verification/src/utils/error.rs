use vstd::prelude::*;

verus! {

/// Every way in which an operation of the curve can be refused.
///
/// All of them are final for the call that returns them: nothing is retried,
/// and a refused operation leaves the curve as it was.
#[derive(Clone, Copy, Debug, PartialEq, Eq, Structural)]
pub enum ErrorCode {
    SlippageExceeded,
    InsufficientLiquidity,
    MathOverflow,
    PriceExceedsMaxCost,
    PriceBelowMinReturn,
    BalanceMismatch,
    InvalidCurveConfig,
    InvalidAmount,
    InvalidDecimals,
    InvalidMintAuthority,
    InvalidMetadataAddress,
    MetadataCreationFailed,
    InvalidOwner,
    InvalidMetadataProgram,
    MigrationRequired,
    InvalidMigrationAdmin,
    MigrationComplete,
}

impl ErrorCode {
    /// The text that belongs to each error.
    pub open spec fn spec_message(self) -> Seq<char> {
        match self {
            ErrorCode::SlippageExceeded => "Slippage tolerance exceeded"@,
            ErrorCode::InsufficientLiquidity => "Insufficient liquidity in pool"@,
            ErrorCode::MathOverflow => "Math operation overflow"@,
            ErrorCode::PriceExceedsMaxCost => "Price exceeds maximum cost"@,
            ErrorCode::PriceBelowMinReturn => "Price below minimum return"@,
            ErrorCode::BalanceMismatch => "Balance mismatch"@,
            ErrorCode::InvalidCurveConfig => "Invalid curve configuration"@,
            ErrorCode::InvalidAmount => "Invalid amount"@,
            ErrorCode::InvalidDecimals => "Invalid token decimals"@,
            ErrorCode::InvalidMintAuthority => "Invalid mint authority"@,
            ErrorCode::InvalidMetadataAddress => "Invalid metadata address"@,
            ErrorCode::MetadataCreationFailed => "Metadata creation failed"@,
            ErrorCode::InvalidOwner => "Invalid account owner"@,
            ErrorCode::InvalidMetadataProgram => "Invalid metadata program"@,
            ErrorCode::MigrationRequired => "Migration required before operation"@,
            ErrorCode::InvalidMigrationAdmin => "Invalid migration admin"@,
            ErrorCode::MigrationComplete => "Migration already completed"@,
        }
    }

    /// Human-readable description of the error.
    pub fn message(&self) -> (text: String)
        ensures
            text@ == self.spec_message(),
    {
        match self {
            ErrorCode::SlippageExceeded => "Slippage tolerance exceeded".to_owned(),
            ErrorCode::InsufficientLiquidity => "Insufficient liquidity in pool".to_owned(),
            ErrorCode::MathOverflow => "Math operation overflow".to_owned(),
            ErrorCode::PriceExceedsMaxCost => "Price exceeds maximum cost".to_owned(),
            ErrorCode::PriceBelowMinReturn => "Price below minimum return".to_owned(),
            ErrorCode::BalanceMismatch => "Balance mismatch".to_owned(),
            ErrorCode::InvalidCurveConfig => "Invalid curve configuration".to_owned(),
            ErrorCode::InvalidAmount => "Invalid amount".to_owned(),
            ErrorCode::InvalidDecimals => "Invalid token decimals".to_owned(),
            ErrorCode::InvalidMintAuthority => "Invalid mint authority".to_owned(),
            ErrorCode::InvalidMetadataAddress => "Invalid metadata address".to_owned(),
            ErrorCode::MetadataCreationFailed => "Metadata creation failed".to_owned(),
            ErrorCode::InvalidOwner => "Invalid account owner".to_owned(),
            ErrorCode::InvalidMetadataProgram => "Invalid metadata program".to_owned(),
            ErrorCode::MigrationRequired => "Migration required before operation".to_owned(),
            ErrorCode::InvalidMigrationAdmin => "Invalid migration admin".to_owned(),
            ErrorCode::MigrationComplete => "Migration already completed".to_owned(),
        }
    }
}

} // verus!
