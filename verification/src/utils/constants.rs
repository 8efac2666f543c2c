use vstd::prelude::*;

verus! {

/// The trading fee, in hundredths of a percent of the traded value: 1%.
pub const TRADE_FEE_BPS: u64 = 100;

/// What `TRADE_FEE_BPS` is a share of.
pub const BPS_DENOMINATOR: u64 = 10000;

/// Address of the account that trading fees are paid to.
pub const FEE_COLLECTOR: [u8; 32] = [
    194, 73, 64, 156, 20, 86, 1, 93,
    103, 112, 193, 65, 134, 23, 207, 28,
    187, 39, 81, 4, 122, 135, 79, 54,
    8, 254, 239, 26, 243, 192, 173, 3,
];

/// Address of the account that receives the tokens a migration leaves over.
pub const MIGRATION_ADMIN: [u8; 32] = [
    224, 67, 189, 212, 203, 187, 41,
    223, 118, 50, 190, 182, 44, 210,
    139, 163, 109, 249, 134, 115, 45,
    43, 110, 126, 162, 220, 181, 167,
    50, 69, 161, 200,
];

} // verus!
