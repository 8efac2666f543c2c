use vstd::prelude::*;
use crate::state::accounts::Pubkey;

verus! {

/// Where a curve stands in its life.
///
/// A curve starts `Active`. `Migrated` and `Failed` are final: nothing in this
/// library leaves them, and nothing in it enters `Failed`.
#[derive(Clone, Copy, Debug, PartialEq, Eq, Structural)]
pub enum MigrationStatus {
    Active,
    Migrated,
    Failed,
}

impl Default for MigrationStatus {
    fn default() -> (status: MigrationStatus)
        ensures
            status == MigrationStatus::Active,
    {
        MigrationStatus::Active
    }
}

/// The settings of one curve.
#[derive(Clone, Copy, Debug, PartialEq, Eq)]
pub struct CurveConfig {
    pub migration_status: MigrationStatus,
    /// Whether the developer of the token is a subscriber, and so is paid a
    /// share when the curve migrates.
    pub is_subscribed: bool,
    /// Who launched the token.
    pub developer: Pubkey,
}

impl Default for CurveConfig {
    fn default() -> (config: CurveConfig)
        ensures
            config.migration_status == MigrationStatus::Active,
            !config.is_subscribed,
            config.developer.bytes@ == Seq::new(32, |i: int| 0u8),
    {
        CurveConfig {
            migration_status: MigrationStatus::Active,
            is_subscribed: false,
            developer: Pubkey::new_from_array([0u8; 32]),
        }
    }
}

impl CurveConfig {
    /// Whether the settings are acceptable. The curve's shape is fixed for all
    /// curves, so there is nothing in a configuration that could be wrong.
    pub fn validate(&self) -> (valid: bool)
        ensures
            valid,
    {
        true
    }

    /// Whether trading is open.
    pub open spec fn spec_is_active(&self) -> bool {
        self.migration_status == MigrationStatus::Active
    }

    /// Whether trading is open.
    #[verifier::when_used_as_spec(spec_is_active)]
    pub fn is_active(&self) -> (active: bool)
        ensures
            active == self.spec_is_active(),
    {
        self.migration_status == MigrationStatus::Active
    }
}

} // verus!
