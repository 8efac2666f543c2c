pub mod accounts;
pub mod curve_config;
pub mod events;
pub mod curve_math;
pub mod bonding_curve;
pub mod curve_laws;
