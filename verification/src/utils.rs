pub mod constants;
pub mod error;
pub mod fee;
pub mod metadata;
pub mod validation;
