pub mod buy;
pub mod create_metadata;
pub mod create_token;
pub mod lifecycle_laws;
pub mod migrate;
pub mod price;
pub mod sell;
