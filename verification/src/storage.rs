mod admins;
mod faucets;
pub mod record;
pub mod storage;
pub mod user_wallets;

pub use record::FaucetData;
pub use storage::Storage;
pub use storage::StorageError;
