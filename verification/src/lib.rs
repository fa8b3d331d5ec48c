pub mod bot;
pub mod call;
pub mod config;
pub mod functions;
pub mod helpers;
pub mod origin;
pub mod storage;
pub mod traits;

pub use bot::Bot;
pub use bot::MODULE;
pub use call::Call;
pub use call::Response;
pub use config::Config;
pub use helpers::split_with_quotes;
pub use origin::Origin;
