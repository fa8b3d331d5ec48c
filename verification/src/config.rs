use vstd::prelude::*;

verus! {

/// Configuration for the bot: every named parameter the core and the
/// transports consume, resolved once at process start and treated as
/// immutable afterwards.
#[derive(Clone, Debug)]
pub struct Config {
    /// The bot's display name.
    pub name: String,
    /// The bot's funding wallet seed.
    pub wallet_seed: String,
    /// The default rpc endpoint.
    pub substrate_rpc: String,
    /// Path of the administrative database.
    pub db_path: String,
}

} // verus!
