use vstd::prelude::*;
use vstd::string::*;

use crate::config::Config;
use crate::traits::DispatchError;

verus! {

/// The module name under which domain rule violations are reported.
pub const MODULE: &'static str = "BOT";

/// All potential bot errors.
#[derive(Clone, Debug)]
pub enum BotError {
    /// An unknown error has occured.
    UnknownError,
}

impl BotError {
    /// The display text of the error.
    pub fn message(&self) -> (r: String)
        ensures
            r@ == "Unknown error"@,
    {
        match self {
            BotError::UnknownError => String::from_str("Unknown error"),
        }
    }

    /// The dispatch error this bot error surfaces as.
    pub fn to_dispatch_error(&self) -> (r: DispatchError)
        ensures
            r matches DispatchError::Module(m, t) && m@ == "BOT"@ && t@ == "Unknown error"@,
    {
        DispatchError::Module(String::from_str("BOT"), self.message())
    }
}

/// The bot: the dispatch core, holding the configuration it was
/// constructed with.
pub struct Bot {
    pub config: Config,
}

impl Bot {
    pub fn new(config: Config) -> (r: Bot)
        ensures
            r.config == config,
    {
        Bot { config }
    }
}

} // verus!
