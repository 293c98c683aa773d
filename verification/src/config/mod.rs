//! The bot's configuration: token, command prefix and bot owner.
use crate::text::{owned, parse_u64, parse_u64_spec};
use vstd::prelude::*;

verus! {

/// What the bot reads from its environment.
#[derive(Debug, Clone)]
pub struct Config {
    pub discord_token: String,
    pub command_prefix: String,
    pub admin_user_id: Option<u64>,
}

/// Why a configuration could not be built.
#[derive(Debug, Clone, Copy, PartialEq, Eq, Structural)]
pub enum ConfigError {
    /// `DISCORD_TOKEN` is not set.
    MissingToken,
}

/// The prefix used when `COMMAND_PREFIX` is not set.
pub open spec fn default_prefix() -> Seq<char> {
    "m/"@
}

impl Config {
    /// The configuration from the values of `DISCORD_TOKEN`, `COMMAND_PREFIX`
    /// and `ADMIN_USER_ID` (`None` where a variable is not set): the token is
    /// required; the prefix defaults to `m/`; an owner id that is not a `u64`
    /// counts as no owner.
    pub fn from_values(
        discord_token: Option<String>,
        command_prefix: Option<String>,
        admin_user_id: Option<String>,
    ) -> (r: Result<Config, ConfigError>)
        ensures
            discord_token is None <==> r is Err,
            r matches Ok(c) ==> {
                &&& c.discord_token@ == discord_token.unwrap()@
                &&& c.command_prefix@ == match command_prefix {
                    Some(p) => p@,
                    None => default_prefix(),
                }
                &&& c.admin_user_id == match admin_user_id {
                    Some(a) => parse_u64_spec(a@),
                    None => None::<u64>,
                }
            },
            r matches Err(e) ==> e == ConfigError::MissingToken,
    {
        let discord_token = match discord_token {
            Some(t) => t,
            None => {
                return Err(ConfigError::MissingToken);
            },
        };
        let command_prefix = match command_prefix {
            Some(p) => p,
            None => owned("m/"),
        };
        let admin_user_id = match admin_user_id {
            Some(a) => parse_u64(a.as_str()),
            None => None,
        };
        Ok(Config { discord_token, command_prefix, admin_user_id })
    }

    /// Whether `user_id` is the configured bot owner.
    pub fn is_admin(&self, user_id: u64) -> (r: bool)
        ensures
            r == (self.admin_user_id == Some(user_id)),
    {
        match self.admin_user_id {
            Some(id) => id == user_id,
            None => false,
        }
    }
}

/// The error message for a configuration that could not be built.
pub fn config_error_message(e: ConfigError) -> (r: &'static str)
    ensures
        e == ConfigError::MissingToken ==> r@ == "DISCORD_TOKEN not found in environment"@,
{
    match e {
        ConfigError::MissingToken => "DISCORD_TOKEN not found in environment",
    }
}

} // verus!
