//! Startup configuration: the bot token, read from the process environment
//! by the program around this crate and validated here. A missing or empty
//! token is fatal; nothing else is configurable.

use vstd::prelude::*;

verus! {

/// Why startup configuration could not be assembled.
#[derive(Clone, Copy, Debug, PartialEq, Eq, Structural)]
pub enum ConfigError {
    /// The token variable was absent from the environment, or empty.
    MissingToken,
}

impl ConfigError {
    /// A human-readable diagnostic, printed before the process exits.
    pub fn describe(&self) -> (msg: String)
        ensures
            msg@ == "TELEGRAM_BOT_TOKEN no encontrado. Asegurate de configurarlo en el archivo .env"@,
    {
        String::from_str(
            "TELEGRAM_BOT_TOKEN no encontrado. Asegurate de configurarlo en el archivo .env",
        )
    }
}

/// The process configuration: the bot token alone, established once at
/// startup and immutable for the life of the process.
pub struct Config {
    token: String,
}

impl Config {
    /// The token this configuration holds.
    pub closed spec fn spec_token(self) -> Seq<char> {
        self.token@
    }

    /// A configuration is well formed when its token is non-empty; `load`
    /// never builds another.
    pub open spec fn wf(self) -> bool {
        self.spec_token().len() > 0
    }

    /// Validates the value the environment held for the token variable, if
    /// any. An absent value and an empty one are both rejected, and nothing
    /// else is: every non-empty token yields a configuration holding it
    /// unchanged.
    pub fn load(token: Option<String>) -> (r: Result<Config, ConfigError>)
        ensures
            match r {
                Ok(c) => {
                    &&& token matches Some(t) && c.spec_token() == t@
                    &&& c.wf()
                },
                Err(e) => {
                    &&& token matches Some(t) ==> t@.len() == 0
                    &&& e == ConfigError::MissingToken
                },
            },
    {
        match token {
            Some(t) => {
                if t.as_str().is_empty() {
                    Err(ConfigError::MissingToken)
                } else {
                    Ok(Config { token: t })
                }
            },
            None => Err(ConfigError::MissingToken),
        }
    }

    /// The token, for handing to the platform client.
    pub fn token(&self) -> (t: &String)
        ensures
            t@ == self.spec_token(),
    {
        &self.token
    }
}

} // verus!
