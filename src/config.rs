//! The three settings a session needs, gathered once at startup.

use vstd::prelude::*;

verus! {

/// The name of the setting that holds the registry access token.
pub const TOKEN_VAR: &'static str = "GH_ACCESS_TOKEN";

/// The name of the setting that holds the repository owner.
pub const OWNER_VAR: &'static str = "GH_OWNER";

/// The name of the setting that holds the repository name.
pub const REPO_VAR: &'static str = "GH_REPO";

/// A required setting that was not supplied.
#[derive(Clone, Copy, Debug, PartialEq, Eq, Structural)]
pub enum ConfigError {
    MissingToken,
    MissingOwner,
    MissingRepo,
}

/// The registry credential and the repository to list.
pub struct Config {
    pub token: String,
    pub owner: String,
    pub repo: String,
}

impl Config {
    /// A configuration from the three settings as supplied. The first one
    /// missing, in the order token, owner, repository, is the error.
    pub fn from_settings(token: Option<String>, owner: Option<String>, repo: Option<String>) -> (r: Result<Config, ConfigError>)
        ensures
            token is None ==> r == Err::<Config, ConfigError>(ConfigError::MissingToken),
            token is Some && owner is None ==> r == Err::<Config, ConfigError>(ConfigError::MissingOwner),
            token is Some && owner is Some && repo is None ==> r == Err::<Config, ConfigError>(
                ConfigError::MissingRepo,
            ),
            (token is Some && owner is Some && repo is Some) <==> r is Ok,
            r matches Ok(c) ==> {
                &&& c.token == token->Some_0
                &&& c.owner == owner->Some_0
                &&& c.repo == repo->Some_0
            },
    {
        match token {
            None => Err(ConfigError::MissingToken),
            Some(token) => match owner {
                None => Err(ConfigError::MissingOwner),
                Some(owner) => match repo {
                    None => Err(ConfigError::MissingRepo),
                    Some(repo) => Ok(Config { token, owner, repo }),
                },
            },
        }
    }
}

} // verus!
