//! The settings the server is started with.

use vstd::prelude::*;

verus! {

/// Where the position store is, and the secret that access tokens are signed
/// with.
#[derive(Debug, Clone, PartialEq, Eq)]
pub struct Config {
    pub database_url: String,
    pub jwt_secret: String,
}

impl Config {
    /// The settings made of what was found for the two variables, each either
    /// its value or the reason it could not be read.
    ///
    /// Both values are needed. Where one is missing, the result is the reason
    /// for the first that is: the store's address comes before the secret.
    pub fn from_vars<E>(database_url: Result<String, E>, jwt_secret: Result<String, E>) -> (config:
        Result<Config, E>)
        ensures
            config == (match (database_url, jwt_secret) {
                (Ok(url), Ok(secret)) => Ok::<Config, E>(
                    Config { database_url: url, jwt_secret: secret },
                ),
                (Err(reason), _) => Err::<Config, E>(reason),
                (Ok(_), Err(reason)) => Err::<Config, E>(reason),
            }),
    {
        match database_url {
            Ok(url) => match jwt_secret {
                Ok(secret) => Ok(Config { database_url: url, jwt_secret: secret }),
                Err(reason) => Err(reason),
            },
            Err(reason) => Err(reason),
        }
    }
}

} // verus!
