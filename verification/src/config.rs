//! Configuration values and the precedence rule that resolves them: an
//! explicit flag wins, then the environment, then the user's config file;
//! when all three are silent, a configuration error.

use vstd::prelude::*;

verus! {

/// The two values a user must provide, read from the config file when
/// flags and environment are silent.
#[derive(Clone, Debug, PartialEq)]
pub struct Configuration {
    pub server: String,
    pub key: String,
}

/// A value that none of the three sources provided.
#[derive(Clone, Copy, Debug, PartialEq, Eq, Structural)]
pub struct ConfigError {}

impl ConfigError {
    /// The user-facing text for the error.
    pub fn describe(&self) -> (r: &'static str)
        ensures
            r@ == "the api-key and server url must be provided via command line, env variable, or configuartion file"@,
    {
        "the api-key and server url must be provided via command line, env variable, or configuartion file"
    }
}

/// Resolves one setting by precedence: the explicit flag first, then the
/// environment variable, then the config file's value; an error exactly
/// when all three are absent.
pub fn resolve_setting(flag: Option<String>, env: Option<String>, file: Option<String>) -> (r:
    Result<String, ConfigError>)
    ensures
        flag matches Some(v) ==> (r matches Ok(o) && o@ == v@),
        flag is None ==> (env matches Some(v) ==> (r matches Ok(o) && o@ == v@)),
        flag is None && env is None ==> (file matches Some(v) ==> (r matches Ok(o) && o@ == v@)),
        flag is None && env is None && file is None ==> r is Err,
{
    match flag {
        Some(v) => Ok(v),
        None => match env {
            Some(v) => Ok(v),
            None => match file {
                Some(v) => Ok(v),
                None => Err(ConfigError {  }),
            },
        },
    }
}

} // verus!
