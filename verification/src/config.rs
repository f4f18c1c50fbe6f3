//! The configuration the surrounding process hands to the server.

use vstd::prelude::*;

verus! {

/// The values the server is started with; reading them from the
/// environment is the surrounding process's work.
#[derive(Debug, PartialEq, Eq)]
pub struct Config {
    pub server_port: String,
    pub database_url: String,
    pub auth_token: String,
}

impl Clone for Config {
    fn clone(&self) -> (r: Self)
        ensures
            r == *self,
    {
        Config {
            server_port: self.server_port.clone(),
            database_url: self.database_url.clone(),
            auth_token: self.auth_token.clone(),
        }
    }
}

} // verus!
