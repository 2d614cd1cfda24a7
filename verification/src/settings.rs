//! Settings of a client.
use crate::time::Duration;
use vstd::prelude::*;

verus! {

/// What a user signs in with.
pub struct Credentials {
    pub login: Vec<u8>,
    pub password: Vec<u8>,
}

/// What holds for every command of a client that does not say otherwise.
pub struct ClientSettings {
    pub default_user_credentials: Option<Credentials>,
    pub connection_name: Option<String>,
    pub default_deadline: Option<Duration>,
}

impl ClientSettings {
    /// Who runs a command that names nobody.
    pub fn default_authenticated_user(&self) -> (r: &Option<Credentials>)
        ensures
            *r == self.default_user_credentials,
    {
        &self.default_user_credentials
    }
}

} // verus!
