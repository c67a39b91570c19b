//! The dashboard's configuration: where the forge is and how to
//! authenticate. Both values are required; reading and parsing the on-disk
//! file is the shell's work, which hands the two strings in.

use vstd::prelude::*;

verus! {

/// The two configured values: the forge's base URL and the bearer
/// credential.
#[derive(Debug)]
pub struct Config {
    pub host: String,
    pub token: String,
}

impl Config {
    /// Assemble a configuration from its two values.
    pub fn new(host: String, token: String) -> (r: Self)
        ensures
            r.host == host,
            r.token == token,
    {
        Config { host, token }
    }
}

} // verus!
