//! The shared client handle.
//!
//! A [`Bot`] owns the configuration every call needs - the authentication
//! token.  Request values borrow it for exactly the lifetime of the call;
//! nothing is copied per request.  The HTTP client itself lives with the
//! caller that performs the exchange.

use vstd::prelude::*;

verus! {

/// Shared, read-only client configuration: the authentication token.
pub struct Bot {
    token: String,
}

impl Bot {
    /// The characters of the authentication token.
    pub closed spec fn spec_token(&self) -> Seq<char> {
        self.token@
    }

    /// A handle holding the given authentication token.
    pub fn new(token: &str) -> (r: Bot)
        ensures
            r.spec_token() == token@,
    {
        Bot { token: crate::json::string_of(token) }
    }

    /// The authentication token, borrowed for the call being built.
    pub fn token(&self) -> (r: &str)
        ensures
            r@ == self.spec_token(),
    {
        self.token.as_str()
    }
}

} // verus!
