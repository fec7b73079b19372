//! Request authorization: the bearer token carried in the request headers
//! resolves to a principal, or the request is turned away with nothing
//! looked at.

use vstd::prelude::*;

use vstd::string::StrSliceExecFns;

use crate::catalog::{Config, User, TOKEN_LENGTH};

verus! {

/// The header-borne token authorizer.
#[derive(Clone, Copy, Debug)]
pub struct Token;

/// A header list that authorizes: exactly one value, of token length,
/// bound in the roster.
pub open spec fn spec_authorized(headers: Seq<String>, config: &Config) -> bool {
    &&& headers.len() == 1
    &&& headers[0]@.len() == TOKEN_LENGTH
    &&& config.spec_contains_token(headers[0]@)
}

impl Token {
    /// Resolve the authorization headers of one request: a missing token,
    /// a second token, a wrong-length token or an unknown token all end
    /// the request; otherwise the bound principal comes back.
    pub fn authorize(&self, headers: &Vec<String>, config: &Config) -> (r: Option<User>)
        ensures
            match r {
                Some(u) => spec_authorized(headers@, config) && config.has_pair(headers@[0]@, u),
                None => !spec_authorized(headers@, config),
            },
    {
        if headers.len() != 1 {
            return None;
        }
        let token = &headers[0];
        if token.as_str().unicode_len() != TOKEN_LENGTH {
            return None;
        }
        config.get(token.as_str())
    }
}

} // verus!
