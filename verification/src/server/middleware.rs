//! What the authentication middleware reads from an access token.
use vstd::prelude::*;
use crate::server::services::token_service::{decode_sub_claim, hs256_sub_claim};

verus! {

/// The claims of an access token that the middleware uses.
#[derive(Debug, Clone)]
pub struct Claims {
    /// The account's identifier.
    pub sub: String,
    /// Expiry, as a Unix timestamp.
    pub exp: usize,
}

/// The account an access token names, for a protected request: the token
/// is decoded with the server's secret; `None` (the request is refused)
/// when it cannot be. A token without a valid `sub` claim under the secret
/// is always refused; one that is accepted gives its own `sub` claim.
/// Whether the decoder's clock refuses an expired token is not stated.
pub fn access_subject(token: &str, secret: &str) -> (r: Option<String>)
    ensures
        hs256_sub_claim(token@, secret@) is None ==> r is None,
        r matches Some(s) ==> hs256_sub_claim(token@, secret@) == Some(s@),
{
    decode_sub_claim(token, secret)
}

} // verus!
