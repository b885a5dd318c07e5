//! Revoked access tokens, kept in Redis until they expire.
use vstd::prelude::*;

verus! {

/// The Redis key under which a revoked token is kept.
pub open spec fn blacklist_key_of(token: Seq<char>) -> Seq<char> {
    "blacklist:"@ + token
}

/// The Redis key under which a revoked token is kept.
pub fn blacklist_key(token: &str) -> (r: String)
    ensures
        r@ == blacklist_key_of(token@),
{
    let mut k = "blacklist:".to_owned();
    k.append(token);
    k
}

} // verus!
