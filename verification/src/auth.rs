//! Deciding whether a caller holds a moderator's credential.
//!
//! A credential is a key. It is accepted if it matches one of the stored
//! salted hashes, each written in the PHC string format.

use vstd::prelude::*;
use vstd::string::*;
use vstd::utf8::encode_utf8;

verus! {

/// Why a caller was not authorized.
#[derive(Clone, Copy, Debug, PartialEq, Eq, Structural)]
pub enum AuthError {
    /// The request carries no credential.
    MissingCredential,
    /// The credential matches none of the stored hashes.
    InvalidToken,
}

/// Whether Argon2 with its default settings, asked to verify `key` against
/// the stored hash `hash`, accepts: the hash is a well-formed PHC string
/// and the key hashes to it under the salt and parameters it names.
pub uninterp spec fn argon2_accepts(key: Seq<u8>, hash: Seq<char>) -> bool;

/// Calls `argon2::password_hash::PasswordHash::new` on the stored hash and
/// `verify_password` of `argon2::Argon2::default()` on the key. Trusted:
/// the answer depends on the key and the hash alone; it is named
/// `argon2_accepts`. A hash that does not parse is not accepted.
#[verifier::external_body]
fn key_matches(key: &[u8], hash: &str) -> (r: bool)
    ensures
        r == argon2_accepts(key@, hash@),
{
    match argon2::password_hash::PasswordHash::new(hash) {
        Ok(parsed) => argon2::password_hash::PasswordVerifier::verify_password(
            &argon2::Argon2::default(),
            key,
            &parsed,
        ).is_ok(),
        Err(_) => false,
    }
}

/// Whether some stored hash accepts the key.
pub open spec fn key_accepted(key: Seq<u8>, hashes: Seq<String>) -> bool {
    exists|i: int| 0 <= i < hashes.len() && argon2_accepts(key, #[trigger] hashes[i]@)
}

/// The verdict on a key, given for each stored hash whether it accepted
/// the key: one acceptance is enough.
pub fn verdict(accepted: &Vec<bool>) -> (r: Result<(), AuthError>)
    ensures
        r is Ok <==> exists|i: int| 0 <= i < accepted@.len() && #[trigger] accepted@[i],
        r is Err ==> r == Err::<(), AuthError>(AuthError::InvalidToken),
{
    let mut i: usize = 0;
    while i < accepted.len()
        invariant
            i <= accepted.len(),
            forall|k: int| 0 <= k < i ==> !#[trigger] accepted@[k],
        decreases accepted.len() - i,
    {
        if accepted[i] {
            return Ok(());
        }
        i += 1;
    }
    Err(AuthError::InvalidToken)
}

/// Checks a key against the stored hashes. The key is accepted if and only
/// if one of the hashes accepts it. Every hash is tried, whichever accepts.
pub fn check_auth_key(key: &[u8], hashes: &Vec<String>) -> (r: Result<(), AuthError>)
    ensures
        r is Ok <==> key_accepted(key@, hashes@),
        r is Err ==> r == Err::<(), AuthError>(AuthError::InvalidToken),
{
    let mut accepted: Vec<bool> = Vec::new();
    let mut i: usize = 0;
    while i < hashes.len()
        invariant
            i <= hashes.len(),
            accepted@.len() == i,
            forall|k: int|
                0 <= k < i ==> accepted@[k] == argon2_accepts(key@, #[trigger] hashes@[k]@),
        decreases hashes.len() - i,
    {
        accepted.push(key_matches(key, hashes[i].as_str()));
        i += 1;
    }
    let r: Result<(), AuthError> = verdict(&accepted);
    proof {
        if r is Ok {
            let k = choose|k: int| 0 <= k < accepted@.len() && #[trigger] accepted@[k];
            assert(argon2_accepts(key@, hashes@[k]@));
        }
        if key_accepted(key@, hashes@) {
            let k = choose|k: int|
                0 <= k < hashes@.len() && argon2_accepts(key@, #[trigger] hashes@[k]@);
            assert(accepted@[k]);
        }
    }
    r
}

/// Checks a bearer token against the stored hashes.
pub fn check_auth_header(token: &str, hashes: &Vec<String>) -> (r: Result<(), AuthError>)
    ensures
        r is Ok <==> key_accepted(encode_utf8(token@), hashes@),
        r is Err ==> r == Err::<(), AuthError>(AuthError::InvalidToken),
{
    check_auth_key(token.as_bytes(), hashes)
}

/// Checks a bearer token against one stored hash.
pub fn check_api_key(token: &str, hash: &str) -> (r: Result<(), AuthError>)
    ensures
        r is Ok <==> argon2_accepts(encode_utf8(token@), hash@),
        r is Err ==> r == Err::<(), AuthError>(AuthError::InvalidToken),
{
    if key_matches(token.as_bytes(), hash) {
        Ok(())
    } else {
        Err(AuthError::InvalidToken)
    }
}

/// Checks a request's credential: the key of the query where there is one,
/// else the bearer token of the header. A request with neither is refused
/// without a look at the hashes.
pub fn check_auth(
    auth_query: Option<&String>,
    auth_header: Option<&str>,
    hashes: &Vec<String>,
) -> (r: Result<(), AuthError>)
    ensures
        match (auth_query, auth_header) {
            (Some(key), _) => (r is Ok <==> key_accepted(encode_utf8(key@), hashes@)) && (r is Err
                ==> r == Err::<(), AuthError>(AuthError::InvalidToken)),
            (None, Some(token)) => (r is Ok <==> key_accepted(encode_utf8(token@), hashes@)) && (r
                is Err ==> r == Err::<(), AuthError>(AuthError::InvalidToken)),
            (None, None) => r == Err::<(), AuthError>(AuthError::MissingCredential),
        },
{
    if let Some(key) = auth_query {
        return check_auth_key(key.as_str().as_bytes(), hashes);
    }
    if let Some(token) = auth_header {
        return check_auth_header(token, hashes);
    }
    Err(AuthError::MissingCredential)
}

} // verus!
