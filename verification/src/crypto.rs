//! What the library has from `argon2` and `jsonwebtoken`.
//!
//! Nothing in this file is proved. Each function states what the crate it
//! calls computes, as a function of the arguments and of nothing else, and
//! the few facts about those computations that the rest of the library
//! builds on.

use vstd::prelude::*;
use argon2::password_hash::rand_core::{OsRng, RngCore};
use argon2::password_hash::{Salt, SaltString};
use argon2::{Argon2, PasswordHash, PasswordHasher, PasswordVerifier};
use jsonwebtoken::{DecodingKey, EncodingKey, Header, Validation};
use crate::model::view::opt_view;
use crate::utils::{JWTClaim, JWTClaimView};

verus! {

/// The PHC string that `Argon2::default().hash_password` derives from a
/// password and a salt in B64, or `None` where the salt is not one that
/// `SaltString::from_b64` accepts or Argon2 refuses the input.
pub uninterp spec fn argon2_phc(password: Seq<char>, salt: Seq<char>) -> Option<Seq<char>>;

/// Whether `Argon2::default().verify_password` accepts a password against a
/// stored string: the string parses as a PHC string, and hashing the password
/// with the algorithm, parameters and salt written in it gives the digest
/// written in it.
pub uninterp spec fn argon2_accepts(password: Seq<char>, phc: Seq<char>) -> bool;

/// The compact JWT that `jsonwebtoken::encode` makes of the claims `iat`,
/// `exp` and `email`, in that order, with the default header (HS256) and
/// `secret` as the HMAC key; `None` where it fails, which it never does.
pub uninterp spec fn jwt_encoded(
    iat: i64,
    exp: i64,
    email: Seq<char>,
    secret: Seq<char>,
) -> Option<Seq<char>>;

/// The claims that `jsonwebtoken::decode` reads from a token under `secret`:
/// the token has three parts, its header names HS256, its signature is the
/// HMAC of the first two parts under `secret`, and its payload is a JSON
/// object with integers `iat` and `exp` that fit `i64` and a string `email`.
/// `None` for every other token. The expiry is read, not judged.
pub uninterp spec fn jwt_decoded(token: Seq<char>, secret: Seq<char>) -> Option<JWTClaimView>;

/// The shape of a salt as it is drawn here: sixteen bytes in B64 without
/// padding, which is twenty-two characters out of letters, digits, `+` and
/// `/`.
pub open spec fn is_salt_text(salt: Seq<char>) -> bool {
    &&& salt.len() == 22
    &&& forall|i: int|
        0 <= i < salt.len() ==> {
            let c = #[trigger] salt[i];
            'a' <= c <= 'z' || 'A' <= c <= 'Z' || '0' <= c <= '9' || c == '+' || c == '/'
        }
}

/// The shape of a compact token: not empty, and made of the letters, digits,
/// `-` and `_` of URL-safe Base64 and of the `.` between its parts.
pub open spec fn is_compact(token: Seq<char>) -> bool {
    &&& token.len() > 0
    &&& forall|i: int|
        0 <= i < token.len() ==> {
            let c = #[trigger] token[i];
            'a' <= c <= 'z' || 'A' <= c <= 'Z' || '0' <= c <= '9' || c == '-' || c == '_' || c
                == '.'
        }
}

/// A fresh salt: `Salt::RECOMMENDED_LENGTH` bytes from the operating system's
/// random number generator, by `OsRng.try_fill_bytes`, turned into text by
/// `SaltString::encode_b64`; `None` where the system supplies no random
/// bytes. The text differs from call to call, so only its shape is stated.
#[verifier::external_body]
pub(crate) fn fresh_salt() -> (r: Option<String>)
    ensures
        r matches Some(salt) ==> is_salt_text(salt@),
{
    let mut bytes = [0u8; Salt::RECOMMENDED_LENGTH];
    OsRng.try_fill_bytes(&mut bytes).ok()?;
    Some(SaltString::encode_b64(&bytes).ok()?.as_str().to_string())
}

/// Hashes a password under a salt: `SaltString::from_b64`, then
/// `Argon2::default().hash_password`, then the PHC string of the outcome.
///
/// The second clause is the one fact about Argon2 that the library relies
/// on: a string made here is accepted for the password it was made from.
/// `verify_password` reads algorithm, version, parameters and salt out of the
/// string and repeats the computation, so it arrives at the digest that was
/// written into it.
#[verifier::external_body]
pub(crate) fn argon2_hash(password: &str, salt: &str) -> (r: Option<String>)
    ensures
        opt_view(r) == argon2_phc(password@, salt@),
        r matches Some(phc) ==> argon2_accepts(password@, phc@),
{
    let salt = SaltString::from_b64(salt).ok()?;
    let hash = Argon2::default().hash_password(password.as_bytes(), &salt).ok()?;
    Some(hash.to_string())
}

/// Checks a password against a stored string: `PasswordHash::new`, then
/// `Argon2::default().verify_password`. A string that does not parse is a
/// string that does not accept. The computation takes the memory that the
/// parameters written in the string ask for.
#[verifier::external_body]
pub(crate) fn argon2_verify(password: &str, phc: &str) -> (r: bool)
    ensures
        r == argon2_accepts(password@, phc@),
{
    match PasswordHash::new(phc) {
        Ok(hash) => Argon2::default().verify_password(password.as_bytes(), &hash).is_ok(),
        Err(_) => false,
    }
}

/// Signs a claim set: `jsonwebtoken::encode` with `Header::default()` and
/// `EncodingKey::from_secret`, on a JSON object that holds the three claims
/// in the order `iat`, `exp`, `email`.
///
/// The second clause says that the call succeeds: the key is of the family
/// of HS256, the header and an object of two integers and a string always
/// serialise, and an HMAC is always computed. The third says that the token
/// is compact: three parts in URL-safe Base64 without padding, joined by `.`.
///
/// The last clause says that a token made here reads back, under the same
/// secret, as the claims it was made from: `decode` recomputes the HMAC over
/// the same two parts with the same key, and the payload is the JSON text of
/// two integers and a string.
#[verifier::external_body]
pub(crate) fn jwt_encode(claims: &JWTClaim, secret: &str) -> (r: Option<String>)
    ensures
        opt_view(r) == jwt_encoded(claims.iat, claims.exp, claims.email@, secret@),
        r is Some,
        r matches Some(token) ==> is_compact(token@),
        r matches Some(token) ==> jwt_decoded(token@, secret@) == Some(claims@),
{
    let mut payload = serde_json::Map::new();
    payload.insert("iat".to_string(), serde_json::Value::from(claims.iat));
    payload.insert("exp".to_string(), serde_json::Value::from(claims.exp));
    payload.insert("email".to_string(), serde_json::Value::from(claims.email.as_str()));
    let key = EncodingKey::from_secret(secret.as_bytes());
    jsonwebtoken::encode(&Header::default(), &payload, &key).ok()
}

/// Reads a token: `jsonwebtoken::decode` with `DecodingKey::from_secret` and
/// the default validation (HS256 only) with the expiry check switched off,
/// so that the outcome depends on the token and the secret alone. The three
/// claims are then taken out of the payload. `decode` reads the system clock
/// even so, and panics where it stands before 1970.
#[verifier::external_body]
pub(crate) fn jwt_decode(token: &str, secret: &str) -> (r: Option<JWTClaim>)
    ensures
        opt_view(r) == jwt_decoded(token@, secret@),
{
    let validation = Validation { validate_exp: false, ..Validation::default() };
    let key = DecodingKey::from_secret(secret.as_bytes());
    let payload = jsonwebtoken::decode::<serde_json::Value>(token, &key, &validation).ok()?.claims;
    Some(
        JWTClaim {
            iat: payload.get("iat")?.as_i64()?,
            exp: payload.get("exp")?.as_i64()?,
            email: payload.get("email")?.as_str()?.to_string(),
        },
    )
}

} // verus!
