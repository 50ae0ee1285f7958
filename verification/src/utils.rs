//! The credential hasher, the token service and the e-mail rule.

use vstd::prelude::*;
use crate::clock::{seconds_of, unix_nanos};
use crate::constants::TOKEN_LIFETIME;
use crate::crypto::{
    argon2_accepts,
    argon2_hash,
    argon2_phc,
    argon2_verify,
    fresh_salt,
    is_compact,
    is_salt_text,
    jwt_decode,
    jwt_decoded,
    jwt_encode,
    jwt_encoded,
};
use crate::email::{is_email, matches_email};
use crate::model::errors::{GlobalServiceError, GlobalServiceErrorView, ServiceError};
use crate::model::view::res_view;
use crate::text::chars_of;

verus! {

/// What is stored for a password: the encoded hash, which names its
/// algorithm, parameters and salt, and the salt once more by itself.
#[derive(Debug, Clone, PartialEq, Eq)]
pub struct HashedPasswordAndSalt {
    pub hashed_password: String,
    pub salt: String,
}

pub struct HashedPasswordAndSaltView {
    pub hashed_password: Seq<char>,
    pub salt: Seq<char>,
}

impl View for HashedPasswordAndSalt {
    type V = HashedPasswordAndSaltView;

    open spec fn view(&self) -> HashedPasswordAndSaltView {
        HashedPasswordAndSaltView { hashed_password: self.hashed_password@, salt: self.salt@ }
    }
}

/// What hashing a password under a given salt yields: the encoded hash beside
/// the salt, or an internal error where the hasher fails.
pub open spec fn hashed(password: Seq<char>, salt: Seq<char>) -> Result<
    HashedPasswordAndSaltView,
    GlobalServiceErrorView,
> {
    match argon2_phc(password, salt) {
        Some(phc) => Ok(HashedPasswordAndSaltView { hashed_password: phc, salt }),
        None => Err(GlobalServiceErrorView::InternalServerError),
    }
}

/// Hashes a password under the salt it is handed. Whatever is returned as a
/// hash accepts the password it was made from.
pub fn hash_password_with(password: &str, salt: String) -> (r: Result<
    HashedPasswordAndSalt,
    GlobalServiceError,
>)
    ensures
        res_view(r) == hashed(password@, salt@),
        r matches Ok(h) ==> argon2_accepts(password@, h.hashed_password@),
{
    match argon2_hash(password, salt.as_str()) {
        Some(hashed_password) => Ok(HashedPasswordAndSalt { hashed_password, salt }),
        None => Err(GlobalServiceError::InternalServerError),
    }
}

/// What hashing a password yields once the salt has been drawn: what it
/// yields under that salt, or an internal error where none could be drawn.
pub open spec fn hashed_after(password: Seq<char>, drawn: Option<Seq<char>>) -> Result<
    HashedPasswordAndSaltView,
    GlobalServiceErrorView,
> {
    match drawn {
        Some(salt) => hashed(password, salt),
        None => Err(GlobalServiceErrorView::InternalServerError),
    }
}

/// Hashes a password under a salt drawn for this call. The outcome is that
/// of `hash_password_with` under the salt that was drawn, which has the shape
/// of a fresh salt and comes back beside the hash; where no salt could be
/// drawn, or the hasher fails, it is an internal error. A hash that comes
/// back accepts the password.
pub fn hash_password(password: &str) -> (r: Result<HashedPasswordAndSalt, GlobalServiceError>)
    ensures
        exists|drawn: Option<Seq<char>>|
            {
                &&& res_view(r) == #[trigger] hashed_after(password@, drawn)
                &&& drawn matches Some(salt) ==> is_salt_text(salt)
            },
        r matches Ok(h) ==> argon2_accepts(password@, h.hashed_password@),
{
    match fresh_salt() {
        Some(salt) => {
            let r = hash_password_with(password, salt);
            assert(res_view(r) == hashed_after(password@, Some(salt@)));
            r
        },
        None => {
            assert(hashed_after(password@, None) == Err::<HashedPasswordAndSaltView, _>(
                GlobalServiceErrorView::InternalServerError,
            ));
            Err(GlobalServiceError::InternalServerError)
        },
    }
}

/// Checks a password against a stored hash. It succeeds exactly when the
/// hash accepts the password. A hash that is malformed accepts nothing, and
/// is answered like a password that does not match.
pub fn verify_password(password: &str, hash_str: &str) -> (r: Result<(), GlobalServiceError>)
    ensures
        r is Ok <==> argon2_accepts(password@, hash_str@),
        r matches Err(e) ==> e@ is InternalServerError,
{
    if argon2_verify(password, hash_str) {
        Ok(())
    } else {
        Err(GlobalServiceError::InternalServerError)
    }
}

/// The claims of an identity token: when it was issued, when it expires, both
/// in seconds since the start of 1970, and whom it names.
#[derive(Debug, Clone, PartialEq, Eq)]
pub struct JWTClaim {
    pub iat: i64,
    pub exp: i64,
    pub email: String,
}

pub struct JWTClaimView {
    pub iat: i64,
    pub exp: i64,
    pub email: Seq<char>,
}

impl View for JWTClaim {
    type V = JWTClaimView;

    open spec fn view(&self) -> JWTClaimView {
        JWTClaimView { iat: self.iat, exp: self.exp, email: self.email@ }
    }
}

/// The claims of a token issued to `email` at the instant `now`: it expires
/// seven days later.
pub open spec fn claims_at(email: Seq<char>, now: i64) -> JWTClaimView {
    JWTClaimView { iat: now, exp: (now + TOKEN_LIFETIME) as i64, email }
}

/// What issuing a token to `email` at the instant `now` yields: the signed
/// claims, or an internal error where the expiry does not fit in 64 bits or
/// the signer fails.
pub open spec fn issued(email: Seq<char>, secret: Seq<char>, now: i64) -> Result<
    Seq<char>,
    GlobalServiceErrorView,
> {
    if now + TOKEN_LIFETIME > i64::MAX {
        Err(GlobalServiceErrorView::InternalServerError)
    } else {
        match jwt_encoded(now, (now + TOKEN_LIFETIME) as i64, email, secret) {
            Some(token) => Ok(token),
            None => Err(GlobalServiceErrorView::InternalServerError),
        }
    }
}

/// What validating a token at the instant `now` yields: its claims, where it
/// is genuine under `secret` and `now` lies before its expiry; otherwise the
/// one verdict that stands for every defect.
pub open spec fn validated(token: Seq<char>, secret: Seq<char>, now: i64) -> Result<
    JWTClaimView,
    ServiceError,
> {
    match jwt_decoded(token, secret) {
        Some(claims) => if now < claims.exp {
            Ok(claims)
        } else {
            Err(ServiceError::InvalidToken)
        },
        None => Err(ServiceError::InvalidToken),
    }
}

/// Holds when `token` is a compact token that reads, under `secret`, as the
/// claims of a token issued to `email` at the instant `now`.
pub open spec fn issued_to(
    token: Seq<char>,
    email: Seq<char>,
    secret: Seq<char>,
    now: i64,
) -> bool {
    &&& is_compact(token)
    &&& jwt_decoded(token, secret) == Some(claims_at(email, now))
}

/// Issues a token to `email` at the instant `now`, signed with `secret`. It
/// succeeds exactly when the expiry fits in 64 bits. The token that comes
/// back is compact and reads, under the same secret, as the claims it was
/// issued with.
pub fn generate_jwt_at(email: &String, secret: &str, now: i64) -> (r: Result<
    String,
    GlobalServiceError,
>)
    ensures
        res_view(r) == issued(email@, secret@, now),
        r is Ok <==> now + TOKEN_LIFETIME <= i64::MAX,
        r matches Ok(token) ==> issued_to(token@, email@, secret@, now),
{
    match now.checked_add(TOKEN_LIFETIME) {
        None => Err(GlobalServiceError::InternalServerError),
        Some(exp) => {
            let jwt_claim = JWTClaim { iat: now, exp, email: email.clone() };
            match jwt_encode(&jwt_claim, secret) {
                Some(token) => Ok(token),
                None => Err(GlobalServiceError::InternalServerError),
            }
        },
    }
}

/// Issues a token to `email` now, signed with `secret`: the outcome is that
/// of `generate_jwt_at` at some instant, the one the clock showed. Where the
/// clock cannot be read, that instant is the last one there is, at which no
/// token can be issued.
pub fn generate_jwt(email: &String, secret: &str) -> (r: Result<String, GlobalServiceError>)
    ensures
        exists|now: i64|
            {
                &&& res_view(r) == #[trigger] issued(email@, secret@, now)
                &&& r is Ok <==> now + TOKEN_LIFETIME <= i64::MAX
                &&& r matches Ok(token) ==> issued_to(token@, email@, secret@, now)
            },
{
    match unix_nanos() {
        None => {
            assert(issued(email@, secret@, i64::MAX) == Err::<Seq<char>, _>(
                GlobalServiceErrorView::InternalServerError,
            ));
            Err(GlobalServiceError::InternalServerError)
        },
        Some(nanos) => {
            let now = seconds_of(nanos);
            generate_jwt_at(email, secret, now)
        },
    }
}

/// Validates a token at the instant `now` against `secret`.
pub fn decode_jwt_at(token: &str, secret: &str, now: i64) -> (r: Result<JWTClaim, ServiceError>)
    ensures
        res_view(r) == validated(token@, secret@, now),
{
    match jwt_decode(token, secret) {
        Some(claims) => if now < claims.exp {
            Ok(claims)
        } else {
            Err(ServiceError::InvalidToken)
        },
        None => Err(ServiceError::InvalidToken),
    }
}

/// Validates a token now against `secret`: the outcome is that of
/// `decode_jwt_at` at some instant, the one the clock showed. Where the clock
/// cannot be read the token is not accepted.
pub fn decode_jwt(token: String, secret: &str) -> (r: Result<JWTClaim, ServiceError>)
    ensures
        exists|now: i64| res_view(r) == #[trigger] validated(token@, secret@, now),
{
    match unix_nanos() {
        None => {
            assert(validated(token@, secret@, i64::MAX) == Err::<JWTClaimView, _>(
                ServiceError::InvalidToken,
            ));
            Err(ServiceError::InvalidToken)
        },
        Some(nanos) => {
            let now = seconds_of(nanos);
            decode_jwt_at(token.as_str(), secret, now)
        },
    }
}

/// A token issued at `now` is valid at every instant before its expiry, and
/// then yields the address it was issued to and an expiry seven days after
/// its issue.
pub proof fn issued_token_validates(
    token: Seq<char>,
    email: Seq<char>,
    secret: Seq<char>,
    now: i64,
    later: i64,
)
    requires
        now + TOKEN_LIFETIME <= i64::MAX,
        issued_to(token, email, secret, now),
        later < now + TOKEN_LIFETIME,
    ensures
        validated(token, secret, later) matches Ok(claims) && claims.email == email && claims.exp
            == claims.iat + 604800,
{
}

/// A token is rejected at its expiry and at every instant after it.
pub proof fn expired_token_is_invalid(token: Seq<char>, secret: Seq<char>, now: i64)
    requires
        jwt_decoded(token, secret) matches Some(claims) && claims.exp <= now,
    ensures
        validated(token, secret, now) == Err::<JWTClaimView, _>(ServiceError::InvalidToken),
{
}

/// Tells whether a text is a well-formed e-mail address.
pub fn validate_email(email: &String) -> (r: bool)
    ensures
        r == is_email(email@),
{
    let chars = chars_of(email.as_str());
    matches_email(&chars)
}

} // verus!
