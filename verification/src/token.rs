//! Bearer credentials: signed tokens that state an identity.

use vstd::prelude::*;
use crate::claims::{claims_in, Claims, ClaimsView};
use crate::json::{json_view, JsonView};

verus! {

/// `jsonwebtoken::errors::Error`, of which the hub reads nothing.
#[verifier::external_type_specification]
#[verifier::external_body]
pub struct ExTokenError(jsonwebtoken::errors::Error);

/// Why a credential was not accepted.
#[derive(Clone, Copy, Debug, PartialEq, Eq, Structural)]
pub enum AuthenticationFailure {
    /// The credential is not a token signed with the shared secret, or what
    /// it states is no identity.
    BadCredential,
    /// The credential was valid once and has expired.
    ExpiredCredential,
    /// No credential was presented.
    MissingCredential,
}

/// The seconds for which a credential is still accepted after its expiry
/// time, to allow for clocks that differ.
pub const LEEWAY_SECONDS: u64 = 60;

/// What the claims of `token` hold, where `jsonwebtoken::decode` accepts the
/// token under the HMAC secret `secret`; `None` where it reports an error.
pub uninterp spec fn signed_claims(token: Seq<u8>, secret: Seq<u8>) -> Option<JsonView>;

/// Calls `jsonwebtoken::decode` for a `Value`, with the key
/// `DecodingKey::from_secret(secret)` and the default validation but for the
/// test of the expiry time against the clock, which is switched off. What
/// is left depends on the token and the secret alone, with the crate's
/// built-in cryptography: the token has three parts, its header names
/// HS256, the signature is the secret's, the claims are JSON with a number
/// under `exp` and name no audience. The contract names what the claims
/// hold [`signed_claims`]: the same token and secret always give the same
/// claims, or always fail.
#[verifier::external_body]
fn decode_signed(token: &[u8], secret: &[u8]) -> (r: Result<
    serde_json::Value,
    jsonwebtoken::errors::Error,
>)
    ensures
        match r {
            Ok(v) => signed_claims(token@, secret@) == Some(json_view(v)),
            Err(_) => signed_claims(token@, secret@) is None,
        },
{
    let mut validation = jsonwebtoken::Validation::default();
    validation.validate_exp = false;
    let key = jsonwebtoken::DecodingKey::from_secret(secret);
    jsonwebtoken::decode::<serde_json::Value>(token, &key, &validation).map(|data| data.claims)
}

/// Whether a credential that expires at `exp` has expired at `now`, both in
/// seconds since the Unix epoch.
pub open spec fn expired(exp: usize, now: u64) -> bool {
    exp + LEEWAY_SECONDS < now
}

/// What becomes of a credential whose signed claims are `payload`, at the
/// time `now`: no claims, or claims that state no identity, are a bad
/// credential; an identity past its expiry is an expired one.
pub open spec fn verdict(payload: Option<JsonView>, now: u64) -> Result<
    ClaimsView,
    AuthenticationFailure,
> {
    match payload {
        None => Err(AuthenticationFailure::BadCredential),
        Some(v) => match claims_in(v) {
            None => Err(AuthenticationFailure::BadCredential),
            Some(c) => if expired(c.exp, now) {
                Err(AuthenticationFailure::ExpiredCredential)
            } else {
                Ok(c)
            },
        },
    }
}

/// The view of the outcome of an authentication.
pub open spec fn outcome_view(outcome: Result<Claims, AuthenticationFailure>) -> Result<
    ClaimsView,
    AuthenticationFailure,
> {
    match outcome {
        Ok(c) => Ok(c@),
        Err(e) => Err(e),
    }
}

/// Whether a credential that expires at `exp` has expired at `now`.
pub fn is_expired(exp: usize, now: u64) -> (gone: bool)
    ensures
        gone == expired(exp, now),
{
    now > LEEWAY_SECONDS && (exp as u64) < now - LEEWAY_SECONDS
}

/// Judges the claims of a token whose signature was accepted: they must
/// state an identity that has not expired at `now`.
pub fn accept_claims(payload: &serde_json::Value, now: u64) -> (outcome: Result<
    Claims,
    AuthenticationFailure,
>)
    ensures
        outcome_view(outcome) == verdict(Some(json_view(*payload)), now),
{
    match Claims::from_json(payload) {
        None => Err(AuthenticationFailure::BadCredential),
        Some(claims) => if is_expired(claims.exp, now) {
            Err(AuthenticationFailure::ExpiredCredential)
        } else {
            Ok(claims)
        },
    }
}

/// Authenticates a bearer token at the time `now`: its signature must be
/// the shared secret's, and its claims an identity that has not expired.
pub fn authenticate(token: &[u8], secret: &[u8], now: u64) -> (outcome: Result<
    Claims,
    AuthenticationFailure,
>)
    ensures
        outcome_view(outcome) == verdict(signed_claims(token@, secret@), now),
{
    match decode_signed(token, secret) {
        Ok(payload) => accept_claims(&payload, now),
        Err(_) => Err(AuthenticationFailure::BadCredential),
    }
}

} // verus!
