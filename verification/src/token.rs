//! Transfer tokens: HS256 JSON web tokens, checked by jwt_compact, and the
//! rule that turns the check and the clock into an answer.
use vstd::prelude::*;

use jwt_compact::{alg::Hs256, alg::Hs256Key, AlgorithmExt, UntrustedToken};

use crate::error::{AppError, AppErrorSpec};
use crate::notifications::{current_timestamp, Timestamp};
use crate::text::owned;
use vstd::string::StringSliceAdditionalSpecFns;

verus! {

/// What jwt_compact makes of a token under an HS256 key.
#[derive(Debug, Clone, PartialEq, Eq)]
pub enum TokenCheck {
    /// The text is not a token.
    Malformed,
    /// The token does not pass validation: wrong algorithm, bad signature or
    /// claims that are not JSON.
    Rejected,
    /// The signature holds: the expiration (Unix seconds) where the token
    /// has one, and the custom claims as JSON text.
    Valid { expiration: Option<i64>, claims: String },
}

/// The model of a [`TokenCheck`].
pub enum TokenCheckSpec {
    Malformed,
    Rejected,
    Valid(Option<i64>, Seq<char>),
}

impl View for TokenCheck {
    type V = TokenCheckSpec;

    open spec fn view(&self) -> TokenCheckSpec {
        match self {
            TokenCheck::Malformed => TokenCheckSpec::Malformed,
            TokenCheck::Rejected => TokenCheckSpec::Rejected,
            TokenCheck::Valid { expiration, claims } => TokenCheckSpec::Valid(*expiration, claims@),
        }
    }
}

/// What `UntrustedToken::new` and the `Hs256` validator make of a token under
/// a key, as a function of the key's bytes and the token's text.
pub uninterp spec fn hs256_check(secret: Seq<u8>, token: Seq<char>) -> TokenCheckSpec;

/// `UntrustedToken::new`, then `Hs256.validator::<serde_json::Value>(&Hs256Key::new(secret)).validate`,
/// the expiration read back as Unix seconds and the custom claims as JSON
/// text: claims that the result is a function of the key and the token alone.
#[verifier::external_body]
fn hs256_token_check(secret: &[u8], token: &str) -> (r: TokenCheck)
    ensures
        r@ == hs256_check(secret@, token@),
{
    let untrusted = match UntrustedToken::new(token) {
        Ok(untrusted) => untrusted,
        Err(_) => return TokenCheck::Malformed,
    };
    match Hs256.validator::<serde_json::Value>(&Hs256Key::new(secret)).validate(&untrusted) {
        Ok(verified) => TokenCheck::Valid {
            expiration: verified.claims().expiration.map(|e| e.timestamp()),
            claims: verified.claims().custom.to_string(),
        },
        Err(_) => TokenCheck::Rejected,
    }
}

/// A token has expired once the clock is past its expiration plus the leeway.
pub open spec fn is_expired(expiration: i64, leeway_seconds: i64, now: Timestamp) -> bool {
    now.seconds > expiration + leeway_seconds || (now.seconds == expiration + leeway_seconds
        && now.nanos > 0)
}

/// The answer to a token: its claims where it is valid, has an expiration and
/// has not expired; `Invalid token` otherwise.
pub open spec fn token_result(check: TokenCheckSpec, now: Timestamp, leeway_seconds: i64) -> Result<
    Seq<char>,
    AppErrorSpec,
> {
    match check {
        TokenCheckSpec::Valid(Some(expiration), claims) => if is_expired(
            expiration,
            leeway_seconds,
            now,
        ) {
            Err(AppErrorSpec::Unauthorized("Invalid token"@))
        } else {
            Ok(claims)
        },
        _ => Err(AppErrorSpec::Unauthorized("Invalid token"@)),
    }
}

/// A token is accepted, with its claims, only where it is valid and carries an
/// expiration, and then exactly while the clock (nanoseconds since the epoch)
/// has not passed its expiration plus the leeway, in whole seconds.
pub proof fn lemma_token_expiry(
    check: TokenCheckSpec,
    now: Timestamp,
    leeway_seconds: i64,
)
    requires
        now.nanos < 1_000_000_000,
    ensures
        token_result(check, now, leeway_seconds) is Ok ==> check is Valid && check->Valid_0 is Some,
        token_result(check, now, leeway_seconds) is Err ==> token_result(check, now, leeway_seconds)
            == Err::<Seq<char>, AppErrorSpec>(AppErrorSpec::Unauthorized("Invalid token"@)),
        check matches TokenCheckSpec::Valid(Some(expiration), claims) ==> (token_result(
            check,
            now,
            leeway_seconds,
        ) == if now.seconds * 1_000_000_000 + now.nanos <= (expiration + leeway_seconds)
            * 1_000_000_000 {
            Ok::<Seq<char>, AppErrorSpec>(claims)
        } else {
            Err(AppErrorSpec::Unauthorized("Invalid token"@))
        }),
{
    if let TokenCheckSpec::Valid(Some(expiration), claims) = check {
        let limit: int = expiration + leeway_seconds;
        let t: int = now.seconds * 1_000_000_000 + now.nanos;
        if now.seconds < limit {
            assert(t < limit * 1_000_000_000);
        } else if now.seconds > limit {
            assert(t >= limit * 1_000_000_000 + 1_000_000_000);
        }
    }
}

/// Answers a checked token at the time `now`.
pub fn token_outcome(check: &TokenCheck, now: Timestamp, leeway_seconds: i64) -> (r: Result<
    String,
    AppError,
>)
    ensures
        match r {
            Ok(c) => token_result(check@, now, leeway_seconds) == Ok::<Seq<char>, AppErrorSpec>(c@),
            Err(e) => token_result(check@, now, leeway_seconds) == Err::<Seq<char>, AppErrorSpec>(e@),
        },
{
    match check {
        TokenCheck::Valid { expiration: Some(expiration), claims } => {
            let limit: i128 = *expiration as i128 + leeway_seconds as i128;
            let seconds: i128 = now.seconds as i128;
            if seconds > limit || (seconds == limit && now.nanos > 0) {
                Err(AppError::Unauthorized(owned("Invalid token")))
            } else {
                Ok(owned(claims.as_str()))
            }
        },
        _ => Err(AppError::Unauthorized(owned("Invalid token"))),
    }
}

/// Verifies a transfer token under the secret: its custom claims as JSON
/// text, or `Invalid token` where it is malformed, forged, without an
/// expiration or expired at the time the clock gives.
pub fn verify_token(secret: &str, token: &str, leeway_seconds: i64) -> (r: Result<String, AppError>)
    ensures
        exists|now: Timestamp|
            #![trigger token_result(hs256_check(secret.spec_bytes(), token@), now, leeway_seconds)]
            match r {
                Ok(c) => token_result(hs256_check(secret.spec_bytes(), token@), now, leeway_seconds)
                    == Ok::<Seq<char>, AppErrorSpec>(c@),
                Err(e) => token_result(hs256_check(secret.spec_bytes(), token@), now, leeway_seconds)
                    == Err::<Seq<char>, AppErrorSpec>(e@),
            },
{
    let check = hs256_token_check(secret.as_bytes(), token);
    let now = current_timestamp();
    token_outcome(&check, now, leeway_seconds)
}

} // verus!
