use vstd::prelude::*;

verus! {

/// What a token states: the player it was issued to and the moment, in
/// seconds since the Unix epoch, at which it stops being valid.
#[derive(Debug, Clone, Copy)]
pub struct Claims {
    sub: u64,
    exp: usize,
}

/// Why a token was not issued or not accepted.
#[derive(Debug, Clone, Copy, PartialEq, Eq, Structural)]
pub enum TokenError {
    /// The token did not pass validation: it is malformed, its signature
    /// does not match, it has expired, or it lacks a claim.
    InvalidToken,
    /// The expiry of a new token would not fit the claim.
    ExpiryOutOfRange,
    /// The token could not be signed. Signing with the server's key does
    /// not fail, so no function of this module returns it.
    SigningFailed,
}

/// How long a token stays valid, in seconds.
pub const TOKEN_VALIDITY_SECS: u64 = 3600;

/// The key that tokens are signed with: the bytes of `my_secret_key`.
pub open spec fn jwt_secret() -> Seq<u8> {
    seq![109u8, 121, 95, 115, 101, 99, 114, 101, 116, 95, 107, 101, 121]
}

fn secret_key() -> (key: Vec<u8>)
    ensures
        key@ == jwt_secret(),
{
    let key: Vec<u8> = vec![109u8, 121, 95, 115, 101, 99, 114, 101, 116, 95, 107, 101, 121];
    key
}

impl Claims {
    pub closed spec fn spec_sub(&self) -> u64 {
        self.sub
    }

    pub closed spec fn spec_exp(&self) -> usize {
        self.exp
    }

    /// The player the token was issued to.
    #[verifier::when_used_as_spec(spec_sub)]
    pub fn sub(&self) -> (sub: u64)
        ensures
            sub == self.spec_sub(),
    {
        self.sub
    }

    /// The expiry, in seconds since the Unix epoch.
    #[verifier::when_used_as_spec(spec_exp)]
    pub fn exp(&self) -> (exp: usize)
        ensures
            exp == self.spec_exp(),
    {
        self.exp
    }

    /// The claims of a token issued to `user_id` at `now` (seconds since
    /// the Unix epoch): it expires `TOKEN_VALIDITY_SECS` later.
    pub fn issued_at(user_id: u64, now: u64) -> (claims: Result<Claims, TokenError>)
        ensures
            now + TOKEN_VALIDITY_SECS <= usize::MAX ==> (claims matches Ok(c) && c.sub() == user_id
                && c.exp() == now + TOKEN_VALIDITY_SECS),
            now + TOKEN_VALIDITY_SECS > usize::MAX ==> claims == Err::<Claims, TokenError>(
                TokenError::ExpiryOutOfRange,
            ),
    {
        if now > u64::MAX - TOKEN_VALIDITY_SECS {
            return Err(TokenError::ExpiryOutOfRange);
        }
        let expiry: u64 = now + TOKEN_VALIDITY_SECS;
        if expiry > usize::MAX as u64 {
            return Err(TokenError::ExpiryOutOfRange);
        }
        Ok(Claims { sub: user_id, exp: expiry as usize })
    }
}

/// `jsonwebtoken::errors::Error`, why a token was not made or not
/// accepted: a value that is never looked into.
#[verifier::external_type_specification]
#[verifier::external_body]
pub struct ExJwtError(jsonwebtoken::errors::Error);

/// The token that signing the claims `sub` and `exp` with `secret` gives.
pub uninterp spec fn signed_token(secret: Seq<u8>, sub: u64, exp: usize) -> Seq<char>;

/// `chrono::Utc::now` and `DateTime::timestamp`: the seconds since the Unix
/// epoch. `now` panics where the system clock stands before the epoch, so
/// the number is never negative. What it is depends on the time of the
/// call, so nothing is claimed of it.
#[verifier::external_body]
fn unix_timestamp() -> u64 {
    chrono::Utc::now().timestamp() as u64
}

/// `jsonwebtoken::encode` with the default header (HS256) and an HMAC key
/// made of `secret`, over the claims `sub` and `exp`, written in this
/// order. The crate signs with the provider of its `rust_crypto` feature,
/// so that a token is a function of the key and the claims. The call does
/// not fail: the key is of the family of the header, an HMAC takes a key of
/// any length, and a map of two numbers always has a JSON form.
#[verifier::external_body]
fn sign_claims(secret: &[u8], sub: u64, exp: usize) -> (token: Result<
    String,
    jsonwebtoken::errors::Error,
>)
    ensures
        token is Ok,
        token matches Ok(text) ==> text@ == signed_token(secret@, sub, exp),
{
    let mut claims = serde_json::Map::new();
    claims.insert("sub".to_string(), serde_json::Value::from(sub));
    claims.insert("exp".to_string(), serde_json::Value::from(exp as u64));
    jsonwebtoken::encode(
        &jsonwebtoken::Header::default(),
        &claims,
        &jsonwebtoken::EncodingKey::from_secret(secret),
    )
}

/// `jsonwebtoken::decode` with the default validation (HS256, `exp`
/// required and checked against the clock): the claims `sub` and `exp` of a
/// token that passes, each where the token holds it as an unsigned number.
/// Other claims are passed over. The outcome depends on the time of the
/// call, so nothing is claimed of it. The call panics where the system
/// clock stands before the Unix epoch.
#[verifier::external_body]
fn decode_claims(secret: &[u8], token: &str) -> (decoded: Result<
    (Option<u64>, Option<u64>),
    jsonwebtoken::errors::Error,
>) {
    match jsonwebtoken::decode::<std::collections::BTreeMap<String, serde_json::Value>>(
        token,
        &jsonwebtoken::DecodingKey::from_secret(secret),
        &jsonwebtoken::Validation::default(),
    ) {
        Ok(data) => Ok(
            (
                data.claims.get("sub").and_then(|v| v.as_u64()),
                data.claims.get("exp").and_then(|v| v.as_u64()),
            ),
        ),
        Err(e) => Err(e),
    }
}

/// The token that `user_id` is issued at `now`, where its expiry fits the
/// claim.
pub open spec fn token_for(user_id: u64, now: u64) -> Seq<char> {
    signed_token(jwt_secret(), user_id, (now + TOKEN_VALIDITY_SECS) as usize)
}

/// Issues a token to `user_id` at `now`, in seconds since the Unix epoch:
/// the token signed over `user_id` and the expiry `TOKEN_VALIDITY_SECS`
/// after `now`. It is refused only where that expiry does not fit the
/// claim.
pub fn issue_token_at(user_id: u64, now: u64) -> (token: Result<String, TokenError>)
    ensures
        now + TOKEN_VALIDITY_SECS > usize::MAX ==> token == Err::<String, TokenError>(
            TokenError::ExpiryOutOfRange,
        ),
        now + TOKEN_VALIDITY_SECS <= usize::MAX ==> (token matches Ok(text) && text@
            == token_for(user_id, now)),
{
    match Claims::issued_at(user_id, now) {
        Ok(claims) => {
            let key = secret_key();
            match sign_claims(key.as_slice(), claims.sub(), claims.exp()) {
                Ok(text) => Ok(text),
                Err(_) => Err(TokenError::SigningFailed),
            }
        },
        Err(e) => Err(e),
    }
}

/// Issues a token to `user_id`, valid for `TOKEN_VALIDITY_SECS` from now:
/// what `issue_token_at` gives at the present time of the clock.
pub fn genenrate_token(user_id: u64) -> (token: Result<String, TokenError>)
    ensures
        match token {
            Ok(text) => exists|now: u64|
                now + TOKEN_VALIDITY_SECS <= usize::MAX && text@ == #[trigger] token_for(
                    user_id,
                    now,
                ),
            Err(e) => e == TokenError::ExpiryOutOfRange,
        },
{
    let now = unix_timestamp();
    let token = issue_token_at(user_id, now);
    token
}

/// The claims of a decoded token: both `sub` and `exp` must be there, and
/// `exp` must fit the claim.
pub fn claims_of<E>(decoded: Result<(Option<u64>, Option<u64>), E>) -> (claims: Result<
    Claims,
    TokenError,
>)
    ensures
        match decoded {
            Ok((Some(sub), Some(exp))) if exp <= usize::MAX => (claims matches Ok(c) && c.sub()
                == sub && c.exp() == exp),
            _ => claims == Err::<Claims, TokenError>(TokenError::InvalidToken),
        },
{
    match decoded {
        Ok((Some(sub), Some(exp))) => {
            if exp <= usize::MAX as u64 {
                Ok(Claims { sub, exp: exp as usize })
            } else {
                Err(TokenError::InvalidToken)
            }
        },
        _ => Err(TokenError::InvalidToken),
    }
}

/// Validates a token against the signing key and the clock, and returns
/// its claims.
pub fn validate_token(token: &str) -> (claims: Result<Claims, TokenError>)
    ensures
        claims matches Err(e) ==> e == TokenError::InvalidToken,
{
    let key = secret_key();
    claims_of(decode_claims(key.as_slice(), token))
}

} // verus!
