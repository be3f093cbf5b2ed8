//! Signed bearer credentials: issuing them and deciding whether one is
//! accepted.
//!
//! A credential carries a subject (the user's identifier as text) and an
//! expiry in Unix seconds. Signing and signature checking are done by the
//! `jsonwebtoken` crate; the expiry rule and the reading of the subject are
//! decided here, against a clock value that the caller can supply.

use vstd::prelude::*;

verus! {

/// Seconds in one day, the unit in which a credential's lifetime is given.
pub const SECONDS_PER_DAY: i64 = 86_400;

/// Why a request was not resolved to a known user.
#[derive(Debug, Clone, Copy, PartialEq, Eq, Structural)]
pub enum AuthError {
    /// Neither the header nor the cookie held a credential.
    MissingCredential,
    /// The credential could not be read.
    Malformed,
    /// The credential was not signed with the configured secret.
    InvalidSignature,
    /// The credential's expiry is not in the future.
    Expired,
    /// The credential is good, but its user no longer exists.
    PrincipalNotFound,
    /// The user lookup itself failed.
    InternalError,
}

/// Why no credential was issued.
#[derive(Debug, Clone, Copy, PartialEq, Eq, Structural)]
pub enum IssueError {
    /// The expiry does not fit in 64-bit Unix seconds.
    ExpiryOutOfRange,
    /// The signer reported a failure.
    Signing,
}

/// How the decoder turned a credential down.
#[derive(Debug, Clone, Copy, PartialEq, Eq, Structural)]
pub enum DecodeFailure {
    /// The signature does not belong to the secret.
    InvalidSignature,
    /// Anything else: wrong shape, wrong algorithm, unreadable payload.
    Unreadable,
}

/// What a successful issue or verification hands back.
#[derive(Debug, Clone, PartialEq, Eq)]
pub struct TokenDetails {
    /// The signed credential; present after issuing only.
    pub token: Option<String>,
    pub user_id: u128,
    /// The expiry in Unix seconds; present after issuing only.
    pub expires_in: Option<i64>,
}

/// The payload of a credential.
#[derive(Debug, Clone, PartialEq, Eq)]
pub struct TokenClaims {
    /// The user's identifier in its hyphenated text form.
    pub sub: String,
    /// The expiry in Unix seconds.
    pub exp: i64,
}

/// The payload fields as they came out of the decoder: each is absent when
/// the payload did not hold it with the right type.
pub type RawClaims = (Option<Seq<char>>, Option<i64>);

/// The credential that `jsonwebtoken::encode` produces with HS256 for the
/// payload `{sub, exp}` under `secret`, or `None` where it reports an error.
pub uninterp spec fn jwt_encoded(secret: Seq<char>, sub: Seq<char>, exp: i64) -> Option<Seq<char>>;

/// What `jsonwebtoken::decode` makes of `token` under `secret` with HS256,
/// when it checks the signature and the payload's shape but not the expiry.
pub uninterp spec fn jwt_decoded(secret: Seq<char>, token: Seq<char>) -> Result<
    RawClaims,
    DecodeFailure,
>;

/// The hyphenated lower-case text of the identifier `id`.
pub uninterp spec fn uuid_text(id: u128) -> Seq<char>;

/// The identifier that `text` spells, if it spells one.
pub uninterp spec fn uuid_parsed(text: Seq<char>) -> Option<u128>;

#[verifier::external_type_specification]
#[verifier::external_body]
pub struct ExJwtError(jsonwebtoken::errors::Error);

/// Calls `chrono::Utc::now` and returns its Unix timestamp. Nothing is
/// claimed of the value.
#[verifier::external_body]
fn unix_now() -> i64 {
    chrono::Utc::now().timestamp()
}

/// Calls `Uuid::from_u128(id).to_string()`. The contract names the text and
/// claims that `Uuid::parse_str` reads the same identifier back from it.
#[verifier::external_body]
fn uuid_to_text(id: u128) -> (text: String)
    ensures
        text@ == uuid_text(id),
        uuid_parsed(text@) == Some(id),
{
    uuid::Uuid::from_u128(id).to_string()
}

/// Calls `Uuid::parse_str` and returns the identifier's 128-bit value, or
/// `None` where the text is not an identifier.
#[verifier::external_body]
fn uuid_from_text(text: &str) -> (id: Option<u128>)
    ensures
        id == uuid_parsed(text@),
{
    match uuid::Uuid::parse_str(text) {
        Ok(u) => Some(u.as_u128()),
        Err(_) => None,
    }
}

/// Calls `jsonwebtoken::encode` with an HS256 header, the payload
/// `{sub, exp}` and `secret` as the key. The contract names the credential
/// and claims that decoding it under the same secret gives both fields back.
#[verifier::external_body]
fn encode_claims(secret: &str, sub: &str, exp: i64) -> (r: Result<
    String,
    jsonwebtoken::errors::Error,
>)
    ensures
        match r {
            Ok(token) => jwt_encoded(secret@, sub@, exp) == Some(token@) && jwt_decoded(
                secret@,
                token@,
            ) == Ok::<RawClaims, DecodeFailure>((Some(sub@), Some(exp))),
            Err(_) => jwt_encoded(secret@, sub@, exp) is None,
        },
{
    let mut claims = serde_json::Map::new();
    claims.insert("sub".to_string(), serde_json::Value::from(sub));
    claims.insert("exp".to_string(), serde_json::Value::from(exp));
    jsonwebtoken::encode(
        &jsonwebtoken::Header::new(jsonwebtoken::Algorithm::HS256),
        &claims,
        &jsonwebtoken::EncodingKey::from_secret(secret.as_bytes()),
    )
}

/// The view of a decoder result.
pub open spec fn decoded_view(r: Result<(Option<String>, Option<i64>), DecodeFailure>) -> Result<
    RawClaims,
    DecodeFailure,
> {
    match r {
        Ok((Some(sub), exp)) => Ok((Some(sub@), exp)),
        Ok((None, exp)) => Ok((None, exp)),
        Err(e) => Err(e),
    }
}

/// Calls `jsonwebtoken::decode` with HS256 and `secret` as the key, with the
/// crate's own expiry check switched off, and picks `sub` and `exp` out of
/// the payload. The contract names the result; which failure it is comes
/// from the crate's error kind.
#[verifier::external_body]
fn decode_claims(secret: &str, token: &str) -> (r: Result<
    (Option<String>, Option<i64>),
    DecodeFailure,
>)
    ensures
        decoded_view(r) == jwt_decoded(secret@, token@),
{
    let mut rules = jsonwebtoken::Validation::new(jsonwebtoken::Algorithm::HS256);
    rules.validate_exp = false;
    rules.required_spec_claims.clear();
    let key = jsonwebtoken::DecodingKey::from_secret(secret.as_bytes());
    match jsonwebtoken::decode::<serde_json::Value>(token, &key, &rules) {
        Ok(data) => Ok(
            (data.claims["sub"].as_str().map(|s| s.to_string()), data.claims["exp"].as_i64()),
        ),
        Err(e) => Err(
            match e.kind() {
                jsonwebtoken::errors::ErrorKind::InvalidSignature => DecodeFailure::InvalidSignature,
                _ => DecodeFailure::Unreadable,
            },
        ),
    }
}

/// The expiry of a credential issued at `now` for `days` days, where both
/// the lifetime in seconds and the expiry fit in 64 bits.
pub open spec fn expiry(now: i64, days: i64) -> Option<i64> {
    let lifetime = days * SECONDS_PER_DAY;
    if i64::MIN <= lifetime <= i64::MAX && i64::MIN <= now + lifetime <= i64::MAX {
        Some((now + lifetime) as i64)
    } else {
        None
    }
}

/// Computes [`expiry`].
pub fn expiry_after(now: i64, days: i64) -> (r: Option<i64>)
    ensures
        r == expiry(now, days),
{
    match days.checked_mul(SECONDS_PER_DAY) {
        Some(lifetime) => now.checked_add(lifetime),
        None => None,
    }
}

/// What the verifier concludes at time `now` from what the decoder found:
/// the subject's identifier, or the reason for turning the credential down.
/// A bad signature is reported first, then an unreadable payload, then an
/// expiry that is not after `now`, then a subject that is no identifier.
pub open spec fn verdict(decoded: Result<RawClaims, DecodeFailure>, now: i64) -> Result<
    u128,
    AuthError,
> {
    match decoded {
        Err(DecodeFailure::InvalidSignature) => Err(AuthError::InvalidSignature),
        Err(DecodeFailure::Unreadable) => Err(AuthError::Malformed),
        Ok((Some(sub), Some(exp))) => if exp <= now {
            Err(AuthError::Expired)
        } else {
            match uuid_parsed(sub) {
                Some(id) => Ok(id),
                None => Err(AuthError::Malformed),
            }
        },
        Ok(_) => Err(AuthError::Malformed),
    }
}

/// Whether `r` is the answer that [`verdict`] `v` calls for.
pub open spec fn answers(r: Result<TokenDetails, AuthError>, v: Result<u128, AuthError>) -> bool {
    match v {
        Ok(id) => r == Ok::<TokenDetails, AuthError>(
            TokenDetails { token: None, user_id: id, expires_in: None },
        ),
        Err(e) => r == Err::<TokenDetails, AuthError>(e),
    }
}

/// Reads the payload out of a decoder result: both fields must be there.
pub fn claims_of(decoded: Result<(Option<String>, Option<i64>), DecodeFailure>) -> (r: Result<
    TokenClaims,
    AuthError,
>)
    ensures
        match decoded {
            Err(DecodeFailure::InvalidSignature) => r == Err::<TokenClaims, AuthError>(
                AuthError::InvalidSignature,
            ),
            Err(DecodeFailure::Unreadable) => r == Err::<TokenClaims, AuthError>(
                AuthError::Malformed,
            ),
            Ok((Some(sub), Some(exp))) => r == Ok::<TokenClaims, AuthError>(
                TokenClaims { sub, exp },
            ),
            Ok(_) => r == Err::<TokenClaims, AuthError>(AuthError::Malformed),
        },
{
    match decoded {
        Err(DecodeFailure::InvalidSignature) => Err(AuthError::InvalidSignature),
        Err(DecodeFailure::Unreadable) => Err(AuthError::Malformed),
        Ok((Some(sub), Some(exp))) => Ok(TokenClaims { sub, exp }),
        Ok(_) => Err(AuthError::Malformed),
    }
}

/// Decides on a readable payload at time `now`: `exp` is its expiry and
/// `subject` the identifier read from its subject, if it was one.
pub fn accept_claims(exp: i64, subject: Option<u128>, now: i64) -> (r: Result<
    TokenDetails,
    AuthError,
>)
    ensures
        exp <= now ==> r == Err::<TokenDetails, AuthError>(AuthError::Expired),
        exp > now && subject is None ==> r == Err::<TokenDetails, AuthError>(AuthError::Malformed),
        exp > now && subject is Some ==> r == Ok::<TokenDetails, AuthError>(
            TokenDetails { token: None, user_id: subject->0, expires_in: None },
        ),
{
    if exp <= now {
        return Err(AuthError::Expired);
    }
    match subject {
        Some(user_id) => Ok(TokenDetails { token: None, user_id, expires_in: None }),
        None => Err(AuthError::Malformed),
    }
}

/// Verifies `token` under the secret `public_key` as of the time `now`.
///
/// The credential is accepted exactly when its signature belongs to the
/// secret, its payload holds a subject and an expiry, the expiry is after
/// `now`, and the subject is an identifier.
pub fn verify_jwt_token_at(public_key: &str, token: &str, now: i64) -> (r: Result<
    TokenDetails,
    AuthError,
>)
    ensures
        answers(r, verdict(jwt_decoded(public_key@, token@), now)),
{
    let claims = match claims_of(decode_claims(public_key, token)) {
        Ok(claims) => claims,
        Err(e) => {
            return Err(e);
        },
    };
    let subject = uuid_from_text(claims.sub.as_str());
    accept_claims(claims.exp, subject, now)
}

/// Verifies `token` under the secret `public_key` as of the system clock:
/// the answer is the one that [`verify_jwt_token_at`] gives for some time.
pub fn verify_jwt_token(public_key: &str, token: &str) -> (r: Result<TokenDetails, AuthError>)
    ensures
        exists|now: i64| #[trigger] answers(r, verdict(jwt_decoded(public_key@, token@), now)),
{
    let now = unix_now();
    let r = verify_jwt_token_at(public_key, token, now);
    assert(answers(r, verdict(jwt_decoded(public_key@, token@), now)));
    r
}

/// Wraps up what the signer returned for the user `user_id` and the expiry
/// `exp`.
pub fn sealed(user_id: u128, exp: i64, signed: Result<String, jsonwebtoken::errors::Error>) -> (r:
    Result<TokenDetails, IssueError>)
    ensures
        match signed {
            Ok(token) => r == Ok::<TokenDetails, IssueError>(
                TokenDetails { token: Some(token), user_id, expires_in: Some(exp) },
            ),
            Err(_) => r == Err::<TokenDetails, IssueError>(IssueError::Signing),
        },
{
    match signed {
        Ok(token) => Ok(TokenDetails { token: Some(token), user_id, expires_in: Some(exp) }),
        Err(_) => Err(IssueError::Signing),
    }
}

/// What issuing a credential for `user_id` under `key` at `now`, for `days`
/// days, comes to: the credential's text and its expiry, or the reason for
/// issuing none.
pub open spec fn issue_outcome(user_id: u128, key: Seq<char>, days: i64, now: i64) -> Result<
    (Seq<char>, i64),
    IssueError,
> {
    match expiry(now, days) {
        None => Err(IssueError::ExpiryOutOfRange),
        Some(exp) => match jwt_encoded(key, uuid_text(user_id), exp) {
            None => Err(IssueError::Signing),
            Some(text) => Ok((text, exp)),
        },
    }
}

/// Whether `details` holds the credential `text` for `user_id` with the
/// expiry `exp`.
pub open spec fn holds_credential(details: TokenDetails, user_id: u128, text: Seq<char>, exp: i64)
    -> bool {
    &&& details.token matches Some(token)
    &&& token@ == text
    &&& details.user_id == user_id
    &&& details.expires_in == Some(exp)
}

/// Whether `r` is what issuing a credential for `user_id` under `key` at
/// `now`, for `days` days, must return.
pub open spec fn issued_at(
    r: Result<TokenDetails, IssueError>,
    user_id: u128,
    key: Seq<char>,
    days: i64,
    now: i64,
) -> bool {
    match issue_outcome(user_id, key, days, now) {
        Err(e) => r == Err::<TokenDetails, IssueError>(e),
        Ok((text, exp)) => r matches Ok(details) && holds_credential(details, user_id, text, exp),
    }
}

/// Whether the credential in `details` is accepted under `key` for the user
/// `user_id` at every time before its expiry, and turned down as expired at
/// every time from its expiry on.
pub open spec fn lives_until_expiry(details: TokenDetails, user_id: u128, key: Seq<char>) -> bool {
    &&& details.token matches Some(token)
    &&& details.expires_in matches Some(exp)
    &&& forall|at: i64| #[trigger]
        verdict(jwt_decoded(key, token@), at) == if at < exp {
            Ok::<u128, AuthError>(user_id)
        } else {
            Err::<u128, AuthError>(AuthError::Expired)
        }
}

/// A credential whose payload holds the identifier `user_id` as its subject
/// and `exp` as its expiry is accepted at every time before `exp`, and is
/// turned down as expired at `exp` and at every time after it.
pub proof fn lemma_accepted_until_expiry(
    decoded: Result<RawClaims, DecodeFailure>,
    sub: Seq<char>,
    exp: i64,
    user_id: u128,
)
    requires
        decoded == Ok::<RawClaims, DecodeFailure>((Some(sub), Some(exp))),
        uuid_parsed(sub) == Some(user_id),
    ensures
        forall|at: i64|
            #[trigger] verdict(decoded, at) == if at < exp {
                Ok::<u128, AuthError>(user_id)
            } else {
                Err::<u128, AuthError>(AuthError::Expired)
            },
{
}

/// Issues a credential for `user_id`, signed with `private_key`, that
/// expires `time` days after `now`.
///
/// It fails where the expiry does not fit in 64 bits or the signer reports
/// an error. A credential that was issued is accepted by
/// [`verify_jwt_token_at`] under the same key at any time before
/// `now + time` days, and is expired at any time from then on.
pub fn generate_jwt_token_at(user_id: u128, private_key: &str, time: i64, now: i64) -> (r: Result<
    TokenDetails,
    IssueError,
>)
    ensures
        issued_at(r, user_id, private_key@, time, now),
        r matches Ok(details) ==> lives_until_expiry(details, user_id, private_key@),
        r matches Ok(details) ==> details.expires_in == Some(
            (now + time * SECONDS_PER_DAY) as i64,
        ),
{
    let exp = match expiry_after(now, time) {
        Some(exp) => exp,
        None => {
            return Err(IssueError::ExpiryOutOfRange);
        },
    };
    let sub = uuid_to_text(user_id);
    let signed = encode_claims(private_key, sub.as_str(), exp);
    proof {
        if signed is Ok {
            lemma_accepted_until_expiry(
                jwt_decoded(private_key@, signed->Ok_0@),
                sub@,
                exp,
                user_id,
            );
        }
    }
    sealed(user_id, exp, signed)
}

/// Issues a credential for `user_id`, signed with `private_key`, that
/// expires `time` days after the system clock's time: the result is the one
/// that [`generate_jwt_token_at`] gives for some time.
pub fn generate_jwt_token(user_id: u128, private_key: &str, time: i64) -> (r: Result<
    TokenDetails,
    IssueError,
>)
    ensures
        exists|now: i64| #[trigger] issued_at(r, user_id, private_key@, time, now),
        r matches Ok(details) ==> lives_until_expiry(details, user_id, private_key@),
{
    let now = unix_now();
    let r = generate_jwt_token_at(user_id, private_key, time, now);
    assert(issued_at(r, user_id, private_key@, time, now));
    r
}

} // verus!
