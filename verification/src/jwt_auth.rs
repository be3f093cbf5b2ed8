//! The request guard: from the credential a request carries to the user it
//! belongs to.
//!
//! The guard takes the credential from the `Authorization` header or, where
//! there is none, from the `access_token` cookie; verifies it under the
//! access secret; and looks the subject up among the users. Each failure
//! ends the request with its own kind of error.

use vstd::prelude::*;
use crate::models::User;
use crate::store::{find_user, lemma_first_place, user_ids, StorageError};
use crate::token::{jwt_decoded, verdict, verify_jwt_token_at, AuthError};

verus! {

/// The body of an error response.
#[derive(Debug, Clone, PartialEq, Eq)]
pub struct ErrorResponse {
    pub status: String,
    pub message: String,
}

/// The user that a guarded request was resolved to. Handlers act for this
/// user, whatever identifier the request body names.
#[derive(Debug, Clone, PartialEq, Eq)]
pub struct JwtMiddleware {
    pub user: User,
}

/// The scheme prefix of an `Authorization` header: the word and one space.
pub open spec fn bearer_prefix() -> Seq<char> {
    seq!['B', 'e', 'a', 'r', 'e', 'r', ' ']
}

/// Whether `s` has the scheme prefix at `at`.
pub open spec fn has_bearer_at(s: Seq<char>, at: int) -> bool {
    0 <= at && at + 7 <= s.len() && s.subrange(at, at + 7) == bearer_prefix()
}

/// The header value without its scheme prefix, however often the prefix
/// is repeated at the start. A value without the prefix stays as it is.
pub open spec fn trim_bearer(s: Seq<char>) -> Seq<char>
    decreases s.len(),
{
    if has_bearer_at(s, 0) {
        trim_bearer(s.subrange(7, s.len() as int))
    } else {
        s
    }
}

/// The credential of a request with the given header and cookie values:
/// the header's where there is one, else the cookie's.
pub open spec fn credential(authorization: Option<Seq<char>>, cookie: Option<Seq<char>>) -> Option<
    Seq<char>,
> {
    match authorization {
        Some(header) => Some(trim_bearer(header)),
        None => cookie,
    }
}

/// The view of an optional string slice.
pub open spec fn text_view(text: Option<&str>) -> Option<Seq<char>> {
    match text {
        Some(s) => Some(s@),
        None => None,
    }
}

/// Whether `header` has the scheme prefix at the character `at`.
fn starts_with_bearer(header: &str, at: usize) -> (found: bool)
    requires
        at + 7 <= header@.len() <= usize::MAX,
    ensures
        found == has_bearer_at(header@, at as int),
{
    let found = header.get_char(at) == 'B' && header.get_char(at + 1) == 'e' && header.get_char(
        at + 2,
    ) == 'a' && header.get_char(at + 3) == 'r' && header.get_char(at + 4) == 'e'
        && header.get_char(at + 5) == 'r' && header.get_char(at + 6) == ' ';
    proof {
        let part = header@.subrange(at as int, at + 7);
        if found {
            assert(part =~= bearer_prefix());
        } else {
            assert(part[0] == header@[at as int]);
            assert(part[1] == header@[at + 1]);
            assert(part[2] == header@[at + 2]);
            assert(part[3] == header@[at + 3]);
            assert(part[4] == header@[at + 4]);
            assert(part[5] == header@[at + 5]);
            assert(part[6] == header@[at + 6]);
        }
    }
    found
}

/// The credential in an `Authorization` header value.
pub fn bearer_token(header: &str) -> (token: String)
    ensures
        token@ == trim_bearer(header@),
{
    let n = header.unicode_len();
    let mut start: usize = 0;
    assert(header@.subrange(0, n as int) =~= header@);
    while n - start >= 7 && starts_with_bearer(header, start)
        invariant
            start <= n,
            n == header@.len(),
            trim_bearer(header@) == trim_bearer(header@.subrange(start as int, n as int)),
        decreases n - start,
    {
        proof {
            let rest = header@.subrange(start as int, n as int);
            assert(rest.subrange(0, 7) =~= header@.subrange(start as int, start + 7));
            assert(rest.subrange(7, rest.len() as int) =~= header@.subrange(
                start + 7,
                n as int,
            ));
        }
        start += 7;
    }
    proof {
        let rest = header@.subrange(start as int, n as int);
        if rest.len() >= 7 {
            assert(rest.subrange(0, 7) =~= header@.subrange(start as int, start + 7));
        }
    }
    header.substring_char(start, n).to_owned()
}

/// Takes the credential out of a request: the header is preferred, the
/// cookie is the fallback, and a request with neither is turned down.
pub fn extract_credential(authorization: Option<&str>, cookie: Option<&str>) -> (r: Result<
    String,
    AuthError,
>)
    ensures
        match credential(text_view(authorization), text_view(cookie)) {
            Some(token) => r matches Ok(found) && found@ == token,
            None => r == Err::<String, AuthError>(AuthError::MissingCredential),
        },
{
    match authorization {
        Some(header) => Ok(bearer_token(header)),
        None => match cookie {
            Some(value) => Ok(value.to_owned()),
            None => Err(AuthError::MissingCredential),
        },
    }
}

/// What the guard concludes for a request at time `now`, before it looks
/// the user up: the subject of its credential, or the reason to reject it.
pub open spec fn subject_of(
    authorization: Option<Seq<char>>,
    cookie: Option<Seq<char>>,
    secret: Seq<char>,
    now: i64,
) -> Result<u128, AuthError> {
    match credential(authorization, cookie) {
        None => Err(AuthError::MissingCredential),
        Some(token) => verdict(jwt_decoded(secret, token), now),
    }
}

/// What the guard concludes for a request at time `now` with `users` as the
/// known users.
pub open spec fn guard_outcome(
    authorization: Option<Seq<char>>,
    cookie: Option<Seq<char>>,
    secret: Seq<char>,
    now: i64,
    users: Seq<User>,
) -> Result<User, AuthError> {
    match subject_of(authorization, cookie, secret, now) {
        Err(e) => Err(e),
        Ok(id) => match user_ids(users).index_of_first(id) {
            Some(i) => Ok(users[i]),
            None => Err(AuthError::PrincipalNotFound),
        },
    }
}

/// Settles a request once the user lookup has come back: a user resolves
/// it, no user means the account is gone, and a failed lookup is an
/// internal error.
pub fn resolve_principal(lookup: Result<Option<User>, StorageError>) -> (r: Result<
    JwtMiddleware,
    AuthError,
>)
    ensures
        match lookup {
            Ok(Some(user)) => r == Ok::<JwtMiddleware, AuthError>(JwtMiddleware { user }),
            Ok(None) => r == Err::<JwtMiddleware, AuthError>(AuthError::PrincipalNotFound),
            Err(_) => r == Err::<JwtMiddleware, AuthError>(AuthError::InternalError),
        },
{
    match lookup {
        Ok(Some(user)) => Ok(JwtMiddleware { user }),
        Ok(None) => Err(AuthError::PrincipalNotFound),
        Err(_) => Err(AuthError::InternalError),
    }
}

impl JwtMiddleware {
    /// The first two steps of the guard: takes the credential out of the
    /// request and verifies it under `access_secret` as of `now`.
    pub fn subject(
        authorization: Option<&str>,
        cookie: Option<&str>,
        access_secret: &str,
        now: i64,
    ) -> (r: Result<u128, AuthError>)
        ensures
            r == subject_of(text_view(authorization), text_view(cookie), access_secret@, now),
    {
        let token = match extract_credential(authorization, cookie) {
            Ok(token) => token,
            Err(e) => {
                return Err(e);
            },
        };
        match verify_jwt_token_at(access_secret, token.as_str(), now) {
            Ok(details) => Ok(details.user_id),
            Err(e) => Err(e),
        }
    }

    /// Guards a request against the users in `users`: the request passes
    /// exactly when it carries a credential that is accepted at `now` and
    /// whose subject is one of them.
    pub fn from_request(
        authorization: Option<&str>,
        cookie: Option<&str>,
        access_secret: &str,
        now: i64,
        users: &Vec<User>,
    ) -> (r: Result<JwtMiddleware, AuthError>)
        ensures
            match guard_outcome(
                text_view(authorization),
                text_view(cookie),
                access_secret@,
                now,
                users@,
            ) {
                Ok(user) => r == Ok::<JwtMiddleware, AuthError>(JwtMiddleware { user }),
                Err(e) => r == Err::<JwtMiddleware, AuthError>(e),
            },
    {
        let id = match JwtMiddleware::subject(authorization, cookie, access_secret, now) {
            Ok(id) => id,
            Err(e) => {
                return Err(e);
            },
        };
        let found = find_user(users, id);
        proof {
            lemma_first_place(user_ids(users@), id, found);
        }
        match found {
            Some(i) => Ok(JwtMiddleware { user: users[i].copy() }),
            None => Err(AuthError::PrincipalNotFound),
        }
    }
}

impl AuthError {
    /// The HTTP status of the response: 500 for a failed lookup, 401 for
    /// every other kind.
    pub fn status_code(&self) -> (code: u16)
        ensures
            code == if *self == AuthError::InternalError {
                500u16
            } else {
                401u16
            },
    {
        match self {
            AuthError::InternalError => 500,
            _ => 401,
        }
    }

    /// The body of the response for this error.
    pub fn response(&self) -> (body: ErrorResponse)
        ensures
            body.status@ == if *self == AuthError::InternalError {
                "error"@
            } else {
                "fail"@
            },
            body.message@ == match *self {
                AuthError::MissingCredential => "Access token not found in headers or cookies"@,
                AuthError::Malformed => "The access token could not be read"@,
                AuthError::InvalidSignature => "The access token's signature is not valid"@,
                AuthError::Expired => "The access token has expired"@,
                AuthError::PrincipalNotFound => "The user belonging to this token no longer exists"@,
                AuthError::InternalError => "Failed to look the user up"@,
            },
    {
        let status = match self {
            AuthError::InternalError => "error",
            _ => "fail",
        };
        let message = match self {
            AuthError::MissingCredential => "Access token not found in headers or cookies",
            AuthError::Malformed => "The access token could not be read",
            AuthError::InvalidSignature => "The access token's signature is not valid",
            AuthError::Expired => "The access token has expired",
            AuthError::PrincipalNotFound => "The user belonging to this token no longer exists",
            AuthError::InternalError => "Failed to look the user up",
        };
        ErrorResponse { status: status.to_owned(), message: message.to_owned() }
    }
}

} // verus!
