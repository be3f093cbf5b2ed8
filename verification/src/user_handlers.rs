//! Accounts: registering, logging in, renewing the access credential,
//! logging out and deleting the account.
//!
//! Passwords are hashed and checked by the `bcrypt` crate. A session is a
//! pair of credentials, one under each secret of the configuration, each
//! with its own lifetime.

use vstd::prelude::*;
use crate::jwt_auth::{credential, extract_credential, text_view, JwtMiddleware};
use crate::models::{AppState, Login, NewUser, User};
use crate::store::{
    find_user,
    find_user_by_email,
    lemma_first_place,
    lemma_remove_keeps_apart,
    user_emails,
    user_ids,
};
use crate::token::{
    generate_jwt_token_at,
    holds_credential,
    issue_outcome,
    jwt_decoded,
    lives_until_expiry,
    verdict,
    verify_jwt_token_at,
    AuthError,
    IssueError,
    TokenDetails,
};

verus! {

/// The secrets and lifetimes that credentials are issued with. It is made
/// once and handed to every function that signs or verifies.
#[derive(Debug, Clone, PartialEq, Eq)]
pub struct AuthConfig {
    pub access_secret: String,
    pub refresh_secret: String,
    /// Lifetime of an access credential in days.
    pub access_token_age: i64,
    /// Lifetime of a refresh credential in days.
    pub refresh_token_age: i64,
}

/// A cookie to set on the response. Every such cookie is HTTP-only and
/// secure, and is sent with cross-site requests.
#[derive(Debug, Clone, PartialEq, Eq)]
pub struct SessionCookie {
    pub name: String,
    pub value: String,
    pub max_age_days: i64,
}

/// A user with a fresh pair of credentials.
#[derive(Debug, Clone, PartialEq, Eq)]
pub struct Session {
    pub user: User,
    pub access: TokenDetails,
    pub refresh: TokenDetails,
}

/// A user with a fresh access credential.
#[derive(Debug, Clone, PartialEq, Eq)]
pub struct Refreshed {
    pub user: User,
    pub access: TokenDetails,
}

/// Why a login was refused.
#[derive(Debug, Clone, Copy, PartialEq, Eq, Structural)]
pub enum LoginError {
    /// No user has the address.
    LookupFailed,
    /// The stored hash could not be checked against.
    PasswordCheckFailed,
    /// The password is not the user's.
    WrongPassword,
    /// No credentials could be issued.
    TokenFailed,
}

/// Why a registration failed.
#[derive(Debug, Clone, Copy, PartialEq, Eq, Structural)]
pub enum RegisterError {
    /// The password could not be hashed.
    HashFailed,
    /// The identifier or the address is taken.
    InsertFailed,
    /// The user was stored, but no credentials could be issued.
    TokenFailed,
}

/// Why the access credential was not renewed.
#[derive(Debug, Clone, Copy, PartialEq, Eq, Structural)]
pub enum RefreshError {
    /// The request carried no refresh credential.
    MissingCookie,
    /// The refresh credential was turned down.
    InvalidToken(AuthError),
    /// The credential's user is not there.
    LookupFailed,
    /// No access credential could be issued.
    TokenFailed,
}

/// Whether `bcrypt::verify` finds `password` to belong to `hash`, or `None`
/// where it reports an error.
pub uninterp spec fn password_matches(password: Seq<char>, hash: Seq<char>) -> Option<bool>;

#[verifier::external_type_specification]
#[verifier::external_body]
pub struct ExBcryptError(bcrypt::BcryptError);

/// Calls `bcrypt::hash` with the crate's default cost. The salt is random,
/// so the hash has no name; the contract claims that `bcrypt::verify`
/// accepts the password for it.
#[verifier::external_body]
fn hash_password(password: &str) -> (r: Result<String, bcrypt::BcryptError>)
    ensures
        r matches Ok(hash) ==> password_matches(password@, hash@) == Some(true),
{
    bcrypt::hash(password, bcrypt::DEFAULT_COST)
}

/// Calls `bcrypt::verify`. The contract names the answer.
#[verifier::external_body]
fn check_password(password: &str, hash: &str) -> (r: Result<bool, bcrypt::BcryptError>)
    ensures
        match r {
            Ok(matches) => password_matches(password@, hash@) == Some(matches),
            Err(_) => password_matches(password@, hash@) is None,
        },
{
    bcrypt::verify(password, hash)
}

/// What issuing a session for `user_id` at `now` comes to: the access
/// credential and the refresh credential, each with its expiry, or the
/// reason for issuing none. The access credential is issued first.
pub open spec fn session_outcome(user_id: u128, config: AuthConfig, now: i64) -> Result<
    ((Seq<char>, i64), (Seq<char>, i64)),
    IssueError,
> {
    match issue_outcome(user_id, config.access_secret@, config.access_token_age, now) {
        Err(e) => Err(e),
        Ok(access) => match issue_outcome(
            user_id,
            config.refresh_secret@,
            config.refresh_token_age,
            now,
        ) {
            Err(e) => Err(e),
            Ok(refresh) => Ok((access, refresh)),
        },
    }
}

/// Whether `session` is `user` with the two credentials `issued`.
pub open spec fn holds_session(
    session: Session,
    user: User,
    issued: ((Seq<char>, i64), (Seq<char>, i64)),
) -> bool {
    &&& session.user == user
    &&& holds_credential(session.access, user.user_id, issued.0.0, issued.0.1)
    &&& holds_credential(session.refresh, user.user_id, issued.1.0, issued.1.1)
}

/// Issues a session for `user` at `now`: an access credential under the
/// access secret and a refresh credential under the refresh secret, each
/// accepted under its own secret until its own expiry.
pub fn issue_session(user: User, config: &AuthConfig, now: i64) -> (r: Result<Session, IssueError>)
    ensures
        match session_outcome(user.user_id, *config, now) {
            Err(e) => r == Err::<Session, IssueError>(e),
            Ok(issued) => r matches Ok(session) && holds_session(session, user, issued),
        },
        r matches Ok(session) ==> lives_until_expiry(
            session.access,
            user.user_id,
            config.access_secret@,
        ) && lives_until_expiry(session.refresh, user.user_id, config.refresh_secret@),
{
    let access = match generate_jwt_token_at(
        user.user_id,
        config.access_secret.as_str(),
        config.access_token_age,
        now,
    ) {
        Ok(access) => access,
        Err(e) => {
            return Err(e);
        },
    };
    let refresh = match generate_jwt_token_at(
        user.user_id,
        config.refresh_secret.as_str(),
        config.refresh_token_age,
        now,
    ) {
        Ok(refresh) => refresh,
        Err(e) => {
            return Err(e);
        },
    };
    Ok(Session { user, access, refresh })
}

/// The row of a newly registered user whose password hash is `hash`.
pub open spec fn registered(user: NewUser, user_id: u128, hash: String, now: i64) -> User {
    User {
        user_id,
        username: user.username,
        email: user.email,
        password: hash,
        first_name: Some(user.first_name),
        last_name: Some(user.last_name),
        phone_number: Some(user.phone_number),
        registration_date: Some(now),
    }
}

/// Builds the row of a newly registered user.
pub fn new_user_row(user: &NewUser, user_id: u128, hash: String, now: i64) -> (row: User)
    ensures
        row == registered(*user, user_id, hash, now),
{
    User {
        user_id,
        username: user.username.clone(),
        email: user.email.clone(),
        password: hash,
        first_name: Some(user.first_name.clone()),
        last_name: Some(user.last_name.clone()),
        phone_number: Some(user.phone_number.clone()),
        registration_date: Some(now),
    }
}

/// Whether `user` cannot be added to `users`: its identifier or its
/// address is taken.
pub open spec fn is_taken(users: Seq<User>, user: User) -> bool {
    user_ids(users).contains(user.user_id) || user_emails(users).contains(user.email@)
}

/// Adds `user` to the users unless its identifier or its address is taken.
pub fn insert_user(state: &mut AppState, user: User) -> (r: Result<(), RegisterError>)
    ensures
        is_taken(old(state).users@, user) ==> r == Err::<(), RegisterError>(
            RegisterError::InsertFailed,
        ) && *final(state) == *old(state),
        !is_taken(old(state).users@, user) ==> r == Ok::<(), RegisterError>(())
            && final(state).users@ == old(state).users@.push(user) && final(state).events == old(state).events && final(state).tickets == old(state).tickets && final(state).bookings == old(state).bookings,
        old(state).wf() ==> final(state).wf(),
{
    if find_user(&state.users, user.user_id).is_some() {
        assert(user_ids(state.users@).contains(user.user_id));
        return Err(RegisterError::InsertFailed);
    }
    if find_user_by_email(&state.users, user.email.as_str()).is_some() {
        assert(user_emails(state.users@).contains(user.email@));
        return Err(RegisterError::InsertFailed);
    }
    state.users.push(user);
    assert(user_ids(state.users@) =~= user_ids(old(state).users@).push(user.user_id));
    assert(user_emails(state.users@) =~= user_emails(old(state).users@).push(user.email@));
    Ok(())
}

/// What registering `user` comes to when the hasher returned `hash`, or
/// nothing: `r` is the answer and `after` the state it leaves.
///
/// Without a hash, or with an identifier or address that is taken, nothing
/// changes. Otherwise the user is stored, every field the request's and
/// the password replaced by the hash; then a session is issued, and if
/// none can be, the user stays stored.
pub open spec fn registration_outcome(
    before: AppState,
    after: AppState,
    r: Result<Session, RegisterError>,
    user: NewUser,
    user_id: u128,
    hash: Option<String>,
    config: AuthConfig,
    now: i64,
) -> bool {
    match hash {
        None => r == Err::<Session, RegisterError>(RegisterError::HashFailed) && after == before,
        Some(h) => {
            let row = registered(user, user_id, h, now);
            if is_taken(before.users@, row) {
                r == Err::<Session, RegisterError>(RegisterError::InsertFailed) && after == before
            } else {
                &&& after.users@ == before.users@.push(row)
                &&& after.events == before.events
                &&& after.tickets == before.tickets
                &&& after.bookings == before.bookings
                &&& match session_outcome(user_id, config, now) {
                    Err(_) => r == Err::<Session, RegisterError>(RegisterError::TokenFailed),
                    Ok(issued) => r matches Ok(session) && holds_session(session, row, issued),
                }
            }
        },
    }
}

/// The hash in a hasher's result, if it returned one.
pub open spec fn hash_of(hashed: Result<String, bcrypt::BcryptError>) -> Option<String> {
    match hashed {
        Ok(hash) => Some(hash),
        Err(_) => None,
    }
}

/// Registers `user` with what the hasher returned for their password.
pub fn add_hashed_user(
    state: &mut AppState,
    user: &NewUser,
    user_id: u128,
    hashed: Result<String, bcrypt::BcryptError>,
    config: &AuthConfig,
    now: i64,
) -> (r: Result<Session, RegisterError>)
    ensures
        registration_outcome(
            *old(state),
            *final(state),
            r,
            *user,
            user_id,
            hash_of(hashed),
            *config,
            now,
        ),
        r matches Ok(session) ==> lives_until_expiry(session.access, user_id, config.access_secret@)
            && lives_until_expiry(session.refresh, user_id, config.refresh_secret@),
        old(state).wf() ==> final(state).wf(),
{
    let hash = match hashed {
        Ok(hash) => hash,
        Err(_) => {
            return Err(RegisterError::HashFailed);
        },
    };
    let row = new_user_row(user, user_id, hash, now);
    let kept = row.copy();
    match insert_user(state, row) {
        Ok(()) => {},
        Err(e) => {
            return Err(e);
        },
    }
    match issue_session(kept, config, now) {
        Ok(session) => Ok(session),
        Err(_) => Err(RegisterError::TokenFailed),
    }
}

/// Registers `user` under the identifier `user_id` at the time `now`.
///
/// The password is hashed, never stored. The hasher salts at random and
/// may fail, so the result is what [`registration_outcome`] describes for
/// some hash that the password is accepted for, or for none. With an
/// identifier or address that is taken the registration fails and nothing
/// changes.
pub fn add_user(
    state: &mut AppState,
    user: &NewUser,
    user_id: u128,
    config: &AuthConfig,
    now: i64,
) -> (r: Result<Session, RegisterError>)
    ensures
        exists|hash: Option<String>|
            {
                &&& #[trigger] registration_outcome(
                    *old(state),
                    *final(state),
                    r,
                    *user,
                    user_id,
                    hash,
                    *config,
                    now,
                )
                &&& hash matches Some(h) ==> password_matches(user.password@, h@) == Some(true)
            },
        user_ids(old(state).users@).contains(user_id) || user_emails(old(state).users@).contains(
            user.email@,
        ) ==> r is Err && *final(state) == *old(state),
        r matches Ok(session) ==> lives_until_expiry(session.access, user_id, config.access_secret@)
            && lives_until_expiry(session.refresh, user_id, config.refresh_secret@),
        old(state).wf() ==> final(state).wf(),
{
    let hashed = hash_password(user.password.as_str());
    let ghost hash = hash_of(hashed);
    let r = add_hashed_user(state, user, user_id, hashed, config, now);
    assert(registration_outcome(*old(state), *state, r, *user, user_id, hash, *config, now));
    r
}

/// What a login comes to among `users`: the place of the user who logs in,
/// or the reason to refuse.
pub open spec fn login_verdict(users: Seq<User>, email: Seq<char>, password: Seq<char>) -> Result<
    int,
    LoginError,
> {
    match user_emails(users).index_of_first(email) {
        None => Err(LoginError::LookupFailed),
        Some(i) => match password_matches(password, users[i].password@) {
            None => Err(LoginError::PasswordCheckFailed),
            Some(false) => Err(LoginError::WrongPassword),
            Some(true) => Ok(i),
        },
    }
}

/// Reads the answer of the password check.
pub fn password_verdict(checked: Result<bool, bcrypt::BcryptError>) -> (r: Result<(), LoginError>)
    ensures
        match checked {
            Ok(true) => r == Ok::<(), LoginError>(()),
            Ok(false) => r == Err::<(), LoginError>(LoginError::WrongPassword),
            Err(_) => r == Err::<(), LoginError>(LoginError::PasswordCheckFailed),
        },
{
    match checked {
        Ok(true) => Ok(()),
        Ok(false) => Err(LoginError::WrongPassword),
        Err(_) => Err(LoginError::PasswordCheckFailed),
    }
}

/// Logs a user in at the time `now`.
///
/// The user is found by the address; the password must be accepted for the
/// stored hash; then a session is issued. Without the right password no
/// credential is issued.
pub fn get_user(state: &AppState, data: &Login, config: &AuthConfig, now: i64) -> (r: Result<
    Session,
    LoginError,
>)
    ensures
        match login_verdict(state.users@, data.email@, data.password@) {
            Err(e) => r == Err::<Session, LoginError>(e),
            Ok(i) => match session_outcome(state.users[i].user_id, *config, now) {
                Err(_) => r == Err::<Session, LoginError>(LoginError::TokenFailed),
                Ok(issued) => r matches Ok(session) && holds_session(
                    session,
                    state.users[i],
                    issued,
                ),
            },
        },
        r matches Ok(session) ==> lives_until_expiry(
            session.access,
            session.user.user_id,
            config.access_secret@,
        ) && lives_until_expiry(session.refresh, session.user.user_id, config.refresh_secret@),
{
    let found = find_user_by_email(&state.users, data.email.as_str());
    proof {
        lemma_first_place(user_emails(state.users@), data.email@, found);
    }
    let i = match found {
        Some(i) => i,
        None => {
            return Err(LoginError::LookupFailed);
        },
    };
    let checked = check_password(data.password.as_str(), state.users[i].password.as_str());
    match password_verdict(checked) {
        Ok(()) => {},
        Err(e) => {
            return Err(e);
        },
    }
    match issue_session(state.users[i].copy(), config, now) {
        Ok(session) => Ok(session),
        Err(_) => Err(LoginError::TokenFailed),
    }
}

/// What a request to renew the access credential comes to among `users`:
/// the place of the user it is renewed for, or the reason to refuse.
pub open spec fn refresh_verdict(
    users: Seq<User>,
    authorization: Option<Seq<char>>,
    cookie: Option<Seq<char>>,
    secret: Seq<char>,
    now: i64,
) -> Result<int, RefreshError> {
    match credential(authorization, cookie) {
        None => Err(RefreshError::MissingCookie),
        Some(token) => match verdict(jwt_decoded(secret, token), now) {
            Err(e) => Err(RefreshError::InvalidToken(e)),
            Ok(id) => match user_ids(users).index_of_first(id) {
                None => Err(RefreshError::LookupFailed),
                Some(i) => Ok(i),
            },
        },
    }
}

/// Renews the access credential at the time `now`.
///
/// The refresh credential comes from the `Authorization` header or, where
/// there is none, from the `refresh_token` cookie. It must be accepted
/// under the refresh secret and its user must exist; the new access
/// credential is issued under the access secret.
pub fn refresh_access_token_handler(
    state: &AppState,
    authorization: Option<&str>,
    cookie: Option<&str>,
    config: &AuthConfig,
    now: i64,
) -> (r: Result<Refreshed, RefreshError>)
    ensures
        match refresh_verdict(
            state.users@,
            text_view(authorization),
            text_view(cookie),
            config.refresh_secret@,
            now,
        ) {
            Err(e) => r == Err::<Refreshed, RefreshError>(e),
            Ok(i) => match issue_outcome(
                state.users[i].user_id,
                config.access_secret@,
                config.access_token_age,
                now,
            ) {
                Err(_) => r == Err::<Refreshed, RefreshError>(RefreshError::TokenFailed),
                Ok((text, exp)) => r matches Ok(renewed) && renewed.user == state.users[i]
                    && holds_credential(renewed.access, state.users[i].user_id, text, exp),
            },
        },
        r matches Ok(renewed) ==> lives_until_expiry(
            renewed.access,
            renewed.user.user_id,
            config.access_secret@,
        ),
{
    let token = match extract_credential(authorization, cookie) {
        Ok(token) => token,
        Err(_) => {
            return Err(RefreshError::MissingCookie);
        },
    };
    let details = match verify_jwt_token_at(config.refresh_secret.as_str(), token.as_str(), now) {
        Ok(details) => details,
        Err(e) => {
            return Err(RefreshError::InvalidToken(e));
        },
    };
    let found = find_user(&state.users, details.user_id);
    proof {
        lemma_first_place(user_ids(state.users@), details.user_id, found);
    }
    let i = match found {
        Some(i) => i,
        None => {
            return Err(RefreshError::LookupFailed);
        },
    };
    match generate_jwt_token_at(
        state.users[i].user_id,
        config.access_secret.as_str(),
        config.access_token_age,
        now,
    ) {
        Ok(access) => Ok(Refreshed { user: state.users[i].copy(), access }),
        Err(_) => Err(RefreshError::TokenFailed),
    }
}

/// The text of the credential in `details`, or nothing where it holds none.
pub open spec fn credential_text(details: TokenDetails) -> Seq<char> {
    match details.token {
        Some(token) => token@,
        None => Seq::empty(),
    }
}

/// The cookie that carries the access credential in `details`.
pub fn access_cookie(details: &TokenDetails, config: &AuthConfig) -> (cookie: SessionCookie)
    ensures
        cookie.name@ == "access_token"@,
        cookie.value@ == credential_text(*details),
        cookie.max_age_days == config.access_token_age,
{
    let value = match &details.token {
        Some(token) => token.clone(),
        None => String::new(),
    };
    SessionCookie {
        name: "access_token".to_owned(),
        value,
        max_age_days: config.access_token_age,
    }
}

/// The cookie that carries the refresh credential in `details`.
pub fn refresh_cookie(details: &TokenDetails, config: &AuthConfig) -> (cookie: SessionCookie)
    ensures
        cookie.name@ == "refresh_token"@,
        cookie.value@ == credential_text(*details),
        cookie.max_age_days == config.refresh_token_age,
{
    let value = match &details.token {
        Some(token) => token.clone(),
        None => String::new(),
    };
    SessionCookie {
        name: "refresh_token".to_owned(),
        value,
        max_age_days: config.refresh_token_age,
    }
}

/// Logs out: both cookies are replaced by empty ones that have already
/// run out.
pub fn logout() -> (cookies: (SessionCookie, SessionCookie))
    ensures
        cookies.0.name@ == "access_token"@,
        cookies.1.name@ == "refresh_token"@,
        cookies.0.value@.len() == 0,
        cookies.1.value@.len() == 0,
        cookies.0.max_age_days == -1,
        cookies.1.max_age_days == -1,
{
    (
        SessionCookie { name: "access_token".to_owned(), value: String::new(), max_age_days: -1 },
        SessionCookie { name: "refresh_token".to_owned(), value: String::new(), max_age_days: -1 },
    )
}

/// Deletes the guarded user's account: the first row with their identifier
/// leaves the users, and nothing else changes.
pub fn delete_user(state: &mut AppState, jwt_guard: &JwtMiddleware)
    ensures
        match user_ids(old(state).users@).index_of_first(jwt_guard.user.user_id) {
            None => *final(state) == *old(state),
            Some(i) => {
                &&& final(state).users@ == old(state).users@.remove(i)
                &&& final(state).events == old(state).events
                &&& final(state).tickets == old(state).tickets
                &&& final(state).bookings == old(state).bookings
            },
        },
        old(state).wf() ==> final(state).wf() && !user_ids(final(state).users@).contains(
            jwt_guard.user.user_id,
        ),
{
    let found = find_user(&state.users, jwt_guard.user.user_id);
    proof {
        lemma_first_place(user_ids(state.users@), jwt_guard.user.user_id, found);
    }
    if let Some(i) = found {
        state.users.remove(i);
        proof {
            lemma_remove_keeps_apart(user_ids(old(state).users@), i as int);
            lemma_remove_keeps_apart(user_emails(old(state).users@), i as int);
            assert(user_ids(state.users@) =~= user_ids(old(state).users@).remove(i as int));
            assert(user_emails(state.users@) =~= user_emails(old(state).users@).remove(
                i as int,
            ));
        }
    }
}

impl LoginError {
    /// The HTTP status of the refusal: 400 where the password is at fault,
    /// 500 where the lookup or the issuing failed.
    pub fn status_code(&self) -> (code: u16)
        ensures
            code == match *self {
                LoginError::LookupFailed => 500u16,
                LoginError::PasswordCheckFailed => 400u16,
                LoginError::WrongPassword => 400u16,
                LoginError::TokenFailed => 500u16,
            },
    {
        match self {
            LoginError::LookupFailed => 500,
            LoginError::PasswordCheckFailed => 400,
            LoginError::WrongPassword => 400,
            LoginError::TokenFailed => 500,
        }
    }
}

impl RegisterError {
    /// The HTTP status of the failure: always 500.
    pub fn status_code(&self) -> (code: u16)
        ensures
            code == 500,
    {
        500
    }
}

impl RefreshError {
    /// The HTTP status of the refusal: 403 for a missing or rejected
    /// credential, 500 for a failed lookup, 502 where issuing failed.
    pub fn status_code(&self) -> (code: u16)
        ensures
            code == match *self {
                RefreshError::MissingCookie => 403u16,
                RefreshError::InvalidToken(_) => 403u16,
                RefreshError::LookupFailed => 500u16,
                RefreshError::TokenFailed => 502u16,
            },
    {
        match self {
            RefreshError::MissingCookie => 403,
            RefreshError::InvalidToken(_) => 403,
            RefreshError::LookupFailed => 500,
            RefreshError::TokenFailed => 502,
        }
    }
}

} // verus!
