use ticketing::jwt_auth::JwtMiddleware;
use ticketing::models::{AppState, Login, NewUser, User};
use ticketing::token::{
    generate_jwt_token_at, verify_jwt_token_at, AuthError, IssueError, TokenDetails,
};
use ticketing::user_handlers::{
    access_cookie, add_hashed_user, add_user, delete_user, get_user, insert_user, issue_session,
    logout, new_user_row, password_verdict, refresh_access_token_handler, refresh_cookie,
    AuthConfig, LoginError, RefreshError, RegisterError,
};

const ALICE: u128 = 0xa11ce;
// A hash of "password" with a low cost, from bcrypt's own examples.
const PASSWORD_HASH: &str = "$2a$04$UuTkLRZZ6QofpDOlMz32MuuxEHA43WOemOYHPz6.SjsVsyO1tDU96";

fn config() -> AuthConfig {
    AuthConfig {
        access_secret: "access-secret".to_string(),
        refresh_secret: "refresh-secret".to_string(),
        access_token_age: 1,
        refresh_token_age: 7,
    }
}

fn new_alice() -> NewUser {
    NewUser {
        username: "alice".to_string(),
        email: "alice@example.com".to_string(),
        password: "correct horse".to_string(),
        first_name: "Alice".to_string(),
        last_name: "Liddell".to_string(),
        phone_number: "555-0100".to_string(),
    }
}

fn stored(id: u128, email: &str) -> User {
    User {
        user_id: id,
        username: "u".to_string(),
        email: email.to_string(),
        password: PASSWORD_HASH.to_string(),
        first_name: None,
        last_name: None,
        phone_number: None,
        registration_date: None,
    }
}

fn login(email: &str, password: &str) -> Login {
    Login { email: email.to_string(), password: password.to_string() }
}

#[test]
fn registered_user_logs_in_with_the_right_password_only() {
    let mut state = AppState::new();
    let session = add_user(&mut state, &new_alice(), ALICE, &config(), 1_000).unwrap();
    assert_eq!(session.user.email, "alice@example.com");
    assert_eq!(state.users.len(), 1);

    let session =
        get_user(&state, &login("alice@example.com", "correct horse"), &config(), 2_000).unwrap();
    assert_eq!(session.user, state.users[0]);
    let access = session.access.token.clone().unwrap();
    let refresh = session.refresh.token.clone().unwrap();
    assert_eq!(verify_jwt_token_at("access-secret", &access, 2_001).unwrap().user_id, ALICE);
    assert_eq!(verify_jwt_token_at("refresh-secret", &refresh, 2_001).unwrap().user_id, ALICE);
    assert_eq!(access_cookie(&session.access, &config()).value, access);
    assert_eq!(refresh_cookie(&session.refresh, &config()).value, refresh);

    let refused = get_user(&state, &login("alice@example.com", "wrong"), &config(), 2_000);
    assert_eq!(refused, Err(LoginError::WrongPassword));
    assert_eq!(LoginError::WrongPassword.status_code(), 400);
}

#[test]
fn registration_stores_a_hash_and_issues_both_credentials() {
    let mut state = AppState::new();
    let session = add_user(&mut state, &new_alice(), ALICE, &config(), 1_000).unwrap();
    let row = &state.users[0];
    assert_eq!(session.user, *row);
    assert_eq!(row.user_id, ALICE);
    assert_eq!(row.username, "alice");
    assert_eq!(row.first_name, Some("Alice".to_string()));
    assert_eq!(row.last_name, Some("Liddell".to_string()));
    assert_eq!(row.phone_number, Some("555-0100".to_string()));
    assert_eq!(row.registration_date, Some(1_000));
    assert_ne!(row.password, "correct horse");
    assert!(bcrypt::verify("correct horse", &row.password).unwrap());
    assert_eq!(session.access.expires_in, Some(1_000 + 86_400));
    assert_eq!(session.refresh.expires_in, Some(1_000 + 7 * 86_400));
    assert_eq!(session.access.user_id, ALICE);
}

#[test]
fn login_with_a_stored_hash() {
    let mut state = AppState::new();
    state.users = vec![stored(1, "bob@example.com"), stored(2, "carol@example.com")];
    let session = get_user(&state, &login("carol@example.com", "password"), &config(), 0).unwrap();
    assert_eq!(session.user, state.users[1]);
    assert_eq!(session.access.user_id, 2);
    assert_eq!(
        get_user(&state, &login("carol@example.com", "Password"), &config(), 0),
        Err(LoginError::WrongPassword)
    );
}

#[test]
fn login_of_an_unknown_address_is_a_lookup_failure() {
    let mut state = AppState::new();
    state.users = vec![stored(1, "bob@example.com")];
    assert_eq!(
        get_user(&state, &login("nobody@example.com", "password"), &config(), 0),
        Err(LoginError::LookupFailed)
    );
    assert_eq!(LoginError::LookupFailed.status_code(), 500);
}

#[test]
fn login_against_a_broken_hash_fails_the_check() {
    let mut state = AppState::new();
    let mut broken = stored(1, "bob@example.com");
    broken.password = "not a hash".to_string();
    state.users = vec![broken];
    assert_eq!(
        get_user(&state, &login("bob@example.com", "password"), &config(), 0),
        Err(LoginError::PasswordCheckFailed)
    );
    assert_eq!(LoginError::PasswordCheckFailed.status_code(), 400);
}

#[test]
fn login_without_a_possible_expiry_issues_nothing() {
    let mut state = AppState::new();
    state.users = vec![stored(1, "bob@example.com")];
    assert_eq!(
        get_user(&state, &login("bob@example.com", "password"), &config(), i64::MAX),
        Err(LoginError::TokenFailed)
    );
    assert_eq!(LoginError::TokenFailed.status_code(), 500);
}

#[test]
fn password_check_is_read_as_it_came() {
    assert_eq!(password_verdict(Ok(true)), Ok(()));
    assert_eq!(password_verdict(Ok(false)), Err(LoginError::WrongPassword));
    assert_eq!(
        password_verdict(Err(bcrypt::BcryptError::InvalidCost("x".to_string()))),
        Err(LoginError::PasswordCheckFailed)
    );
}

#[test]
fn registration_with_a_taken_address_or_identifier_fails() {
    let mut state = AppState::new();
    state.users = vec![stored(1, "alice@example.com")];
    let before = state.clone();
    let hash = || Ok(PASSWORD_HASH.to_string());
    assert_eq!(
        add_hashed_user(&mut state, &new_alice(), 2, hash(), &config(), 0),
        Err(RegisterError::InsertFailed)
    );
    assert_eq!(state, before);
    let mut other = new_alice();
    other.email = "other@example.com".to_string();
    assert_eq!(
        add_hashed_user(&mut state, &other, 1, hash(), &config(), 0),
        Err(RegisterError::InsertFailed)
    );
    assert_eq!(state, before);
    assert!(add_hashed_user(&mut state, &other, 2, hash(), &config(), 0).is_ok());
    assert_eq!(state.users.len(), 2);
    assert_eq!(RegisterError::InsertFailed.status_code(), 500);
}

#[test]
fn registration_without_a_hash_fails() {
    let mut state = AppState::new();
    let failed = Err(bcrypt::BcryptError::CostNotAllowed(99));
    assert_eq!(
        add_hashed_user(&mut state, &new_alice(), ALICE, failed, &config(), 0),
        Err(RegisterError::HashFailed)
    );
    assert_eq!(state, AppState::new());
    assert_eq!(RegisterError::HashFailed.status_code(), 500);
}

#[test]
fn registration_keeps_the_user_when_no_credential_can_be_issued() {
    let mut state = AppState::new();
    let hash = Ok(PASSWORD_HASH.to_string());
    assert_eq!(
        add_hashed_user(&mut state, &new_alice(), ALICE, hash, &config(), i64::MAX),
        Err(RegisterError::TokenFailed)
    );
    assert_eq!(
        state.users,
        vec![new_user_row(&new_alice(), ALICE, PASSWORD_HASH.to_string(), i64::MAX)]
    );
    assert_eq!(RegisterError::TokenFailed.status_code(), 500);
}

#[test]
fn insert_keeps_identifiers_and_addresses_apart() {
    let mut state = AppState::new();
    assert_eq!(insert_user(&mut state, stored(1, "a@example.com")), Ok(()));
    assert_eq!(insert_user(&mut state, stored(1, "b@example.com")), Err(RegisterError::InsertFailed));
    assert_eq!(insert_user(&mut state, stored(2, "a@example.com")), Err(RegisterError::InsertFailed));
    assert_eq!(insert_user(&mut state, stored(2, "b@example.com")), Ok(()));
    assert_eq!(state.users, vec![stored(1, "a@example.com"), stored(2, "b@example.com")]);
}

#[test]
fn session_holds_one_credential_under_each_secret() {
    let session = issue_session(stored(5, "e@example.com"), &config(), 100).unwrap();
    let access = session.access.token.unwrap();
    let refresh = session.refresh.token.unwrap();
    assert!(verify_jwt_token_at("access-secret", &access, 100).is_ok());
    assert_eq!(
        verify_jwt_token_at("refresh-secret", &access, 100),
        Err(AuthError::InvalidSignature)
    );
    assert!(verify_jwt_token_at("refresh-secret", &refresh, 86_500).is_ok());
    assert_eq!(verify_jwt_token_at("access-secret", &access, 86_500), Err(AuthError::Expired));
    assert_eq!(
        issue_session(stored(5, "e@example.com"), &config(), i64::MAX),
        Err(IssueError::ExpiryOutOfRange)
    );
}

#[test]
fn refresh_renews_the_access_credential() {
    let mut state = AppState::new();
    state.users = vec![stored(1, "bob@example.com")];
    let refresh = generate_jwt_token_at(1, "refresh-secret", 7, 0).unwrap().token.unwrap();
    let renewed =
        refresh_access_token_handler(&state, None, Some(&refresh), &config(), 1_000).unwrap();
    assert_eq!(renewed.user, state.users[0]);
    assert_eq!(renewed.access.expires_in, Some(87_400));
    let access = renewed.access.token.unwrap();
    assert_eq!(verify_jwt_token_at("access-secret", &access, 1_001).unwrap().user_id, 1);
    let header = format!("Bearer {}", refresh);
    assert!(refresh_access_token_handler(&state, Some(&header), None, &config(), 1_000).is_ok());
}

#[test]
fn refresh_is_refused_without_a_good_refresh_credential() {
    let mut state = AppState::new();
    state.users = vec![stored(1, "bob@example.com")];
    assert_eq!(
        refresh_access_token_handler(&state, None, None, &config(), 0),
        Err(RefreshError::MissingCookie)
    );
    let access = generate_jwt_token_at(1, "access-secret", 1, 0).unwrap().token.unwrap();
    assert_eq!(
        refresh_access_token_handler(&state, None, Some(&access), &config(), 0),
        Err(RefreshError::InvalidToken(AuthError::InvalidSignature))
    );
    let refresh = generate_jwt_token_at(1, "refresh-secret", 7, 0).unwrap().token.unwrap();
    assert_eq!(
        refresh_access_token_handler(&state, None, Some(&refresh), &config(), 604_800),
        Err(RefreshError::InvalidToken(AuthError::Expired))
    );
    let stranger = generate_jwt_token_at(2, "refresh-secret", 7, 0).unwrap().token.unwrap();
    assert_eq!(
        refresh_access_token_handler(&state, None, Some(&stranger), &config(), 0),
        Err(RefreshError::LookupFailed)
    );
    let mut endless = config();
    endless.access_token_age = i64::MAX;
    assert_eq!(
        refresh_access_token_handler(&state, None, Some(&refresh), &endless, 0),
        Err(RefreshError::TokenFailed)
    );
    assert_eq!(RefreshError::MissingCookie.status_code(), 403);
    assert_eq!(RefreshError::InvalidToken(AuthError::Expired).status_code(), 403);
    assert_eq!(RefreshError::LookupFailed.status_code(), 500);
    assert_eq!(RefreshError::TokenFailed.status_code(), 502);
}

#[test]
fn cookies_carry_the_credentials() {
    let details = TokenDetails { token: Some("tok".to_string()), user_id: 1, expires_in: Some(5) };
    let cookie = access_cookie(&details, &config());
    assert_eq!(cookie.name, "access_token");
    assert_eq!(cookie.value, "tok");
    assert_eq!(cookie.max_age_days, 1);
    let cookie = refresh_cookie(&details, &config());
    assert_eq!(cookie.name, "refresh_token");
    assert_eq!(cookie.value, "tok");
    assert_eq!(cookie.max_age_days, 7);
    let bare = TokenDetails { token: None, user_id: 1, expires_in: None };
    assert_eq!(access_cookie(&bare, &config()).value, "");
}

#[test]
fn logout_clears_both_cookies() {
    let (access, refresh) = logout();
    assert_eq!(access.name, "access_token");
    assert_eq!(refresh.name, "refresh_token");
    assert_eq!(access.value, "");
    assert_eq!(refresh.value, "");
    assert_eq!(access.max_age_days, -1);
    assert_eq!(refresh.max_age_days, -1);
}

#[test]
fn deleted_user_is_no_longer_resolved() {
    let mut state = AppState::new();
    state.users = vec![stored(1, "a@example.com"), stored(2, "b@example.com")];
    let token = generate_jwt_token_at(1, "access-secret", 1, 0).unwrap().token.unwrap();
    let guard =
        JwtMiddleware::from_request(None, Some(&token), "access-secret", 1, &state.users).unwrap();
    delete_user(&mut state, &guard);
    assert_eq!(state.users, vec![stored(2, "b@example.com")]);
    assert_eq!(
        JwtMiddleware::from_request(None, Some(&token), "access-secret", 1, &state.users),
        Err(AuthError::PrincipalNotFound)
    );
    delete_user(&mut state, &guard);
    assert_eq!(state.users.len(), 1);
}
