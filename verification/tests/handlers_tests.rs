use melody_auth::claims::{AccessClaims, RefreshClaims};
use melody_auth::error::{AuthError, ErrorResponse};
use melody_auth::handlers::{
    get_user_handler, health_check_handler, login_reply, login_user_handler, logout_handler,
    refresh_reply, refresh_subject, refresh_subject_at, refresh_token_handler,
    register_user_handler, registered_reply, user_response, user_subject, user_subject_at, Cookie,
    SameSite,
};
use melody_auth::hash::{hash, verify};
use melody_auth::issuer::{issue_tokens, Config, JwtTokens, Users};
use melody_auth::jwt::{decode_token, encode_token};
use melody_auth::schema::{LoginUserSchema, Platform, SignupUserSchema};

const KEY: u128 = 0x0123456789abcdef0123456789abcdef;
const KEY_TEXT: &str = "01234567-89ab-cdef-0123-456789abcdef";
const NOW: i64 = 1_700_000_000;

fn user_with_password(password: &str) -> Users {
    Users {
        user_id: KEY,
        name: "Ada".to_string(),
        username: "ada".to_string(),
        email: "ada@example.com".to_string(),
        password: hash(&password.to_string()).unwrap(),
        preferred_platform: Some("apple music".to_string()),
        photo: Some("ada.png".to_string()),
        created_at: Some(10),
        updated_at: Some(20),
    }
}

fn config() -> Config {
    Config::new("secret".to_string(), 3600, true)
}

fn login(password: &str) -> LoginUserSchema {
    LoginUserSchema { email: "ada@example.com".to_string(), password: password.to_string() }
}

fn fail(message: &str) -> ErrorResponse {
    ErrorResponse { status: "fail".to_string(), message: message.to_string() }
}

fn cookie(name: &str, value: &str, max_age: i64, secure: bool, http_only: bool) -> Cookie {
    Cookie {
        name: name.to_string(),
        value: value.to_string(),
        path: "/".to_string(),
        max_age,
        same_site: SameSite::Lax,
        secure,
        http_only,
    }
}

#[test]
fn successful_login_carries_both_tokens_and_three_cookies() {
    let reply = login_user_handler(Some(user_with_password("hunter2")), &login("hunter2"), &config())
        .unwrap();
    assert_eq!(reply.body.status, "success");
    let access: AccessClaims = decode_token(&reply.body.access_token, "secret").unwrap();
    assert_eq!(access.sub, KEY_TEXT);
    let refresh: RefreshClaims = decode_token(&reply.body.refresh_token, "secret").unwrap();
    assert_eq!(refresh.prf, access.jti);
    assert_eq!(
        reply.cookies,
        vec![
            cookie("access_token", &reply.body.access_token, 3600, true, true),
            cookie("refresh_token", &reply.body.refresh_token, 3600, true, true),
            cookie("logged_in", "true", 3600, true, false),
        ]
    );
}

#[test]
fn login_without_identity_is_refused() {
    let r = login_user_handler(None, &login("hunter2"), &config());
    assert_eq!(
        r,
        Err((400, fail("Invalid email or password: could not locate user with that email")))
    );
}

#[test]
fn login_with_wrong_password_is_refused() {
    let r = login_user_handler(Some(user_with_password("hunter2")), &login("hunter3"), &config());
    assert_eq!(r, Err((400, fail("Invalid password. Does not match hash"))));
}

#[test]
fn login_against_an_unreadable_hash_is_refused() {
    let mut user = user_with_password("hunter2");
    user.password = "hunter2".to_string();
    let r = login_user_handler(Some(user), &login("hunter2"), &config());
    assert_eq!(r, Err((400, fail("Invalid password. Does not match hash"))));
}

#[test]
fn login_that_cannot_issue_is_a_server_failure() {
    let config = Config::new("secret".to_string(), 0, false);
    let r = login_user_handler(Some(user_with_password("hunter2")), &login("hunter2"), &config);
    assert_eq!(r, Err((500, fail("Failed to create token"))));
}

#[test]
fn login_reply_for_given_tokens() {
    let tokens = JwtTokens { access_token: "a.b.c".to_string(), refresh_token: "d.e.f".to_string() };
    let config = Config {
        jwt_secret: "s".to_string(),
        jwt_maxage: 60,
        jwt_refresh_maxage: 600,
        secure_cookies: false,
    };
    let reply = login_reply(tokens, &config);
    assert_eq!(reply.body.status, "success");
    assert_eq!(reply.body.access_token, "a.b.c");
    assert_eq!(reply.body.refresh_token, "d.e.f");
    assert_eq!(
        reply.cookies,
        vec![
            cookie("access_token", "a.b.c", 60, false, true),
            cookie("refresh_token", "d.e.f", 60, false, true),
            cookie("logged_in", "true", 60, false, false),
        ]
    );
}

#[test]
fn refresh_reply_for_given_tokens() {
    let tokens = JwtTokens { access_token: "a.b.c".to_string(), refresh_token: "d.e.f".to_string() };
    let reply = refresh_reply(tokens, &config());
    assert_eq!(reply.body.status, "success");
    assert_eq!(reply.body.access_token, "a.b.c");
    assert_eq!(reply.body.refresh_token, "d.e.f");
    assert_eq!(reply.cookies, vec![cookie("refresh_token", "d.e.f", 3600, true, true)]);
}

#[test]
fn logout_empties_the_access_cookie() {
    let reply = logout_handler();
    assert_eq!(reply.status, "success");
    assert_eq!(reply.cookie, cookie("access_token", "", -3600, false, true));
}

#[test]
fn health_check_answers() {
    let body = health_check_handler();
    assert_eq!(body.status, "success");
    assert_eq!(body.message, "Rusty Melody is healthy!");
}

fn tokens() -> JwtTokens {
    issue_tokens(&user_with_password("x"), &config(), NOW, "a".to_string(), "r".to_string()).unwrap()
}

#[test]
fn refresh_without_cookie_is_refused() {
    assert_eq!(refresh_subject_at(None, "secret", NOW), Err((401, fail("No refresh token found"))));
    assert_eq!(refresh_subject(None, "secret"), Err((401, fail("No refresh token found"))));
}

#[test]
fn refresh_with_a_valid_token_names_the_identity() {
    let pair = tokens();
    assert_eq!(refresh_subject_at(Some(&pair.refresh_token), "secret", NOW), Ok(KEY));
}

#[test]
fn refresh_with_an_access_token_is_refused() {
    let pair = tokens();
    assert_eq!(
        refresh_subject_at(Some(&pair.access_token), "secret", NOW),
        Err((401, fail("Invalid token")))
    );
}

#[test]
fn refresh_with_an_expired_or_forged_token_is_refused_alike() {
    let pair = tokens();
    let expired = refresh_subject_at(Some(&pair.refresh_token), "secret", NOW + 3600);
    let forged = refresh_subject_at(Some(&pair.refresh_token), "other", NOW);
    assert_eq!(expired, Err((401, fail("Invalid token"))));
    assert_eq!(forged, expired);
    assert_eq!(refresh_subject(Some("garbage"), "secret"), expired);
}

#[test]
fn refresh_with_a_subject_that_is_no_key_is_refused() {
    let claims = RefreshClaims {
        exp: (NOW + 10) as usize,
        iat: NOW as usize,
        sub: "nobody".to_string(),
        jti: "r".to_string(),
        prf: "a".to_string(),
        pex: (NOW + 10) as usize,
    };
    let token = encode_token(&claims, "secret").unwrap();
    assert_eq!(refresh_subject_at(Some(&token), "secret", NOW), Err((401, fail("Invalid token"))));
}

#[test]
fn refresh_issues_a_new_pair() {
    let reply = refresh_token_handler(Some(user_with_password("x")), &config()).unwrap();
    assert_eq!(reply.body.status, "success");
    let access: AccessClaims = decode_token(&reply.body.access_token, "secret").unwrap();
    let refresh: RefreshClaims = decode_token(&reply.body.refresh_token, "secret").unwrap();
    assert_eq!(access.sub, KEY_TEXT);
    assert_eq!(refresh.prf, access.jti);
    assert_eq!(
        reply.cookies,
        vec![cookie("refresh_token", &reply.body.refresh_token, 3600, true, true)]
    );
    assert_eq!(refresh_subject(Some(&reply.body.refresh_token), "secret"), Ok(KEY));
}

#[test]
fn refresh_for_a_vanished_identity_is_unauthorized() {
    assert_eq!(refresh_token_handler(None, &config()), Err((401, fail("Invalid token"))));
}

#[test]
fn refresh_that_cannot_issue_is_a_server_failure() {
    let config = Config::new("secret".to_string(), 0, false);
    assert_eq!(
        refresh_token_handler(Some(user_with_password("x")), &config),
        Err((500, fail("Failed to create token")))
    );
}

#[test]
fn user_info_subject() {
    let pair = tokens();
    assert_eq!(user_subject_at(None, "secret", NOW), Err((401, fail("Access token not found"))));
    assert_eq!(user_subject(None, "secret"), Err((401, fail("Access token not found"))));
    assert_eq!(user_subject_at(Some(&pair.access_token), "secret", NOW), Ok(KEY));
    assert_eq!(
        user_subject_at(Some(&pair.access_token), "secret", NOW + 3600),
        Err((401, fail("Invalid token")))
    );
    assert_eq!(user_subject(Some("garbage"), "secret"), Err((401, fail("Invalid token"))));
}

#[test]
fn user_info_shows_the_identity_without_its_password() {
    let body = get_user_handler(Some(user_with_password("x"))).unwrap();
    assert_eq!(body.status, "success");
    assert_eq!(body.message, "User found");
    let shown = body.data.user;
    assert_eq!(shown.user_id, KEY);
    assert_eq!(shown.name, "Ada");
    assert_eq!(shown.username, "ada");
    assert_eq!(shown.email, "ada@example.com");
    assert_eq!(shown.preferred_platform, Platform::AppleMusic);
    assert_eq!(shown.photo, "ada.png");
    assert_eq!(shown.createdAt, 10);
    assert_eq!(shown.updatedAt, 20);
}

#[test]
fn user_info_for_nobody_is_not_found() {
    assert_eq!(get_user_handler(None), Err((404, fail("User not found"))));
}

#[test]
fn identity_defaults_when_shown() {
    let mut user = user_with_password("x");
    user.preferred_platform = None;
    user.photo = None;
    let body = user_response(user, "hello").unwrap();
    assert_eq!(body.message, "hello");
    assert_eq!(body.data.user.preferred_platform, Platform::Spotify);
    assert_eq!(body.data.user.photo, "");
}

#[test]
fn identity_without_times_cannot_be_shown() {
    let mut user = user_with_password("x");
    user.created_at = None;
    assert_eq!(user_response(user, "hello"), Err((500, fail("Internal server error"))));
    let mut user = user_with_password("x");
    user.updated_at = None;
    assert_eq!(registered_reply(user), Err((500, fail("Internal server error"))));
}

#[test]
fn registration_hashes_the_password_and_lowers_the_email() {
    let payload = SignupUserSchema {
        name: "Ada Lovelace".to_string(),
        email: "Ada.Lovelace@Example.COM".to_string(),
        password: "hunter2".to_string(),
        password_confirm: "hunter2".to_string(),
        username: "Ada".to_string(),
        preferred_platform: Some("TIDAL".to_string()),
        photo: None,
    };
    let new_user = register_user_handler(&payload).unwrap();
    assert_eq!(new_user.name, "Ada Lovelace");
    assert_eq!(new_user.username, "Ada");
    assert_eq!(new_user.email, "ada.lovelace@example.com");
    assert_eq!(new_user.preferred_platform, Some("TIDAL".to_string()));
    assert_ne!(new_user.password, "hunter2");
    assert!(verify("hunter2", &new_user.password));
    let other = register_user_handler(&payload).unwrap();
    assert_ne!(other.user_id, new_user.user_id);
}

#[test]
fn registration_lowers_only_ascii_letters() {
    let payload = SignupUserSchema {
        name: String::new(),
        email: "\u{c4}B@Z[`{.\u{130}".to_string(),
        password: String::new(),
        password_confirm: String::new(),
        username: String::new(),
        preferred_platform: None,
        photo: None,
    };
    let new_user = register_user_handler(&payload).unwrap();
    assert_eq!(new_user.email, "\u{c4}b@z[`{.\u{130}");
    assert_eq!(new_user.preferred_platform, None);
}

#[test]
fn registered_reply_shows_the_identity() {
    let body = registered_reply(user_with_password("x")).unwrap();
    assert_eq!(body.status, "success");
    assert_eq!(body.message, "User registered successfully");
    assert_eq!(body.data.user.user_id, KEY);
    assert_eq!(body.data.user.email, "ada@example.com");
}

#[test]
fn bearer_claims_without_token_are_missing_credentials() {
    let r: Result<AccessClaims, melody_auth::error::ApiError> =
        melody_auth::handlers::decode_token_from_request_parts_at(None, "secret", NOW);
    assert_eq!(
        r,
        Err(melody_auth::error::ApiError {
            status_code: 401,
            message: "not logged in".to_string(),
            error_code: None,
        })
    );
    let r: Result<RefreshClaims, melody_auth::error::ApiError> =
        melody_auth::handlers::decode_token_from_request_parts(None, "secret");
    assert_eq!(r.unwrap_err().status_code, 401);
}

#[test]
fn bearer_claims_of_a_valid_token() {
    let pair = tokens();
    let r: Result<AccessClaims, melody_auth::error::ApiError> =
        melody_auth::handlers::decode_token_from_request_parts_at(
            Some(&pair.access_token),
            "secret",
            NOW,
        );
    assert_eq!(
        r,
        Ok(AccessClaims {
            exp: (NOW + 3600) as usize,
            iat: NOW as usize,
            sub: KEY_TEXT.to_string(),
            jti: "a".to_string(),
        })
    );
}

#[test]
fn bearer_claims_of_a_bad_token_are_reported() {
    let pair = tokens();
    let expired: Result<AccessClaims, melody_auth::error::ApiError> =
        melody_auth::handlers::decode_token_from_request_parts_at(
            Some(&pair.access_token),
            "secret",
            NOW + 3600,
        );
    let expected = melody_auth::error::ApiError {
        status_code: 401,
        message: "Invalid token".to_string(),
        error_code: None,
    };
    assert_eq!(expired, Err(expected.clone()));
    let forged: Result<AccessClaims, melody_auth::error::ApiError> =
        melody_auth::handlers::decode_token_from_request_parts(Some("a.b.c"), "secret");
    assert_eq!(forged, Err(expected));
}

#[test]
fn login_at_a_given_time_is_exact() {
    let reply = melody_auth::handlers::login_user_handler_at(
        Some(user_with_password("hunter2")),
        &login("hunter2"),
        &config(),
        NOW,
        "a".to_string(),
        "r".to_string(),
    )
    .unwrap();
    let pair = tokens();
    assert_eq!(reply.body.status, "success");
    assert_eq!(reply.body.access_token, pair.access_token);
    assert_eq!(reply.body.refresh_token, pair.refresh_token);
    assert_eq!(
        reply.cookies,
        vec![
            cookie("access_token", &pair.access_token, 3600, true, true),
            cookie("refresh_token", &pair.refresh_token, 3600, true, true),
            cookie("logged_in", "true", 3600, true, false),
        ]
    );
}

#[test]
fn login_at_a_given_time_refuses_as_the_login_does() {
    let at = |found: Option<Users>, password: &str, config: &Config, now: i64| {
        melody_auth::handlers::login_user_handler_at(
            found,
            &login(password),
            config,
            now,
            "a".to_string(),
            "r".to_string(),
        )
    };
    assert_eq!(
        at(None, "hunter2", &config(), NOW),
        Err((400, fail("Invalid email or password: could not locate user with that email")))
    );
    assert_eq!(
        at(Some(user_with_password("hunter2")), "other", &config(), NOW),
        Err((400, fail("Invalid password. Does not match hash")))
    );
    assert_eq!(
        at(Some(user_with_password("hunter2")), "hunter2", &config(), -1),
        Err((500, fail("Failed to create token")))
    );
    assert_eq!(
        at(Some(user_with_password("hunter2")), "other", &config(), -1),
        Err((400, fail("Invalid password. Does not match hash")))
    );
}

#[test]
fn login_and_refresh_outcomes_follow_the_issuance() {
    let pair = tokens();
    let reply = melody_auth::handlers::login_outcome(Ok(pair.clone()), &config()).unwrap();
    assert_eq!(reply, login_reply(pair.clone(), &config()));
    assert_eq!(reply.cookies.len(), 3);
    let reply = melody_auth::handlers::refresh_outcome(Ok(pair.clone()), &config()).unwrap();
    assert_eq!(reply, refresh_reply(pair, &config()));
    assert_eq!(reply.cookies.len(), 1);
    assert_eq!(
        melody_auth::handlers::login_outcome(Err(AuthError::TokenCreation), &config()),
        Err((500, fail("Failed to create token")))
    );
    assert_eq!(
        melody_auth::handlers::refresh_outcome(Err(AuthError::TokenCreation), &config()),
        Err((500, fail("Failed to create token")))
    );
}

#[test]
fn refresh_at_a_given_time_is_exact() {
    let at = |found: Option<Users>, config: &Config, now: i64| {
        melody_auth::handlers::refresh_token_handler_at(
            found,
            config,
            now,
            "a".to_string(),
            "r".to_string(),
        )
    };
    let pair = tokens();
    let reply = at(Some(user_with_password("x")), &config(), NOW).unwrap();
    assert_eq!(reply, refresh_reply(pair, &config()));
    assert_eq!(at(None, &config(), NOW), Err((401, fail("Invalid token"))));
    assert_eq!(
        at(Some(user_with_password("x")), &config(), -1),
        Err((500, fail("Failed to create token")))
    );
}

fn signup() -> SignupUserSchema {
    SignupUserSchema {
        name: "Ada Lovelace".to_string(),
        email: "Ada@Example.COM".to_string(),
        password: "hunter2".to_string(),
        password_confirm: "hunter2".to_string(),
        username: "Ada".to_string(),
        preferred_platform: Some("Tidal".to_string()),
        photo: Some("ada.png".to_string()),
    }
}

#[test]
fn new_user_from_a_hash_and_a_key() {
    let user =
        melody_auth::handlers::new_user_from(&signup(), Ok("the hash".to_string()), KEY).unwrap();
    assert_eq!(
        user,
        melody_auth::handlers::NewUser {
            user_id: KEY,
            name: "Ada Lovelace".to_string(),
            username: "Ada".to_string(),
            email: "ada@example.com".to_string(),
            password: "the hash".to_string(),
            preferred_platform: Some("Tidal".to_string()),
        }
    );
}

#[test]
fn new_user_from_a_failed_hashing_is_refused() {
    assert_eq!(
        melody_auth::handlers::new_user_from(&signup(), Err(AuthError::HashingError), KEY),
        Err((500, fail("Internal server error")))
    );
}

#[test]
fn tokens_that_are_not_well_signed_are_wrong_credentials() {
    assert_eq!(refresh_subject_at(Some("abc"), "secret", NOW), Err((401, fail("Invalid token"))));
    assert_eq!(user_subject_at(Some("abc"), "secret", NOW), Err((401, fail("Invalid token"))));
    let r: Result<AccessClaims, melody_auth::error::ApiError> =
        melody_auth::handlers::decode_token_from_request_parts_at(Some("abc"), "secret", NOW);
    assert_eq!(
        r,
        Err(melody_auth::error::ApiError::from_auth_error(AuthError::WrongCredentials))
    );
}
