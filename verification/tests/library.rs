use crowdfund::config::Config;
use crowdfund::error::AppError;
use crowdfund::google::{
    build_oauth_client, google_auth_location, google_login, token_request_params, AuthCallback,
    AuthRequest, GoogleUser, TokenResponse, GOOGLE_AUTH_URL,
};
use crowdfund::pages::{dashboard_user, homepage};
use crowdfund::session::{ClockReading, Session, Timestamp};
use crowdfund::text::{concat2, push_decimal};
use crowdfund::user::{
    derive_base_username, found_user, random_suffix, sign_in_action, SignInAction, User,
    UsernameSearch,
};

fn config() -> Config {
    Config {
        database_url: "mysql://localhost/crowdfund".to_string(),
        google_client_id: "client-123".to_string(),
        google_client_secret: "s3cret".to_string(),
        google_redirect_uri: "http://localhost:8081/auth/google/callback".to_string(),
    }
}

fn user(name: &str) -> User {
    User {
        id: 7,
        google_id: "g-7".to_string(),
        username: name.to_string(),
        email: "a@b.c".to_string(),
        avatar_url: None,
        created_at: Some((1_700_000_000, 0)),
    }
}

#[test]
fn decimal_notation() {
    for n in [0u32, 7, 10, 42, 1000, 4_294_967_295] {
        let mut s = String::from("x");
        push_decimal(&mut s, n);
        assert_eq!(s, format!("x{}", n));
    }
    assert_eq!(concat2("ab", "cd"), "abcd");
}

#[test]
fn base_username_is_lowercase_alphanumeric() {
    assert_eq!(derive_base_username("John Doe-Smith"), "johndoesmith");
    assert_eq!(derive_base_username("ÉLODIE d'Arc 2"), "élodiedarc2");
    assert_eq!(derive_base_username("!!!"), "");
    assert_eq!(derive_base_username(""), "");
}

#[test]
fn username_search_sequence() {
    let mut search = UsernameSearch::start("Jane Doe");
    assert_eq!(search.candidate(), "janedoe");
    assert!(search.can_advance());
    assert_eq!(search.record_lookup(true), None);
    let second = search.candidate().to_string();
    assert_eq!(second.len(), "janedoe_".len() + 4);
    assert!(second.starts_with("janedoe_"));
    assert!(second["janedoe_".len()..].chars().all(|c| c.is_ascii_alphanumeric()));
    assert_eq!(search.record_lookup(true), None);
    assert_eq!(search.candidate(), "janedoe_2");
    assert_eq!(search.record_lookup(true), None);
    assert_eq!(search.candidate(), "janedoe_3");
    assert_eq!(search.record_lookup(false), Some("janedoe_3".to_string()));
    assert_eq!(search.candidate(), "janedoe_3");
}

#[test]
fn username_search_first_free() {
    let mut search = UsernameSearch::start("Bob");
    assert_eq!(search.record_lookup(false), Some("bob".to_string()));
}

#[test]
fn random_suffix_shape() {
    for _ in 0..50 {
        let s = random_suffix();
        assert_eq!(s.chars().count(), 4);
        assert!(s.chars().all(|c| c.is_ascii_alphanumeric()));
    }
}

#[test]
fn error_status_and_messages() {
    let e = AppError::DatabaseError("connection refused".to_string());
    assert_eq!(e.status_code(), 500);
    assert_eq!(e.message(), "A database error occurred: connection refused");
    assert_eq!(e.description(), "Database error: connection refused");
    assert_eq!(AppError::EnvVarError("x".into()).message(), "Server configuration error: x");
    assert_eq!(
        AppError::ReqwestError("timeout".into()).message(),
        "An error occurred with an external service: timeout"
    );
    assert_eq!(AppError::TeraError("t".into()).message(), "Failed to render the page: t");
    assert_eq!(AppError::TeraError("t".into()).status_code(), 500);
    assert_eq!(AppError::ReqwestError("t".into()).status_code(), 500);
    assert_eq!(AppError::EnvVarError("t".into()).status_code(), 500);
    assert_eq!(AppError::UserNotFound.status_code(), 404);
    assert_eq!(AppError::UserNotFound.message(), "The requested user was not found.");
    assert_eq!(AppError::UserNotFound.description(), "User not found");
    assert_eq!(AppError::AuthError("nope".into()).status_code(), 401);
    assert_eq!(AppError::AuthError("nope".into()).message(), "nope");
    assert_eq!(AppError::AuthError("nope".into()).description(), "Authentication error: nope");
}

#[test]
fn error_response_body() {
    let (status, body) = AppError::UserNotFound.into_response();
    assert_eq!(status, 404);
    assert_eq!(body, r#"{"error":"The requested user was not found."}"#);
    let body = AppError::AuthError("say \"hi\"\\\n".to_string()).response_body();
    assert_eq!(body, r#"{"error":"say \"hi\"\\\n"}"#);
    let v: serde_json::Value = serde_json::from_str(&body).unwrap();
    assert_eq!(v["error"], "say \"hi\"\\\n");
}

#[test]
fn config_from_vars() {
    let ok: Result<String, u8> = Ok("v".to_string());
    let c = Config::from_vars(Ok("db".to_string()), Ok("id".to_string()), Ok("sec".to_string()), Ok("uri".to_string()))
        .map_err(|_: u8| ())
        .unwrap();
    assert_eq!(c.database_url, "db");
    assert_eq!(c.google_client_id, "id");
    assert_eq!(c.google_client_secret, "sec");
    assert_eq!(c.google_redirect_uri, "uri");
    let r = Config::from_vars(ok.clone(), Err(2), Err(3), ok.clone());
    assert!(matches!(r, Err(2)));
    let r = Config::from_vars(Err(1), Err(2), Err(3), Err(4));
    assert!(matches!(r, Err(1)));
    let r = Config::from_vars(ok.clone(), ok.clone(), ok.clone(), Err(4));
    assert!(matches!(r, Err(4)));
}

#[test]
fn timestamps_from_clock() {
    let t = Timestamp::from_clock(ClockReading::AfterEpoch(5, 7));
    assert_eq!((t.secs, t.nanos), (5, 7));
    let t = Timestamp::from_clock(ClockReading::BeforeEpoch(1, 250_000_000));
    assert_eq!((t.secs, t.nanos), (-2, 750_000_000));
    let t = Timestamp::from_clock(ClockReading::BeforeEpoch(3, 0));
    assert_eq!((t.secs, t.nanos), (-3, 0));
    let a = Timestamp { secs: 1, nanos: 5 };
    let b = Timestamp { secs: 1, nanos: 4 };
    assert!(a.after(&b));
    assert!(!b.after(&a));
    assert!(!a.after(&a));
}

#[test]
fn session_lasts_a_day() {
    let now = Timestamp { secs: 1_700_000_000, nanos: 123 };
    let s = Session::new_at(42, "u@example.com".to_string(), now);
    assert_eq!(s.user_id, 42);
    assert_eq!(s.email, "u@example.com");
    assert_eq!((s.expires_at.secs, s.expires_at.nanos), (1_700_086_400, 123));
    assert!(!s.is_expired_at(&Timestamp { secs: 1_700_000_000, nanos: 123 }));
    assert!(!s.is_expired_at(&Timestamp { secs: 1_700_086_400, nanos: 123 }));
    assert!(s.is_expired_at(&Timestamp { secs: 1_700_086_400, nanos: 124 }));
}

#[test]
fn fresh_session_not_expired() {
    let s = Session::new(1, "x@y.z".to_string());
    assert!(!s.is_expired());
    let later = Timestamp { secs: s.expires_at.secs + 1, nanos: 0 };
    assert!(s.is_expired_at(&later));
}

#[test]
fn token_request_form() {
    let p = token_request_params("the-code", &config());
    let expected: Vec<(String, String)> = [
        ("code", "the-code"),
        ("client_id", "client-123"),
        ("client_secret", "s3cret"),
        ("redirect_uri", "http://localhost:8081/auth/google/callback"),
        ("grant_type", "authorization_code"),
    ]
    .iter()
    .map(|(a, b)| (a.to_string(), b.to_string()))
    .collect();
    assert_eq!(p, expected);
}

#[test]
fn consent_screen_location() {
    let c = config();
    assert_eq!(
        google_auth_location(&c),
        format!(
            "https://accounts.google.com/o/oauth2/v2/auth?response_type=code&client_id={}&redirect_uri={}&scope=openid%20email%20profile",
            c.google_client_id, c.google_redirect_uri
        )
    );
}

#[test]
fn oauth_client_login_url() {
    let settings = build_oauth_client("my-id".to_string(), "my-secret".to_string());
    assert_eq!(settings.auth_url, GOOGLE_AUTH_URL);
    let url = google_login(&settings).expect("valid URLs");
    let prefix = "https://accounts.google.com/o/oauth2/v2/auth?response_type=code&client_id=my-id&state=";
    assert!(url.starts_with(prefix), "{}", url);
    let rest = &url[prefix.len()..];
    let state = &rest[..22];
    assert!(state.chars().all(|c| c.is_ascii_alphanumeric() || c == '-' || c == '_'));
    assert_eq!(
        &rest[22..],
        "&redirect_uri=http%3A%2F%2Flocalhost%3A8081%2Fauth%2Fgoogle%2Fcallback&scope=profile+email"
    );
    let other = google_login(&settings).unwrap();
    assert_ne!(url, other);
}

#[test]
fn homepage_embeds_client_id() {
    let page = homepage("abc123");
    assert!(page.starts_with("<!DOCTYPE html>"));
    assert!(page.contains("&client_id=abc123&response_type=code"));
    assert!(page.contains("body {\n"));
    assert!(page.ends_with("</html>"));
}

#[test]
fn page_user_decisions() {
    assert_eq!(found_user(Some(user("amy"))).ok().unwrap().username, "amy");
    assert!(matches!(found_user(None), Err(AppError::UserNotFound)));
    assert_eq!(dashboard_user(Some(user("bo"))).ok().unwrap().username, "bo");
    match dashboard_user(None) {
        Err(AppError::AuthError(m)) => assert_eq!(m, "Not logged in. No users found."),
        _ => panic!("expected an authentication error"),
    }
}

#[test]
fn plain_data_types() {
    let t = TokenResponse { access_token: "tok".into() };
    assert_eq!(t.access_token, "tok");
    let g = GoogleUser { sub: "1".into(), name: "N".into(), email: "e".into(), picture: "p".into() };
    assert_eq!(derive_base_username(&g.name), "n");
    assert_eq!(AuthRequest { code: "c".into() }.code, "c");
    assert_eq!(AuthCallback { code: "d".into() }.code, "d");
}

#[test]
fn exchange_matches_consent() {
    let c = config();
    let params = token_request_params("xyz", &c);
    let location = google_auth_location(&c);
    assert!(location.contains(&format!("client_id={}&", params[1].1)));
    assert!(location.contains(&format!("redirect_uri={}&", params[3].1)));
}

#[test]
fn numbered_candidates_differ() {
    let mut search = UsernameSearch::start("Ann");
    let mut seen = vec![search.candidate().to_string()];
    for _ in 0..12 {
        assert_eq!(search.record_lookup(true), None);
        seen.push(search.candidate().to_string());
    }
    let numbered: Vec<&String> = seen.iter().enumerate().filter(|(i, _)| *i != 1).map(|(_, s)| s).collect();
    for (i, a) in numbered.iter().enumerate() {
        assert!(a.starts_with("ann"));
        for b in numbered.iter().skip(i + 1) {
            assert_ne!(a, b);
        }
    }
    assert_eq!(seen[12], "ann_12");
}

#[test]
fn sign_in_uses_existing_or_creates() {
    match sign_in_action(Some(user("cat"))) {
        SignInAction::UseExisting(u) => assert_eq!(u.username, "cat"),
        SignInAction::CreateUser => panic!("expected the existing user"),
    }
    assert!(matches!(sign_in_action(None), SignInAction::CreateUser));
}

#[test]
fn new_session_expires_a_day_after_opening() {
    let before = std::time::SystemTime::now()
        .duration_since(std::time::UNIX_EPOCH)
        .unwrap()
        .as_secs() as i128;
    let s = Session::new(3, "z@z.z".to_string());
    let after = std::time::SystemTime::now()
        .duration_since(std::time::UNIX_EPOCH)
        .unwrap()
        .as_secs() as i128;
    assert!(s.expires_at.secs >= before + 86_400);
    assert!(s.expires_at.secs <= after + 86_400);
}

#[test]
fn search_ends_within_taken_plus_two_lookups() {
    let taken: Vec<String> =
        vec!["eve".into(), "eve_2".into(), "eve_3".into(), "eve_4".into(), "eve_5".into()];
    let mut search = UsernameSearch::start("Eve");
    let mut lookups = 0;
    let name = loop {
        lookups += 1;
        let is_taken = taken.iter().any(|t| t == search.candidate());
        if let Some(n) = search.record_lookup(is_taken) {
            break n;
        }
    };
    assert!(lookups <= taken.len() + 2);
    assert!(!taken.contains(&name));
}

#[test]
fn error_body_escapes_every_character() {
    let msg = "a\u{1}b\u{8}\t\u{c}\r\u{1f}é\"/";
    let body = AppError::AuthError(msg.to_string()).response_body();
    assert_eq!(body, "{\"error\":\"a\\u0001b\\b\\t\\f\\r\\u001fé\\\"/\"}");
    let v: serde_json::Value = serde_json::from_str(&body).unwrap();
    assert_eq!(v["error"], msg);
    let other = AppError::AuthError("a\u{1}b".to_string()).response_body();
    assert_ne!(body, other);
}
