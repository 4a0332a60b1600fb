use std::time::{SystemTime, UNIX_EPOCH};
use subspace_hub::auth::{
    authorize, bearer_token, chrono_like_exp, claims_of, create_token, create_token_until,
    expiry_after, hash_password, login, validate_token, verdict, verify_password, AuthFailure,
    AuthUser, Claims, Denied, TokenError, TOKEN_LIFETIME_SECS,
};
use subspace_hub::db::UserRow;
use subspace_hub::ids::Uuid;

const U: &str = "6ba7b810-9dad-11d1-80b4-00c04fd430c8";

fn now() -> u64 {
    SystemTime::now().duration_since(UNIX_EPOCH).unwrap().as_secs()
}

#[test]
fn a_token_lives_seven_days() {
    assert_eq!(TOKEN_LIFETIME_SECS, 7 * 24 * 60 * 60);
    assert_eq!(expiry_after(0), 604800);
    assert_eq!(expiry_after(1_700_000_000), 1_700_604_800);
}

#[test]
fn expiry_stops_at_the_largest_instant() {
    assert_eq!(expiry_after(u64::MAX), usize::MAX);
    assert_eq!(expiry_after(u64::MAX - 604800), usize::MAX);
    assert_eq!(expiry_after(u64::MAX - 604801) as u64, u64::MAX - 1);
}

#[test]
fn chrono_like_exp_is_seven_days_from_now() {
    let before = now();
    let exp = chrono_like_exp() as u64;
    let after = now();
    assert!(before + 604800 <= exp);
    assert!(exp <= after + 604800);
}

#[test]
fn a_token_comes_back_with_its_claims() {
    let token = create_token(U, "secret").unwrap();
    assert_ne!(token, U);
    assert_eq!(token.matches('.').count(), 2);
    let claims = validate_token(&token, "secret").unwrap();
    assert_eq!(claims.sub, U);
    let left = claims.exp as u64 - now();
    assert!(604790 <= left && left <= 604800);
    assert_eq!(verdict(Ok(claims)), Some(U.to_string()));
}

#[test]
fn signing_depends_on_claims_and_secret_alone() {
    let a = create_token_until("bob", "secret", 2_000_000_000).unwrap();
    let b = create_token_until("bob", "secret", 2_000_000_000).unwrap();
    assert_eq!(a, b);
    assert_ne!(a, create_token_until("eve", "secret", 2_000_000_000).unwrap());
    assert_ne!(a, create_token_until("bob", "other", 2_000_000_000).unwrap());
    assert_ne!(a, create_token_until("bob", "secret", 2_000_000_001).unwrap());
    assert_eq!(
        validate_token(&a, "secret"),
        Ok(Claims { sub: "bob".to_string(), exp: 2_000_000_000 })
    );
}

#[test]
fn a_token_signed_with_another_secret_is_rejected() {
    let token = create_token(U, "secret").unwrap();
    assert_eq!(validate_token(&token, "other"), Err(TokenError::Rejected));
    assert_eq!(verdict(Err(TokenError::Rejected)), None);
}

#[test]
fn an_expired_token_is_rejected() {
    let token = create_token_until(U, "secret", 1_000_000).unwrap();
    assert_eq!(validate_token(&token, "secret"), Err(TokenError::Rejected));
}

#[test]
fn what_is_no_token_is_rejected() {
    for bad in ["", "T", "a.b.c", "a.b", "....", "eyJhbGciOiJIUzI1NiJ9.e30.x"] {
        assert_eq!(validate_token(bad, "secret"), Err(TokenError::Rejected), "{bad:?}");
    }
}

#[test]
fn claims_need_a_user_and_an_expiry() {
    assert_eq!(
        claims_of(Some("{\"sub\":\"bob\",\"exp\":17}".to_string())),
        Ok(Claims { sub: "bob".to_string(), exp: 17 })
    );
    assert_eq!(
        claims_of(Some("{\"exp\":17,\"iat\":3,\"sub\":\"bob\"}".to_string())),
        Ok(Claims { sub: "bob".to_string(), exp: 17 })
    );
    for incomplete in [
        "{\"exp\":17}",
        "{\"sub\":\"bob\"}",
        "{\"sub\":7,\"exp\":17}",
        "{\"sub\":\"bob\",\"exp\":\"17\"}",
        "{\"sub\":\"bob\",\"exp\":-1}",
        "{\"sub\":\"bob\",\"exp\":1.5}",
        "[\"bob\",17]",
        "null",
    ] {
        assert_eq!(claims_of(Some(incomplete.to_string())), Err(TokenError::Claims), "{incomplete}");
    }
    assert_eq!(claims_of(None), Err(TokenError::Rejected));
    assert_eq!(Claims::from_json("{\"sub\":\"a\",\"exp\":0}"), Some(Claims { sub: "a".to_string(), exp: 0 }));
    assert_eq!(Claims::from_json("x"), None);
}

#[test]
fn claims_json() {
    let claims = Claims { sub: "b\"ob".to_string(), exp: 1_700_000_000 };
    assert_eq!(claims.to_json(), "{\"exp\":1700000000,\"sub\":\"b\\\"ob\"}");
    assert_eq!(Claims::from_json(&claims.to_json()), Some(claims));
    let far = Claims { sub: String::new(), exp: usize::MAX };
    assert_eq!(far.to_json(), format!("{{\"exp\":{},\"sub\":\"\"}}", usize::MAX));
}

#[test]
fn a_token_without_a_user_has_no_claims() {
    // Signed and unexpired, but bound to nobody.
    let header = "eyJ0eXAiOiJKV1QiLCJhbGciOiJIUzI1NiJ9";
    let _ = header;
    let token = create_token_until("", "secret", 4_000_000_000).unwrap();
    assert_eq!(validate_token(&token, "secret"), Ok(Claims { sub: String::new(), exp: 4_000_000_000 }));
}

#[test]
fn bearer_tokens_follow_the_word_bearer() {
    assert_eq!(bearer_token("Bearer abc"), Some("abc".to_string()));
    assert_eq!(bearer_token("Bearer "), Some(String::new()));
    assert_eq!(bearer_token("Bearer a b"), Some("a b".to_string()));
    assert_eq!(bearer_token("Bearer é✓"), Some("é✓".to_string()));
    assert_eq!(bearer_token("Bearer"), None);
    assert_eq!(bearer_token("bearer abc"), None);
    assert_eq!(bearer_token("Basic abc"), None);
    assert_eq!(bearer_token(" Bearer abc"), None);
    assert_eq!(bearer_token(""), None);
    assert_eq!(bearer_token("éééééééé"), None);
}

#[test]
fn the_door_admits_a_sound_token_only() {
    let token = create_token(U, "secret").unwrap();
    assert_eq!(
        authorize(&format!("Bearer {token}"), "secret"),
        Ok(AuthUser { user_id: U.to_string() })
    );
    assert_eq!(authorize(&format!("Bearer {token}"), "other"), Err(Denied::InvalidToken));
    assert_eq!(authorize("Bearer nonsense", "secret"), Err(Denied::InvalidToken));
    assert_eq!(authorize(&token, "secret"), Err(Denied::MissingToken));
    assert_eq!(authorize("", "secret"), Err(Denied::MissingToken));
}

#[test]
fn passwords_are_hashed_with_a_fresh_salt() {
    let first = hash_password("hunter2").unwrap();
    let second = hash_password("hunter2").unwrap();
    assert_ne!(first, "hunter2");
    assert_ne!(first, second);
    assert!(first.starts_with("$argon2id$"));
    assert!(verify_password("hunter2", &first));
    assert!(verify_password("hunter2", &second));
    assert!(!verify_password("hunter3", &first));
    assert!(!verify_password("", &first));
}

#[test]
fn a_stored_hash_that_is_malformed_matches_nothing() {
    assert!(!verify_password("hunter2", "hunter2"));
    assert!(!verify_password("", ""));
    assert!(!verify_password("x", "$argon2id$"));
}

fn stored_user(password: &str) -> UserRow {
    UserRow {
        id: U.to_string(),
        username: "bob".to_string(),
        password_hash: hash_password(password).unwrap(),
        avatar_url: None,
        theme: "dark".to_string(),
        language: "en".to_string(),
        notifications_enabled: true,
        created_at: "t0".to_string(),
        updated_at: "t1".to_string(),
    }
}

#[test]
fn login_with_the_right_password_issues_a_token() {
    let response = login(Some(stored_user("hunter2")), "hunter2", "secret").unwrap();
    assert_eq!(response.user.id, Uuid::parse_str(U).unwrap());
    assert_eq!(response.user.username, "bob");
    assert_eq!(response.user.theme, "dark");
    assert_eq!(validate_token(&response.token, "secret").unwrap().sub, U);
}

#[test]
fn login_is_turned_down_without_user_or_with_a_wrong_password() {
    assert_eq!(login(None, "hunter2", "secret"), Err(AuthFailure::InvalidCredentials));
    assert_eq!(
        login(Some(stored_user("hunter2")), "hunter3", "secret"),
        Err(AuthFailure::InvalidCredentials)
    );
    let mut unusable = stored_user("hunter2");
    unusable.password_hash = "plain".to_string();
    assert_eq!(login(Some(unusable), "plain", "secret"), Err(AuthFailure::InvalidCredentials));
}

#[test]
fn login_of_a_user_with_a_malformed_id_fails_inside() {
    let mut broken = stored_user("hunter2");
    broken.id = "bob".to_string();
    assert_eq!(login(Some(broken), "hunter2", "secret"), Err(AuthFailure::Internal));
}
