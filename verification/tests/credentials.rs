use forms_backend::auth::{
    authenticate_at, bearer_token, check_claims, create_token, create_token_at, hash_password,
    validate_token, verify_password, AuthUser, Claims, TOKEN_LIFETIME_SECONDS,
};
use forms_backend::config::Config;
use forms_backend::error::AppError;

fn config_with(secret: &str) -> Config {
    Config {
        database_url: "postgres://localhost/forms".to_string(),
        jwt_secret: secret.to_string(),
        paystack_secret_key: "sk_test_key".to_string(),
        paystack_public_key: "pk_test_key".to_string(),
    }
}

const USER: u128 = 0x67e5_5044_10b1_426f_9247_bb68_0e5f_e0c8;
const NOW: i64 = 1_700_000_000;

#[test]
fn issued_token_validates_as_its_user() {
    let config = config_with("fixture-secret");
    let token = create_token_at(USER, NOW, &config).unwrap();
    let user = validate_token(&token, &config, NOW).unwrap();
    assert_eq!(user, AuthUser { user_id: USER });
}

#[test]
fn token_is_three_dot_separated_parts() {
    let config = config_with("fixture-secret");
    let token = create_token_at(USER, NOW, &config).unwrap();
    assert_eq!(token.split('.').count(), 3);
    assert_ne!(token, "fixture-secret");
}

#[test]
fn token_is_valid_up_to_its_expiry_and_not_after() {
    let config = config_with("fixture-secret");
    let token = create_token_at(USER, NOW, &config).unwrap();
    let expiry = NOW + TOKEN_LIFETIME_SECONDS;
    assert_eq!(expiry, NOW + 7 * 24 * 60 * 60);
    assert!(validate_token(&token, &config, expiry - 1).is_ok());
    assert!(validate_token(&token, &config, expiry).is_ok());
    assert!(matches!(validate_token(&token, &config, expiry + 1), Err(AppError::AuthError)));
    assert!(matches!(validate_token(&token, &config, expiry + 30), Err(AppError::AuthError)));
}

#[test]
fn token_signed_with_another_secret_fails() {
    let signer = config_with("secret-one");
    let verifier = config_with("secret-two");
    let token = create_token_at(USER, NOW, &signer).unwrap();
    assert!(matches!(validate_token(&token, &verifier, NOW), Err(AppError::AuthError)));
}

#[test]
fn tampered_token_fails() {
    let config = config_with("fixture-secret");
    let token = create_token_at(USER, NOW, &config).unwrap();
    let mut tampered = token.clone();
    let last = tampered.pop().unwrap();
    tampered.push(if last == 'A' { 'B' } else { 'A' });
    assert!(matches!(validate_token(&tampered, &config, NOW), Err(AppError::AuthError)));
    assert!(matches!(validate_token("not-a-token", &config, NOW), Err(AppError::AuthError)));
    assert!(matches!(validate_token("", &config, NOW), Err(AppError::AuthError)));
}

#[test]
fn token_issued_from_the_clock_validates_now() {
    let config = config_with("fixture-secret");
    let token = create_token(USER, &config).unwrap();
    let now = std::time::SystemTime::now()
        .duration_since(std::time::UNIX_EPOCH)
        .unwrap()
        .as_secs() as i64;
    assert_eq!(validate_token(&token, &config, now).unwrap().user_id, USER);
    assert!(validate_token(&token, &config, now + TOKEN_LIFETIME_SECONDS + 5).is_err());
    assert!(validate_token(&token, &config, now + TOKEN_LIFETIME_SECONDS - 5).is_ok());
}

#[test]
fn claims_are_judged_by_their_expiry() {
    let claims = Claims { sub: 7, exp: 100 };
    assert_eq!(check_claims(Some(claims), 99).unwrap(), AuthUser { user_id: 7 });
    assert_eq!(check_claims(Some(claims), 100).unwrap(), AuthUser { user_id: 7 });
    assert!(matches!(check_claims(Some(claims), 101), Err(AppError::AuthError)));
    assert!(matches!(check_claims(None, 0), Err(AppError::AuthError)));
}

#[test]
fn bearer_scheme_is_read_from_the_header() {
    assert_eq!(bearer_token("Bearer abc.def.ghi"), Some("abc.def.ghi".to_string()));
    assert_eq!(bearer_token("Bearer "), Some(String::new()));
    assert_eq!(bearer_token("Bearer"), None);
    assert_eq!(bearer_token("bearer abc"), None);
    assert_eq!(bearer_token("Basic QWxhZGRpbjpvcGVuIHNlc2FtZQ=="), None);
    assert_eq!(bearer_token(""), None);
    assert_eq!(bearer_token("Bearerabc"), None);
}

#[test]
fn request_is_authenticated_from_its_header() {
    let config = config_with("fixture-secret");
    let token = create_token_at(USER, NOW, &config).unwrap();
    let header = format!("Bearer {}", token);
    assert_eq!(authenticate_at(Some(&header), &config, NOW).unwrap().user_id, USER);
    assert!(matches!(authenticate_at(None, &config, NOW), Err(AppError::AuthError)));
    assert!(matches!(authenticate_at(Some(&token), &config, NOW), Err(AppError::AuthError)));
    assert!(matches!(
        authenticate_at(Some(&header), &config, NOW + TOKEN_LIFETIME_SECONDS + 1),
        Err(AppError::AuthError)
    ));
}

#[test]
fn hashed_password_verifies() {
    let hash = hash_password("hunter22").unwrap();
    assert_ne!(hash, "hunter22");
    assert!(hash.starts_with("$2b$10$"));
    assert_eq!(verify_password("hunter22", &hash).unwrap(), true);
    assert_eq!(verify_password("hunter23", &hash).unwrap(), false);
}

#[test]
fn known_hash_verifies() {
    let hash = "$2b$04$EGdrhbKUv8Oc9vGiXX0HQOxSg445d458Muh7DAHskb6QbtCvdxcie";
    assert_eq!(verify_password("correctbatteryhorsestapler", hash).unwrap(), true);
    assert_eq!(verify_password("wrong", hash).unwrap(), false);
}

#[test]
fn malformed_hash_is_an_internal_failure() {
    assert!(matches!(verify_password("hunter22", "not-a-hash"), Err(AppError::InternalError)));
}

#[test]
fn two_hashes_of_one_password_differ() {
    let first = hash_password("hunter22").unwrap();
    let second = hash_password("hunter22").unwrap();
    assert_ne!(first, second);
}

fn base64url_decode(text: &str) -> Vec<u8> {
    let mut bits: u32 = 0;
    let mut count = 0;
    let mut out = Vec::new();
    for c in text.chars() {
        let value = match c {
            'A'..='Z' => c as u32 - 'A' as u32,
            'a'..='z' => c as u32 - 'a' as u32 + 26,
            '0'..='9' => c as u32 - '0' as u32 + 52,
            '-' => 62,
            '_' => 63,
            _ => panic!("not base64url: {}", c),
        };
        bits = (bits << 6) | value;
        count += 6;
        if count >= 8 {
            count -= 8;
            out.push((bits >> count) as u8);
            bits &= (1 << count) - 1;
        }
    }
    out
}

#[test]
fn token_payload_names_the_user_and_the_expiry() {
    let config = config_with("fixture-secret");
    let token = create_token_at(USER, NOW, &config).unwrap();
    let parts: Vec<&str> = token.split('.').collect();
    let header = String::from_utf8(base64url_decode(parts[0])).unwrap();
    let payload = String::from_utf8(base64url_decode(parts[1])).unwrap();
    assert_eq!(header, "{\"typ\":\"JWT\",\"alg\":\"HS256\"}");
    assert_eq!(
        payload,
        "{\"sub\":\"67e55044-10b1-426f-9247-bb680e5fe0c8\",\"exp\":1700604800}"
    );
}

#[test]
fn issuing_is_deterministic_given_the_secret() {
    let config = config_with("fixture-secret");
    let first = create_token_at(USER, NOW, &config).unwrap();
    let second = create_token_at(USER, NOW, &config).unwrap();
    assert_eq!(first, second);
    assert_ne!(first, create_token_at(USER + 1, NOW, &config).unwrap());
    assert_ne!(first, create_token_at(USER, NOW + 1, &config).unwrap());
    assert_ne!(first, create_token_at(USER, NOW, &config_with("other")).unwrap());
}

#[test]
fn token_expiring_before_the_epoch_does_not_validate() {
    let config = config_with("fixture-secret");
    let token = create_token_at(USER, -TOKEN_LIFETIME_SECONDS - 10, &config).unwrap();
    assert!(validate_token(&token, &config, -TOKEN_LIFETIME_SECONDS - 20).is_err());
    let edge = create_token_at(USER, -TOKEN_LIFETIME_SECONDS, &config).unwrap();
    assert_eq!(validate_token(&edge, &config, -5).unwrap().user_id, USER);
    assert!(validate_token(&edge, &config, 1).is_err());
}

#[test]
fn issuing_fails_only_where_the_expiry_cannot_be_represented() {
    let config = config_with("fixture-secret");
    let last = i64::MAX - TOKEN_LIFETIME_SECONDS;
    assert!(create_token_at(USER, last, &config).is_ok());
    assert!(matches!(create_token_at(USER, last + 1, &config), Err(AppError::InternalError)));
    assert!(matches!(create_token_at(USER, i64::MAX, &config), Err(AppError::InternalError)));
    assert!(create_token_at(USER, i64::MIN, &config).is_ok());
    assert!(create_token_at(USER, 0, &config).is_ok());
}

#[test]
fn issuing_from_the_clock_gives_a_token() {
    let config = config_with("fixture-secret");
    for user in [0u128, 1, USER, u128::MAX] {
        let token = create_token(user, &config).unwrap();
        assert_eq!(token.split('.').count(), 3);
    }
}

#[test]
fn hash_begins_with_version_and_work_factor() {
    let hash = hash_password("correct horse").unwrap();
    assert_eq!(hash.len(), 60);
    assert_eq!(&hash[..7], "$2b$10$");
}
