use be::auth::{
    auth_from_verification, auth_token_from_header, bearer_token, internal_auth, internal_token,
    jwt_secret,
};
use be::clock::Timestamp;
use be::ids::{class_lookup_key, uuid_text};
use be::jwt::{create_jwt, create_jwt_at, create_jwt_expiring, token_expiry, Claims, TokenError};
use be::password::{check_password, hash_password, PasswordError};

const PASSWORD_HASH: &str = "$2a$04$UuTkLRZZ6QofpDOlMz32MuuxEHA43WOemOYHPz6.SjsVsyO1tDU96";

#[test]
fn bearer_token_is_the_rest_after_the_prefix() {
    assert_eq!(bearer_token("Bearer abc.def"), Some("abc.def".to_string()));
    assert_eq!(bearer_token("Bearer "), Some(String::new()));
    assert_eq!(bearer_token("bearer abc"), None);
    assert_eq!(bearer_token("Bearer"), None);
    assert_eq!(bearer_token("Basic abc"), None);
    assert_eq!(bearer_token(""), None);
}

#[test]
fn missing_header_is_rejected_with_401() {
    let r = auth_token_from_header(None);
    let (code, body) = r.err().unwrap();
    assert_eq!(code, 401);
    assert_eq!(body.status, 401);
    assert_eq!(body.message, "Thiếu header Authorization");
    assert!(body.data.is_none());
}

#[test]
fn non_bearer_header_is_rejected_with_401() {
    let (code, body) = auth_token_from_header(Some("Token abc")).err().unwrap();
    assert_eq!(code, 401);
    assert_eq!(body.status, 401);
    assert_eq!(body.message, "Sai định dạng token");
}

#[test]
fn bearer_header_yields_token() {
    assert_eq!(auth_token_from_header(Some("Bearer xyz")).ok(), Some("xyz".to_string()));
}

#[test]
fn verified_claims_authenticate() {
    let claims = Claims {
        sub: "u".to_string(),
        exp: 10,
        role: "Admin".to_string(),
        email: "a@b.c".to_string(),
    };
    let auth = auth_from_verification(Ok(claims)).ok().unwrap();
    assert_eq!(auth.0.email, "a@b.c");
    let (code, body) = auth_from_verification(Err(())).err().unwrap();
    assert_eq!(code, 401);
    assert_eq!(body.status, 401);
    assert_eq!(body.message, "Token không hợp lệ");
}

#[test]
fn secrets_default_when_unset() {
    assert_eq!(jwt_secret(None), "mysecret");
    assert_eq!(jwt_secret(Some("k".to_string())), "k");
    assert_eq!(internal_token(None), "your_secret_token_here");
    assert_eq!(internal_token(Some("t".to_string())), "t");
}

#[test]
fn internal_auth_accepts_exactly_the_expected_token() {
    assert!(internal_auth(Some("Bearer sesame"), "sesame").is_ok());
    let (code, body) = internal_auth(Some("Bearer other"), "sesame").err().unwrap();
    assert_eq!((code, body.status, body.message.as_str()), (401, 400, "Invalid token"));
    let (code, body) = internal_auth(Some("sesame"), "sesame").err().unwrap();
    assert_eq!(
        (code, body.status, body.message.as_str()),
        (401, 400, "Missing or invalid Authorization header")
    );
    let (code, body) = internal_auth(None, "sesame").err().unwrap();
    assert_eq!(
        (code, body.status, body.message.as_str()),
        (401, 400, "Missing or invalid Authorization header")
    );
}

#[test]
fn uuid_text_is_hyphenated_lowercase() {
    let u: u128 = 0x550e8400_e29b_41d4_a716_446655440000;
    assert_eq!(uuid_text(u), "550e8400-e29b-41d4-a716-446655440000");
    assert_eq!(uuid_text(0), "00000000-0000-0000-0000-000000000000");
    assert_eq!(class_lookup_key(&uuid_text(u)), Some(u));
}

#[test]
fn class_lookup_key_reads_uuid_texts() {
    assert_eq!(
        class_lookup_key("550E8400E29B41D4A716446655440000"),
        Some(0x550e8400_e29b_41d4_a716_446655440000)
    );
    assert_eq!(class_lookup_key("not-a-uuid"), None);
    assert_eq!(class_lookup_key(""), None);
}

#[test]
fn known_hash_accepts_its_password_only() {
    assert_eq!(check_password("password", PASSWORD_HASH), Ok(true));
    assert_eq!(check_password("Password", PASSWORD_HASH), Ok(false));
    assert_eq!(check_password("password", "not a hash"), Err(PasswordError::Checking));
}

#[test]
fn hashed_password_checks() {
    let h = hash_password("hunter2").unwrap();
    assert_ne!(h, "hunter2");
    assert_eq!(check_password("hunter2", &h), Ok(true));
    assert_eq!(check_password("hunter3", &h), Ok(false));
}

fn decode(token: &str, secret: &str, check_exp: bool) -> serde_json::Map<String, serde_json::Value> {
    let mut v = jsonwebtoken::Validation::default();
    v.validate_exp = check_exp;
    v.required_spec_claims.clear();
    jsonwebtoken::decode::<serde_json::Map<String, serde_json::Value>>(
        token,
        &jsonwebtoken::DecodingKey::from_secret(secret.as_bytes()),
        &v,
    )
    .unwrap()
    .claims
}

#[test]
fn token_carries_the_given_claims() {
    let t = create_jwt_expiring("id-1", "Teacher", "t@school.vn", "k", 1234).ok().unwrap();
    assert_eq!(t.split('.').count(), 3);
    let c = decode(&t, "k", false);
    assert_eq!(c["sub"], "id-1");
    assert_eq!(c["exp"], 1234);
    assert_eq!(c["role"], "Teacher");
    assert_eq!(c["email"], "t@school.vn");
}

#[test]
fn token_is_determined_by_claims_and_secret() {
    let a = create_jwt_expiring("s", "Admin", "e", "k", 99).ok().unwrap();
    let b = create_jwt_expiring("s", "Admin", "e", "k", 99).ok().unwrap();
    let c = create_jwt_expiring("s", "Admin", "e", "other", 99).ok().unwrap();
    assert_eq!(a, b);
    assert_ne!(a, c);
}

#[test]
fn token_expires_an_hour_later() {
    assert_eq!(token_expiry(Timestamp { secs: 1_000, nanos: 5 }), Ok(4_600));
    assert_eq!(token_expiry(Timestamp { secs: i64::MAX, nanos: 0 }), Err(TokenError::Expiry));
}

#[test]
fn token_expiry_reaches_the_calendar_end() {
    assert_eq!(
        token_expiry(Timestamp { secs: 8_210_266_873_199, nanos: 0 }),
        Ok(8_210_266_876_799)
    );
    assert_eq!(
        token_expiry(Timestamp { secs: 8_210_266_873_200, nanos: 0 }),
        Err(TokenError::Expiry)
    );
    assert_eq!(
        token_expiry(Timestamp { secs: -8_334_601_228_800, nanos: 0 }),
        Ok(-8_334_601_225_200i64 as usize)
    );
    assert_eq!(
        token_expiry(Timestamp { secs: -8_334_601_228_801, nanos: 0 }),
        Err(TokenError::Expiry)
    );
}

#[test]
fn fresh_token_verifies_now() {
    let (t, issued) = create_jwt("abc", "Student", "s@x.y", "secret");
    let t = t.ok().unwrap();
    let c = decode(&t, "secret", true);
    let exp = c["exp"].as_i64().unwrap();
    assert_eq!(exp, issued.secs + 3600);
    let now = chrono::Utc::now().timestamp();
    assert!(issued.secs <= now && now <= issued.secs + 60);
    assert_eq!(c["sub"], "abc");
}

#[test]
fn token_at_an_instant_expires_an_hour_later() {
    let t = create_jwt_at("u", "Admin", "a@b.c", "k", Timestamp { secs: 1_700_000_000, nanos: 3 })
        .ok()
        .unwrap();
    assert_eq!(t, create_jwt_expiring("u", "Admin", "a@b.c", "k", 1_700_003_600).ok().unwrap());
    assert_eq!(
        create_jwt_at("u", "Admin", "a@b.c", "k", Timestamp { secs: i64::MAX - 10, nanos: 0 }).err(),
        Some(TokenError::Expiry)
    );
}

fn base64url_decode(s: &str) -> Vec<u8> {
    let alphabet = "ABCDEFGHIJKLMNOPQRSTUVWXYZabcdefghijklmnopqrstuvwxyz0123456789-_";
    let mut bits: u32 = 0;
    let mut nbits = 0;
    let mut out = Vec::new();
    for ch in s.chars() {
        let v = alphabet.find(ch).unwrap() as u32;
        bits = (bits << 6) | v;
        nbits += 6;
        if nbits >= 8 {
            nbits -= 8;
            out.push((bits >> nbits) as u8);
            bits &= (1 << nbits) - 1;
        }
    }
    out
}

#[test]
fn token_payload_lists_claims_in_field_order() {
    let t = create_jwt_expiring("id-1", "Teacher", "t@school.vn", "k", 1234).ok().unwrap();
    let payload = t.split('.').nth(1).unwrap();
    let json = String::from_utf8(base64url_decode(payload)).unwrap();
    assert_eq!(json, r#"{"sub":"id-1","exp":1234,"role":"Teacher","email":"t@school.vn"}"#);
    let header = String::from_utf8(base64url_decode(t.split('.').next().unwrap())).unwrap();
    assert!(header.contains("HS256"));
}

#[test]
fn hashed_password_has_bcrypt_form() {
    let h = hash_password("pw").unwrap();
    assert_eq!(h.len(), 60);
    assert!(h.starts_with("$2b$12$"));
}
