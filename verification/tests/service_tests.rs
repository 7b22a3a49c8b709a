use rustbasic_jwt::claims::Claims;
use rustbasic_jwt::config::JwtAlgorithm;
use rustbasic_jwt::service::JwtService;
use rustbasic_jwt::token::TokenError;

fn service(secret: &str) -> JwtService {
    JwtService::new(Some(secret.to_string()))
}

fn claims_of(token: &str, secret: &str, alg: jsonwebtoken::Algorithm) -> serde_json::Value {
    let key = jsonwebtoken::DecodingKey::from_secret(secret.as_bytes());
    jsonwebtoken::decode::<serde_json::Value>(token, &key, &jsonwebtoken::Validation::new(alg))
        .unwrap()
        .claims
}

#[test]
fn new_service_uses_setting_or_default_secret() {
    assert_eq!(JwtService::new(None).secret(), "secret_rustbasic_key_1234567890");
    assert_eq!(service("s3cr3t").secret(), "s3cr3t");
    assert!(service("s").db().is_none());
}

#[test]
fn with_db_keeps_the_secret() {
    let s = service("k").with_db(sea_orm::DatabaseConnection::Disconnected);
    assert_eq!(s.secret(), "k");
    assert!(s.db().is_some());
}

#[test]
fn generated_token_is_a_jwt_over_the_claims() {
    let s = service("topsecret");
    let token = s
        .generate_token("42".to_string(), "{\"email\":\"a@b.c\"}".to_string(), None, None)
        .ok()
        .unwrap();
    assert_eq!(token.split('.').count(), 3);
    let header = jsonwebtoken::decode_header(&token).unwrap();
    assert_eq!(header.alg, jsonwebtoken::Algorithm::HS256);
    assert_eq!(header.typ.as_deref(), Some("JWT"));
    let c = claims_of(&token, "topsecret", jsonwebtoken::Algorithm::HS256);
    assert_eq!(c["iss"], "rustbasic");
    assert_eq!(c["sub"], "42");
    assert_eq!(c["user_data"]["email"], "a@b.c");
    assert_eq!(c["exp"].as_i64().unwrap() - c["iat"].as_i64().unwrap(), 3600);
    assert_eq!(c["nbf"], c["iat"]);
}

#[test]
fn generated_token_follows_the_settings() {
    let s = service("k2");
    let token = s
        .generate_token("7".to_string(), "null".to_string(), Some("5"), Some("HS512"))
        .ok()
        .unwrap();
    assert_eq!(jsonwebtoken::decode_header(&token).unwrap().alg, jsonwebtoken::Algorithm::HS512);
    let c = claims_of(&token, "k2", jsonwebtoken::Algorithm::HS512);
    assert_eq!(c["exp"].as_i64().unwrap() - c["iat"].as_i64().unwrap(), 300);
    let token = s
        .generate_token("7".to_string(), "null".to_string(), Some("x"), Some("HS384"))
        .ok()
        .unwrap();
    assert_eq!(jsonwebtoken::decode_header(&token).unwrap().alg, jsonwebtoken::Algorithm::HS384);
    let c = claims_of(&token, "k2", jsonwebtoken::Algorithm::HS384);
    assert_eq!(c["exp"].as_i64().unwrap() - c["iat"].as_i64().unwrap(), 3600);
}

#[test]
fn sign_claims_signs_the_claims_text_as_it_stands() {
    let s = service("same");
    let c = Claims::issue("9".to_string(), "{\"a\":1}".to_string(), 10, 1_700_000_000, "jti-1".to_string());
    let token = s.sign_claims(&c, JwtAlgorithm::HS256).ok().unwrap();
    let parts: Vec<&str> = token.split('.').collect();
    assert_eq!(parts.len(), 3);
    assert_eq!(parts[0], "eyJ0eXAiOiJKV1QiLCJhbGciOiJIUzI1NiJ9");
    let message = format!("{}.{}", parts[0], parts[1]);
    let signature = jsonwebtoken::crypto::sign(
        message.as_bytes(),
        &jsonwebtoken::EncodingKey::from_secret(b"same"),
        jsonwebtoken::Algorithm::HS256,
    )
    .unwrap();
    assert_eq!(parts[2], signature);
    let mut validation = jsonwebtoken::Validation::new(jsonwebtoken::Algorithm::HS256);
    validation.validate_exp = false;
    let raw = jsonwebtoken::decode::<Box<serde_json::value::RawValue>>(
        &token,
        &jsonwebtoken::DecodingKey::from_secret(b"same"),
        &validation,
    )
    .unwrap();
    assert_eq!(raw.claims.get(), c.to_json());
}

#[test]
fn sign_claims_refuses_claims_that_are_not_json() {
    let s = service("k");
    let c = Claims::issue("9".to_string(), "{not json".to_string(), 10, 1_700_000_000, "j".to_string());
    match s.sign_claims(&c, JwtAlgorithm::HS256) {
        Err(TokenError::Jwt(e)) => assert!(e.to_string().starts_with("JSON error")),
        _ => panic!("expected a JSON error"),
    }
}

#[test]
fn generate_token_refuses_an_out_of_range_lifetime() {
    let s = service("k");
    match s.generate_token("1".to_string(), "{}".to_string(), Some("9223372036854775807"), None) {
        Err(e) => {
            assert!(matches!(e, TokenError::LifetimeOutOfRange));
            assert_eq!(e.message(), "Token lifetime out of range");
        }
        Ok(_) => panic!("expected an error"),
    }
}

#[test]
fn decode_gives_back_the_signed_claims_text() {
    let s = service("roundtrip");
    let c = Claims::new("5".to_string(), "{\"name\":\"Ann\"}".to_string(), 30).unwrap();
    let token = s.sign_claims(&c, JwtAlgorithm::HS384).ok().unwrap();
    assert_eq!(s.decode_token(&token, Some("HS384")), Ok(c.to_json()));
}

#[test]
fn decode_refuses_other_secrets_algorithms_and_garbage() {
    let s = service("one");
    let token = s.generate_token("5".to_string(), "{}".to_string(), None, None).ok().unwrap();
    assert_eq!(service("two").decode_token(&token, None), Err("InvalidSignature".to_string()));
    assert_eq!(s.decode_token(&token, Some("HS512")), Err("InvalidAlgorithm".to_string()));
    assert_eq!(s.decode_token("abc", None), Err("InvalidToken".to_string()));
}

#[test]
fn decode_refuses_expired_tokens() {
    let s = service("old");
    let token = s.generate_token("5".to_string(), "{}".to_string(), Some("-5"), None).ok().unwrap();
    assert_eq!(s.decode_token(&token, None), Err("ExpiredSignature".to_string()));
}

#[test]
fn blacklist_is_consulted_only_with_a_database() {
    let c = Claims::issue("1".to_string(), "{}".to_string(), 1, 10, "abc".to_string());
    assert_eq!(service("k").blacklist_query(&c), None);
    let s = service("k").with_db(sea_orm::DatabaseConnection::Disconnected);
    assert_eq!(s.blacklist_query(&c), Some("abc".to_string()));
}

#[test]
fn blacklist_verdicts() {
    let c = Claims::issue("1".to_string(), "{}".to_string(), 1, 10, "abc".to_string());
    match JwtService::blacklist_verdict(c, Ok(true)) {
        Err(m) => assert_eq!(m, "Token is blacklisted"),
        Ok(_) => panic!("blacklisted token accepted"),
    }
    let c = Claims::issue("1".to_string(), "{}".to_string(), 1, 10, "abc".to_string());
    assert_eq!(JwtService::blacklist_verdict(c, Ok(false)).ok().unwrap().jti, "abc");
    let c = Claims::issue("1".to_string(), "{}".to_string(), 1, 10, "abc".to_string());
    assert_eq!(
        JwtService::blacklist_verdict(c, Err("db down".to_string())).err().unwrap(),
        "db down"
    );
}

#[test]
fn invalidation_needs_a_database() {
    let c = Claims::issue("1".to_string(), "{}".to_string(), 1, 10, "xyz".to_string());
    match service("k").blacklist_entry(&c) {
        Err(m) => assert_eq!(m, "Database connection required for invalidation"),
        Ok(_) => panic!("expected a refusal"),
    }
    let s = service("k").with_db(sea_orm::DatabaseConnection::Disconnected);
    let e = s.blacklist_entry(&c).ok().unwrap();
    assert_eq!(e.jti, "xyz");
    assert_eq!(e.exp, 70);
}

#[test]
fn refresh_keeps_subject_and_data_with_a_new_id() {
    let s = service("fresh");
    let old = Claims::new("77".to_string(), "{\"role\":\"admin\"}".to_string(), 10).unwrap();
    let token = s.refresh_token(&old, Ok(()), Some("20"), None).unwrap();
    let c = claims_of(&token, "fresh", jsonwebtoken::Algorithm::HS256);
    assert_eq!(c["sub"], "77");
    assert_eq!(c["user_data"]["role"], "admin");
    assert_ne!(c["jti"], old.jti.as_str());
    assert_eq!(c["exp"].as_i64().unwrap() - c["iat"].as_i64().unwrap(), 1200);
}

#[test]
fn refresh_reports_errors_as_text() {
    let s = service("fresh");
    let old = Claims::issue("77".to_string(), "{}".to_string(), 10, 0, "j".to_string());
    assert_eq!(
        s.refresh_token(&old, Ok(()), Some("-9223372036854775808"), None),
        Err("Token lifetime out of range".to_string())
    );
}

#[test]
fn issue_token_signs_the_issued_claims() {
    let s = service("det");
    let t = s
        .issue_token("3".to_string(), "[1,2]".to_string(), 30, JwtAlgorithm::HS256, 1_000, "id-3".to_string())
        .ok()
        .unwrap();
    let c = Claims::issue("3".to_string(), "[1,2]".to_string(), 30, 1_000, "id-3".to_string());
    assert_eq!(Some(t), s.sign_claims(&c, JwtAlgorithm::HS256).ok());
    let again = s
        .issue_token("3".to_string(), "[1,2]".to_string(), 30, JwtAlgorithm::HS256, 1_000, "id-3".to_string())
        .ok()
        .unwrap();
    let c2 = Claims::issue("3".to_string(), "[1,2]".to_string(), 30, 1_000, "id-3".to_string());
    assert_eq!(Some(again), s.sign_claims(&c2, JwtAlgorithm::HS256).ok());
}

#[test]
fn issue_token_refuses_an_expiry_past_the_last_date() {
    let s = service("det");
    let max = rustbasic_jwt::claims::MAX_TIMESTAMP;
    assert!(matches!(
        s.issue_token("3".to_string(), "{}".to_string(), 1, JwtAlgorithm::HS256, max, "j".to_string()),
        Err(TokenError::LifetimeOutOfRange)
    ));
    assert!(s
        .issue_token("3".to_string(), "{}".to_string(), 0, JwtAlgorithm::HS256, max, "j".to_string())
        .is_ok());
    assert!(s
        .issue_token("3".to_string(), "{}".to_string(), -1, JwtAlgorithm::HS256, max, "j".to_string())
        .is_ok());
}

#[test]
fn generated_token_decodes_to_its_claims() {
    let s = service("loop");
    let token = s
        .generate_token("11".to_string(), "{\"k\":\"v\"}".to_string(), Some("10"), Some("HS512"))
        .ok()
        .unwrap();
    let json = s.decode_token(&token, Some("HS512")).unwrap();
    let v: serde_json::Value = serde_json::from_str(&json).unwrap();
    let c = Claims::issue(
        "11".to_string(),
        "{\"k\":\"v\"}".to_string(),
        10,
        v["iat"].as_i64().unwrap(),
        v["jti"].as_str().unwrap().to_string(),
    );
    assert_eq!(json, c.to_json());
}

#[test]
fn decoding_result_keeps_claims_and_reports_errors_as_text() {
    assert_eq!(JwtService::decoding_result(Ok("{\"a\":1}".to_string())), Ok("{\"a\":1}".to_string()));
    let e = jsonwebtoken::errors::Error::from(jsonwebtoken::errors::ErrorKind::ExpiredSignature);
    assert_eq!(JwtService::decoding_result(Err(e)), Err("ExpiredSignature".to_string()));
}

#[test]
fn refresh_needs_the_old_token_invalidated() {
    let s = service("fresh");
    let old = Claims::new("77".to_string(), "{}".to_string(), 10).unwrap();
    let invalidated = s.blacklist_entry(&old).map(|_| ());
    assert_eq!(
        s.refresh_token(&old, invalidated, None, None),
        Err("Database connection required for invalidation".to_string())
    );
    assert_eq!(
        s.refresh_token(&old, Err("Token is blacklisted".to_string()), None, None),
        Err("Token is blacklisted".to_string())
    );
}

#[test]
fn verify_token_reads_the_claims_of_a_signed_token_even_when_expired() {
    let s = service("sig");
    let c = Claims::issue("4".to_string(), "{}".to_string(), 1, 1_000, "j4".to_string());
    let token = s.sign_claims(&c, JwtAlgorithm::HS256).ok().unwrap();
    assert_eq!(s.verify_token(&token, None), Ok(c.to_json()));
    assert_eq!(s.decode_token(&token, None), Err("ExpiredSignature".to_string()));
}

#[test]
fn verify_token_refuses_other_algorithms_secrets_and_garbage() {
    let s = service("sig");
    let token = s.generate_token("4".to_string(), "{}".to_string(), None, None).ok().unwrap();
    assert_eq!(s.verify_token(&token, Some("HS384")), Err("InvalidAlgorithm".to_string()));
    assert_eq!(service("other").verify_token(&token, None), Err("InvalidSignature".to_string()));
    assert_eq!(s.verify_token("a.b", None), Err("InvalidToken".to_string()));
}

#[test]
fn verify_token_reads_claims_that_do_not_fit_before_validation() {
    let s = service("sig");
    let value: serde_json::Value = serde_json::from_str("{\"exp\":1}").unwrap();
    let odd = jsonwebtoken::encode(
        &jsonwebtoken::Header::new(jsonwebtoken::Algorithm::HS256),
        &value,
        &jsonwebtoken::EncodingKey::from_secret(b"sig"),
    )
    .unwrap();
    assert_eq!(s.verify_token(&odd, None), Ok("{\"exp\":1}".to_string()));
    assert_eq!(s.decode_token(&odd, None), Err("ExpiredSignature".to_string()));
}

#[test]
fn issuing_refuses_custom_data_that_is_not_json() {
    let s = service("k");
    match s.issue_token("3".to_string(), "{not json".to_string(), 30, JwtAlgorithm::HS256, 1_000, "j".to_string()) {
        Err(e) => {
            assert!(matches!(e, TokenError::InvalidUserData));
            assert_eq!(e.message(), "Custom data is not JSON");
        }
        Ok(_) => panic!("expected an error"),
    }
    assert!(matches!(
        s.generate_token("1".to_string(), "".to_string(), None, None),
        Err(TokenError::InvalidUserData)
    ));
    // The lifetime is judged first.
    assert!(matches!(
        s.issue_token("3".to_string(), "nope".to_string(), 1, JwtAlgorithm::HS256, rustbasic_jwt::claims::MAX_TIMESTAMP, "j".to_string()),
        Err(TokenError::LifetimeOutOfRange)
    ));
    let old = Claims::issue("77".to_string(), "[1,".to_string(), 10, 0, "j".to_string());
    assert_eq!(
        s.refresh_token(&old, Ok(()), None, None),
        Err("Custom data is not JSON".to_string())
    );
}

#[test]
fn issued_token_passes_the_signature_check_with_its_claims() {
    let s = service("accept");
    let t = s
        .issue_token("8".to_string(), " {\"a\": [true, null]} ".to_string(), 5, JwtAlgorithm::HS384, 2_000, "id-8".to_string())
        .ok()
        .unwrap();
    let c = Claims::issue("8".to_string(), " {\"a\": [true, null]} ".to_string(), 5, 2_000, "id-8".to_string());
    let checker = service("accept");
    assert_eq!(checker.verify_token(&t, Some("HS384")), Ok(c.to_json()));
    assert_eq!(
        c.to_json(),
        "{\"iss\":\"rustbasic\",\"sub\":\"8\",\"iat\":2000,\"exp\":2300,\"nbf\":2000,\"jti\":\"id-8\",\"user_data\": {\"a\": [true, null]} }"
    );
    // Issued long ago, so a full decoding refuses it as expired.
    assert!(checker.decode_token(&t, Some("HS384")).is_err());
}

#[test]
fn generated_token_is_accepted_by_a_service_with_the_same_secret() {
    let s = service("same");
    let t = s
        .generate_token("12".to_string(), "{\"x\":1}".to_string(), Some("30"), Some("HS512"))
        .ok()
        .unwrap();
    let other = service("same");
    let decoded = other.decode_token(&t, Some("HS512")).unwrap();
    assert_eq!(other.verify_token(&t, Some("HS512")), Ok(decoded.clone()));
    let v: serde_json::Value = serde_json::from_str(&decoded).unwrap();
    assert_eq!(v["sub"], "12");
    assert_eq!(v["user_data"]["x"], 1);
}
