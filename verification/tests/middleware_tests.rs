use rustbasic_jwt::claims::Claims;
use rustbasic_jwt::middleware::{
    auth_outcome, authorization_token, bearer_token, invalid_token_message, AuthOutcome,
};

#[test]
fn bearer_token_takes_the_text_after_the_prefix() {
    assert_eq!(bearer_token(Some("Bearer abc.def.ghi")), Some("abc.def.ghi"));
    assert_eq!(bearer_token(Some("Bearer ")), Some(""));
    assert_eq!(bearer_token(Some("Bearer  x")), Some(" x"));
    assert_eq!(bearer_token(Some("Bearer ключ")), Some("ключ"));
}

#[test]
fn bearer_token_refuses_other_headers() {
    assert_eq!(bearer_token(None), None);
    assert_eq!(bearer_token(Some("bearer abc")), None);
    assert_eq!(bearer_token(Some("Bearer")), None);
    assert_eq!(bearer_token(Some("Basic abc")), None);
    assert_eq!(bearer_token(Some("")), None);
}

#[test]
fn missing_token_is_refused() {
    assert_eq!(authorization_token(None), Err("Token not provided".to_string()));
    assert_eq!(authorization_token(Some("Token x")), Err("Token not provided".to_string()));
    assert_eq!(authorization_token(Some("Bearer x")), Ok("x"));
}

#[test]
fn invalid_token_message_prefixes_the_error() {
    assert_eq!(invalid_token_message("ExpiredSignature"), "Invalid token: ExpiredSignature");
    assert_eq!(invalid_token_message(""), "Invalid token: ");
}

#[test]
fn auth_outcome_follows_validation() {
    let c = Claims::issue("1".to_string(), "{}".to_string(), 1, 10, "j".to_string());
    match auth_outcome(Ok(c)) {
        AuthOutcome::Proceed(c) => assert_eq!(c.sub, "1"),
        AuthOutcome::Reject(_) => panic!("valid claims refused"),
    }
    match auth_outcome(Err("Token is blacklisted".to_string())) {
        AuthOutcome::Reject(m) => assert_eq!(m, "Invalid token: Token is blacklisted"),
        AuthOutcome::Proceed(_) => panic!("invalid token accepted"),
    }
}
