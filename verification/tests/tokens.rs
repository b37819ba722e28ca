use bookkar::jwt::{
    claims_from_payload, current_claims, issue_token, local_claims, read_token_claims, token_id_if_current,
    verified_token_id,
};
use bookkar::license::{token_body, TokenClaims};

fn claims(exp: u64) -> TokenClaims {
    TokenClaims { sub: "42".to_string(), token_id: 7, max_bookings: 1, exp, iat: 1 }
}

fn signed(members: &[(&str, serde_json::Value)], secret: &str) -> String {
    let mut m = serde_json::Map::new();
    for (k, v) in members {
        m.insert(k.to_string(), v.clone());
    }
    jsonwebtoken::encode(&jsonwebtoken::Header::default(), &m, &jsonwebtoken::EncodingKey::from_secret(secret.as_bytes()))
        .unwrap()
}

fn now() -> u64 {
    std::time::SystemTime::now().duration_since(std::time::UNIX_EPOCH).unwrap().as_secs()
}

#[test]
fn issued_tokens_check_out_with_their_secret() {
    let (token, issued) = issue_token(123456789, "s3cret").unwrap();
    assert!(token.starts_with("tk_"));
    assert_eq!(issued.claims.sub, "123456789");
    assert_eq!(issued.claims.max_bookings, 1);
    assert_eq!(issued.claims.exp, issued.claims.iat + 86_400);
    assert_eq!(verified_token_id(&token, "s3cret"), Ok(issued.claims.token_id));
    assert_eq!(read_token_claims(token_body(&token), "s3cret", true), Ok(issued.claims.clone()));
    assert_eq!(local_claims(token_body(&token)), Ok(issued.claims.clone()));
    assert_eq!(verified_token_id(&token, "other"), Err("Invalid token: InvalidSignature".to_string()));
    // The client reads the claims without the secret.
    assert_eq!(read_token_claims(token_body(&token), "", false), Ok(issued.claims));
}

#[test]
fn tokens_are_refused_a_minute_after_expiry() {
    let id = "0f9c2d1e-5b1a-4c3e-9d2f-1a2b3c4d5e6f";
    let t = now();
    let members = |exp: u64| {
        vec![
            ("sub", serde_json::Value::from("42")),
            ("token_id", serde_json::Value::from(id)),
            ("max_bookings", serde_json::Value::from(1u8)),
            ("exp", serde_json::Value::from(exp)),
            ("iat", serde_json::Value::from(exp - 86_400)),
        ]
    };
    let stale = signed(&members(t - 120), "k");
    assert_eq!(verified_token_id(&stale, "k"), Err("Invalid token: ExpiredSignature".to_string()));
    assert_eq!(local_claims(&stale), Err("ExpiredSignature".to_string()));
    let within_leeway = signed(&members(t - 5), "k");
    assert_eq!(verified_token_id(&within_leeway, "k"), Ok(0x0f9c2d1e_5b1a_4c3e_9d2f_1a2b3c4d5e6f));
}

#[test]
fn expiry_step_on_given_times() {
    assert_eq!(current_claims(Ok(claims(100)), 160), Ok(claims(100)));
    assert_eq!(current_claims(Ok(claims(100)), 161), Err("ExpiredSignature".to_string()));
    assert_eq!(current_claims(Err("InvalidToken".to_string()), 0), Err("InvalidToken".to_string()));
    assert_eq!(token_id_if_current(Ok(claims(100)), 100), Ok(7));
    assert_eq!(token_id_if_current(Ok(claims(100)), 1000), Err("Invalid token: ExpiredSignature".to_string()));
    assert_eq!(token_id_if_current(Err("InvalidSignature".to_string()), 0), Err("Invalid token: InvalidSignature".to_string()));
}

#[test]
fn malformed_tokens_and_claims() {
    assert_eq!(verified_token_id("tk_not.a.token", "k").unwrap_err().starts_with("Invalid token: "), true);
    assert!(local_claims("garbage").is_err());
    let ok = r#"{"exp":10,"iat":5,"max_bookings":1,"sub":"42","token_id":"00000000-0000-0000-0000-000000000009"}"#;
    assert_eq!(
        claims_from_payload(ok),
        Ok(TokenClaims { sub: "42".to_string(), token_id: 9, max_bookings: 1, exp: 10, iat: 5 })
    );
    assert_eq!(
        claims_from_payload(r#"{"exp":10,"iat":5,"max_bookings":1,"token_id":"x"}"#),
        Err("JSON error: missing or invalid field `sub`".to_string())
    );
    assert_eq!(
        claims_from_payload(r#"{"exp":10,"iat":5,"max_bookings":1,"sub":"42","token_id":"x"}"#),
        Err("JSON error: missing or invalid field `token_id`".to_string())
    );
    assert_eq!(
        claims_from_payload(r#"{"exp":10,"iat":5,"max_bookings":256,"sub":"42","token_id":"00000000-0000-0000-0000-000000000009"}"#),
        Err("JSON error: missing or invalid field `max_bookings`".to_string())
    );
    assert_eq!(
        claims_from_payload(r#"{"exp":-1,"iat":5,"max_bookings":1,"sub":"42","token_id":"00000000-0000-0000-0000-000000000009"}"#),
        Err("JSON error: missing or invalid field `exp`".to_string())
    );
    let unsigned_check = signed(
        &[
            ("sub", serde_json::Value::from("7")),
            ("token_id", serde_json::Value::from("00000000-0000-0000-0000-000000000001")),
            ("max_bookings", serde_json::Value::from(1u8)),
            ("exp", serde_json::Value::from(now() + 3600)),
            ("iat", serde_json::Value::from(now())),
        ],
        "server-only",
    );
    assert_eq!(local_claims(&unsigned_check).unwrap().token_id, 1);
}
