use bookkar::license::{
    claims_for, endpoint_url, fresh_claims, invalid_token_error, licence_step, needs_server_check, prefixed_token,
    rejected_response, token_body, token_response_for_record, ServerReply, TokenClaims, TokenRecord, TokenResponse,
};

fn record(max: i32, used: i32, status: &str) -> TokenRecord {
    TokenRecord {
        id: "0f9c2d1e-5b1a-4c3e-9d2f-1a2b3c4d5e6f".to_string(),
        telegram_id: 42,
        max_bookings: max,
        used_bookings: used,
        expires_at: "2025-12-26T10:00:00+00:00".to_string(),
        status: status.to_string(),
    }
}

#[test]
fn token_prefix_round_trip() {
    assert_eq!(prefixed_token("eyJ.abc.def"), "tk_eyJ.abc.def");
    assert_eq!(token_body("tk_eyJ.abc.def"), "eyJ.abc.def");
    assert_eq!(token_body(&prefixed_token("tk_x")), "tk_x");
    assert_eq!(token_body("eyJ.abc.def"), "eyJ.abc.def");
    assert_eq!(token_body("tk"), "tk");
}

#[test]
fn claims_of_a_new_token() {
    let c = claims_for(123456789, 7, 1_700_000_000);
    assert_eq!(c.sub, "123456789");
    assert_eq!(c.token_id, 7);
    assert_eq!(c.max_bookings, 1);
    assert_eq!(c.iat, 1_700_000_000);
    assert_eq!(c.exp, 1_700_086_400);
    assert_eq!(claims_for(-5, 1, 0).sub, "-5");
}

#[test]
fn fresh_claims_last_a_day() {
    let before = std::time::SystemTime::now().duration_since(std::time::UNIX_EPOCH).unwrap().as_secs();
    let issued = fresh_claims(99);
    let c = issued.claims;
    let after = std::time::SystemTime::now().duration_since(std::time::UNIX_EPOCH).unwrap().as_secs();
    assert_eq!(c.sub, "99");
    assert_eq!(c.max_bookings, 1);
    assert_eq!(c.exp - c.iat, 86_400);
    assert!(before <= c.iat && c.iat <= after);
    assert!(issued.subsec_nanos < 1_000_000_000);
}

#[test]
fn random_ids_are_version_four() {
    let a = fresh_claims(1).claims.token_id;
    let b = fresh_claims(1).claims.token_id;
    assert_ne!(a, b);
    assert_eq!((a >> 76) & 0xf, 4);
}

#[test]
fn validation_answers() {
    let none = token_response_for_record(None);
    assert_eq!(none, TokenResponse { valid: false, bookings_remaining: 0, error: Some("Token not found".to_string()) });
    let used = token_response_for_record(Some(&record(1, 1, "CONSUMED")));
    assert_eq!(
        used,
        TokenResponse { valid: false, bookings_remaining: 0, error: Some("Token has already been used".to_string()) }
    );
    let fresh = token_response_for_record(Some(&record(1, 0, "ACTIVE")));
    assert_eq!(fresh, TokenResponse { valid: true, bookings_remaining: 1, error: None });
    let spent = token_response_for_record(Some(&record(1, 1, "ACTIVE")));
    assert_eq!(spent, TokenResponse { valid: false, bookings_remaining: 0, error: None });
    let over = token_response_for_record(Some(&record(1, 3, "ACTIVE")));
    assert_eq!(over.bookings_remaining, 0);
    // The count is reduced to a byte, as the server's cast does.
    let many = token_response_for_record(Some(&record(300, 0, "ACTIVE")));
    assert_eq!(many, TokenResponse { valid: true, bookings_remaining: 44, error: None });
    let wrapped = token_response_for_record(Some(&record(256, 0, "ACTIVE")));
    assert!(!wrapped.valid);
    assert_eq!(token_response_for_record(Some(&record(5, 0, "active"))).valid, false);
}

#[test]
fn a_token_is_good_for_one_booking() {
    let mut r = record(1, 0, "ACTIVE");
    assert!(token_response_for_record(Some(&r)).valid);
    r.record_consumption();
    assert_eq!(r.used_bookings, 1);
    assert_eq!(r.status, "CONSUMED");
    let after = token_response_for_record(Some(&r));
    assert!(!after.valid);
    assert_eq!(after.error, Some("Token has already been used".to_string()));
    r.record_consumption();
    assert_eq!(r.used_bookings, 1);
}

#[test]
fn consumption_uses_one_booking() {
    let mut r = record(3, 0, "ACTIVE");
    r.record_consumption();
    assert_eq!(r.status, "ACTIVE");
    assert_eq!(token_response_for_record(Some(&r)).bookings_remaining, 2);
    r.record_consumption();
    assert_eq!(token_response_for_record(Some(&r)).bookings_remaining, 1);
    r.record_consumption();
    assert_eq!(r.status, "CONSUMED");
    assert_eq!(token_response_for_record(Some(&r)).bookings_remaining, 0);
}

#[test]
fn rejected_and_invalid_messages() {
    let r = rejected_response("Invalid token: ExpiredSignature".to_string());
    assert!(!r.valid);
    assert_eq!(r.bookings_remaining, 0);
    assert_eq!(r.error.as_deref(), Some("Invalid token: ExpiredSignature"));
    assert_eq!(invalid_token_error("InvalidSignature"), "Invalid token: InvalidSignature");
}

#[test]
fn client_steps_after_the_server_reply() {
    let read = TokenClaims { sub: "42".to_string(), token_id: 9, max_bookings: 1, exp: 10, iat: 5 };
    let ok = ServerReply::Answer(TokenResponse { valid: true, bookings_remaining: 1, error: None });
    assert_eq!(licence_step(Ok(read.clone()), &ok), Ok(read.clone()));
    let used = ServerReply::Answer(TokenResponse {
        valid: false,
        bookings_remaining: 0,
        error: Some("Token has already been used".to_string()),
    });
    assert_eq!(
        licence_step(Ok(read.clone()), &used),
        Err("❌ Token rejected: Token has already been used".to_string())
    );
    let bare = ServerReply::Answer(TokenResponse { valid: false, bookings_remaining: 0, error: None });
    assert_eq!(licence_step(Ok(read.clone()), &bare), Err("❌ Token rejected: Token invalid or expired".to_string()));
    let refused = ServerReply::Refused("400 Bad Request".to_string());
    assert_eq!(
        licence_step(Ok(read.clone()), &refused),
        Err("License server returned status: 400 Bad Request".to_string())
    );
    assert_eq!(licence_step(Ok(read.clone()), &ServerReply::Unreachable), Ok(read.clone()));
    assert_eq!(licence_step(Ok(read.clone()), &ServerReply::NotAsked), Ok(read));
}

#[test]
fn a_token_failing_the_local_check_is_refused_whatever_the_server_says() {
    let expired: Result<TokenClaims, String> = Err("ExpiredSignature".to_string());
    assert!(!needs_server_check(&expired));
    let valid = ServerReply::Answer(TokenResponse { valid: true, bookings_remaining: 1, error: None });
    for reply in [valid, ServerReply::Unreachable, ServerReply::NotAsked, ServerReply::Refused("500".to_string())] {
        assert_eq!(
            licence_step(expired.clone(), &reply),
            Err("Token validation failed: ExpiredSignature".to_string())
        );
    }
    let read = TokenClaims { sub: "42".to_string(), token_id: 9, max_bookings: 1, exp: 10, iat: 5 };
    assert!(needs_server_check(&Ok(read)));
}

#[test]
fn endpoints() {
    assert_eq!(endpoint_url("http://localhost:8080", "/api/validate"), "http://localhost:8080/api/validate");
}
