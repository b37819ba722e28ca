use bookkar::bot::{buy_message, dev_token_message, generation_error_message, start_message, status_error_message, status_message};
use bookkar::license::TokenRecord;

fn token(id: &str, max: i32, used: i32, expires: &str) -> TokenRecord {
    TokenRecord {
        id: id.to_string(),
        telegram_id: 42,
        max_bookings: max,
        used_bookings: used,
        expires_at: expires.to_string(),
        status: "ACTIVE".to_string(),
    }
}

#[test]
fn no_active_tokens() {
    assert_eq!(status_message(&vec![]), "You don't have any active tokens. Use /buy to get one!");
}

#[test]
fn active_tokens_are_listed() {
    let ts = vec![
        token("0f9c2d1e-5b1a-4c3e-9d2f-1a2b3c4d5e6f", 1, 0, "2025-12-26T10:00:00+00:00"),
        token("a1b2c3d4-0000-0000-0000-000000000000", 2, 3, "2025-12-27T10:00:00+00:00"),
    ];
    assert_eq!(
        status_message(&ts),
        "🎫 *Your Active Tokens:*\n\n\
         Token: `0f9c2d1e...`\nBookings remaining: 1\nExpires: 2025-12-26T10:00:00+00:00\n\n\
         Token: `a1b2c3d4...`\nBookings remaining: -1\nExpires: 2025-12-27T10:00:00+00:00\n\n"
    );
}

#[test]
fn ids_are_cut_at_eight_bytes() {
    let ts = vec![token("éééé-tail", 1, 0, "later")];
    assert_eq!(
        status_message(&ts),
        "🎫 *Your Active Tokens:*\n\nToken: `éééé...`\nBookings remaining: 1\nExpires: later\n\n"
    );
}

#[test]
fn payment_and_token_texts() {
    assert_eq!(
        buy_message("tatkal@upi"),
        "💳 *Payment Instructions*\n\nSend ₹25 to:\nUPI ID: `tatkal@upi`\n\nAfter payment, send me the UTR/transaction reference number and I'll generate your token\\.\n\n_For testing: use /devtoken to get a free token\\._"
    );
    assert_eq!(
        dev_token_message("tk_abc"),
        "🎫 *Test Token Generated\\!*\n\n```\ntk_abc\n```\n\nCopy this token and paste it into the Tatkal client app\\.\nValid for 24 hours, 1 booking\\."
    );
    assert!(start_message().starts_with("🚂 *Welcome to BookKar\\!*"));
    assert!(start_message().ends_with("Use `/help` to see all commands\\."));
    assert_eq!(status_error_message("db down"), "Error checking tokens: db down");
    assert_eq!(generation_error_message("db down"), "Error generating token: db down");
}
