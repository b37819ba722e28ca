//! The texts the licence bot replies with.
use vstd::prelude::*;
use crate::license::TokenRecord;
use crate::text::{append_signed_decimal, byte_prefix, has_prefix, lemma_utf8_len_prefix_grows, signed_decimal, utf8_len};

verus! {

/// The welcome text, in Telegram's MarkdownV2.
pub fn start_message() -> (r: &'static str)
    ensures
        r@ == "🚂 *Welcome to BookKar\\!*\n\nI help you get a license token for the Tatkal booking automation tool\\.\n\n*How it works:*\n1\\. Pay ₹25 using `/buy`\n2\\. Get a license token\n3\\. Enter the token in the Tatkal client app\n4\\. App books your Tatkal ticket automatically\\!\n\nUse `/help` to see all commands\\."@,
{
    "🚂 *Welcome to BookKar\\!*\n\nI help you get a license token for the Tatkal booking automation tool\\.\n\n*How it works:*\n1\\. Pay ₹25 using `/buy`\n2\\. Get a license token\n3\\. Enter the token in the Tatkal client app\n4\\. App books your Tatkal ticket automatically\\!\n\nUse `/help` to see all commands\\."
}

/// The payment instructions, naming the UPI id to pay to.
pub fn buy_message(upi_id: &str) -> (r: String)
    ensures
        r@ == "💳 *Payment Instructions*\n\nSend ₹25 to:\nUPI ID: `"@ + upi_id@
            + "`\n\nAfter payment, send me the UTR/transaction reference number and I'll generate your token\\.\n\n_For testing: use /devtoken to get a free token\\._"@,
{
    let mut s = String::from_str("💳 *Payment Instructions*\n\nSend ₹25 to:\nUPI ID: `");
    s.append(upi_id);
    s.append(
        "`\n\nAfter payment, send me the UTR/transaction reference number and I'll generate your token\\.\n\n_For testing: use /devtoken to get a free token\\._",
    );
    s
}

/// The reply carrying a newly generated test token.
pub fn dev_token_message(token: &str) -> (r: String)
    ensures
        r@ == "🎫 *Test Token Generated\\!*\n\n```\n"@ + token@
            + "\n```\n\nCopy this token and paste it into the Tatkal client app\\.\nValid for 24 hours, 1 booking\\."@,
{
    let mut s = String::from_str("🎫 *Test Token Generated\\!*\n\n```\n");
    s.append(token);
    s.append("\n```\n\nCopy this token and paste it into the Tatkal client app\\.\nValid for 24 hours, 1 booking\\.");
    s
}

/// The reply when looking up a user's tokens failed.
pub fn status_error_message(detail: &str) -> (r: String)
    ensures
        r@ == "Error checking tokens: "@ + detail@,
{
    let mut s = String::from_str("Error checking tokens: ");
    s.append(detail);
    s
}

/// The reply when generating a token failed.
pub fn generation_error_message(detail: &str) -> (r: String)
    ensures
        r@ == "Error generating token: "@ + detail@,
{
    let mut s = String::from_str("Error generating token: ");
    s.append(detail);
    s
}

/// Whether a token's id begins with characters that take exactly eight
/// bytes (so that its first eight bytes can be shown).
pub open spec fn has_short_id(t: TokenRecord) -> bool {
    exists|k: int| 0 <= k <= t.id@.len() && #[trigger] utf8_len(t.id@.take(k)) == 8
}

/// The first eight bytes of a token's id, as characters.
pub open spec fn short_id(t: TokenRecord) -> Seq<char> {
    choose|p: Seq<char>| has_prefix(t.id@, p) && utf8_len(p) == 8
}

/// The lines describing one token: the start of its id, the bookings left
/// (unused bookings, which may be negative) and its expiry.
pub open spec fn token_lines(t: TokenRecord) -> Seq<char> {
    "Token: `"@ + short_id(t) + "...`\nBookings remaining: "@ + signed_decimal(t.max_bookings - t.used_bookings)
        + "\nExpires: "@ + t.expires_at@ + "\n\n"@
}

/// The lines describing each token in turn.
pub open spec fn all_token_lines(ts: Seq<TokenRecord>) -> Seq<char>
    decreases ts.len(),
{
    if ts.len() == 0 {
        Seq::empty()
    } else {
        all_token_lines(ts.drop_last()) + token_lines(ts.last())
    }
}

/// The reply listing a user's active tokens.
pub open spec fn status_text(ts: Seq<TokenRecord>) -> Seq<char> {
    if ts.len() == 0 {
        "You don't have any active tokens. Use /buy to get one!"@
    } else {
        "🎫 *Your Active Tokens:*\n\n"@ + all_token_lines(ts)
    }
}

/// Whether a token can be listed: its id has an eight-byte start and its
/// unused bookings are an `i32`.
pub open spec fn listable(t: TokenRecord) -> bool {
    has_short_id(t) && i32::MIN <= t.max_bookings - t.used_bookings <= i32::MAX
}

/// Two prefixes of a text that take the same number of bytes are equal.
pub proof fn lemma_byte_prefix_unique(s: Seq<char>, p: Seq<char>, q: Seq<char>)
    requires
        has_prefix(s, p),
        has_prefix(s, q),
        utf8_len(p) == utf8_len(q),
    ensures
        p == q,
{
    assert(p =~= s.take(p.len() as int));
    assert(q =~= s.take(q.len() as int));
    if p.len() < q.len() {
        lemma_utf8_len_prefix_grows(s, p.len() as int, q.len() as int);
    } else if q.len() < p.len() {
        lemma_utf8_len_prefix_grows(s, q.len() as int, p.len() as int);
    }
}

/// The reply to a user asking for the status of their active tokens.
pub fn status_message(tokens: &Vec<TokenRecord>) -> (r: String)
    requires
        forall|i: int| 0 <= i < tokens@.len() ==> #[trigger] listable(tokens@[i]),
    ensures
        r@ == status_text(tokens@),
{
    if tokens.len() == 0 {
        return String::from_str("You don't have any active tokens. Use /buy to get one!");
    }
    let mut s = String::from_str("🎫 *Your Active Tokens:*\n\n");
    let n = tokens.len();
    let mut i: usize = 0;
    while i < n
        invariant
            n == tokens@.len(),
            i <= n,
            forall|j: int| 0 <= j < tokens@.len() ==> #[trigger] listable(tokens@[j]),
            s@ == "🎫 *Your Active Tokens:*\n\n"@ + all_token_lines(tokens@.take(i as int)),
        decreases n - i,
    {
        let t = &tokens[i];
        assert(listable(tokens@[i as int]));
        let short = byte_prefix(t.id.as_str(), 8);
        proof {
            let p = choose|p: Seq<char>| has_prefix(t.id@, p) && utf8_len(p) == 8;
            assert(has_prefix(t.id@, short@) && utf8_len(short@) == 8);
            lemma_byte_prefix_unique(t.id@, p, short@);
        }
        let ghost before = s@;
        s.append("Token: `");
        s.append(short);
        s.append("...`\nBookings remaining: ");
        append_signed_decimal(&mut s, (t.max_bookings - t.used_bookings) as i64);
        s.append("\nExpires: ");
        s.append(t.expires_at.as_str());
        s.append("\n\n");
        assert(tokens@.take(i + 1).drop_last() =~= tokens@.take(i as int));
        assert(s@ =~= before + token_lines(tokens@[i as int]));
        i = i + 1;
    }
    assert(tokens@.take(n as int) =~= tokens@);
    s
}

} // verus!
