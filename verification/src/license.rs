//! Licence tokens: their claims, the server's stored record of each token,
//! and the rules by which a token is issued, validated and consumed.
use vstd::prelude::*;
use crate::text::{decimal, has_prefix, signed_decimal, str_equal, strip_prefix_or_self};

verus! {

/// The claims carried by a licence token.
#[derive(Clone, Debug, PartialEq)]
pub struct TokenClaims {
    /// Subject: the Telegram user id, in decimal
    pub sub: String,
    /// Unique token identifier (the 128 bits of a UUID)
    pub token_id: u128,
    /// Maximum number of bookings allowed
    pub max_bookings: u8,
    /// Expiry timestamp (Unix epoch seconds)
    pub exp: u64,
    /// Issued-at timestamp (Unix epoch seconds)
    pub iat: u64,
}

/// The licence server's answer to a validation request.
#[derive(Clone, Debug, PartialEq)]
pub struct TokenResponse {
    pub valid: bool,
    pub bookings_remaining: u8,
    pub error: Option<String>,
}

/// A token as the licence server stores it.
#[derive(Clone, Debug, PartialEq)]
pub struct TokenRecord {
    pub id: String,
    pub telegram_id: i64,
    pub max_bookings: i32,
    pub used_bookings: i32,
    pub expires_at: String,
    pub status: String,
}

/// The prefix that marks a licence token.
pub open spec fn token_prefix() -> Seq<char> {
    "tk_"@
}

/// How long a token stays valid after it is issued, in seconds (a day).
pub open spec fn token_lifetime_secs() -> int {
    86400
}

/// A licence token as handed to users: the prefix followed by the signed
/// token.
pub fn prefixed_token(jwt: &str) -> (r: String)
    ensures
        r@ == token_prefix() + jwt@,
{
    let mut s = String::from_str("tk_");
    s.append(jwt);
    s
}

/// The signed token inside a licence token: what follows the prefix, or the
/// whole text when it does not begin with the prefix.
pub fn token_body(token: &str) -> (r: &str)
    ensures
        r@ == (if has_prefix(token@, token_prefix()) { token@.skip(3) } else { token@ }),
{
    proof {
        reveal_strlit("tk_");
    }
    strip_prefix_or_self(token, "tk_")
}

/// The signed token inside a prefixed token is the one that was prefixed.
pub proof fn lemma_token_body_of_prefixed(jwt: Seq<char>)
    ensures
        has_prefix(token_prefix() + jwt, token_prefix()),
        (token_prefix() + jwt).skip(3) == jwt,
{
    reveal_strlit("tk_");
    assert((token_prefix() + jwt).subrange(0, 3) =~= token_prefix());
    assert((token_prefix() + jwt).skip(3) =~= jwt);
}

/// Whether the claims' timestamps are those of a token issued at `now`:
/// issued then, expiring a day later.
pub open spec fn stamped_at(c: TokenClaims, now: i64) -> bool {
    c.exp == (now + token_lifetime_secs()) as u64 && c.iat == now as u64
}

/// The claims of a token issued at `now` (Unix seconds) to a Telegram user:
/// the user id in decimal, the token id, a single booking, expiry a day
/// after issue.
pub fn claims_for(telegram_id: i64, token_id: u128, now: i64) -> (r: TokenClaims)
    requires
        now + 86400 <= i64::MAX,
    ensures
        r.sub@ == signed_decimal(telegram_id as int),
        r.token_id == token_id,
        r.max_bookings == 1,
        stamped_at(r, now),
{
    TokenClaims {
        sub: crate::text::signed_decimal_string(telegram_id),
        token_id,
        max_bookings: 1,
        exp: (now + 86400) as u64,
        iat: now as u64,
    }
}

/// A token issued at a time after the epoch expires exactly a day after it
/// was issued.
pub proof fn lemma_valid_for_a_day(c: TokenClaims, now: i64)
    requires
        stamped_at(c, now),
        0 <= now,
        now + 86400 <= i64::MAX,
    ensures
        c.exp == c.iat + token_lifetime_secs(),
{
}

/// The error for a token whose signature or claims do not check out.
pub fn invalid_token_error(detail: &str) -> (r: String)
    ensures
        r@ == "Invalid token: "@ + detail@,
{
    let mut s = String::from_str("Invalid token: ");
    s.append(detail);
    s
}

/// A fresh random (version 4) UUID, as its 128 bits, from `uuid::Uuid::new_v4`.
/// Trusted only for its type: the value is random, and nothing is claimed
/// of it.  (uuid panics when the system's random source fails; no argument
/// can rule that out.)
#[verifier::external_body]
pub(crate) fn random_token_id() -> (r: u128) {
    uuid::Uuid::new_v4().as_u128()
}

/// The current time from chrono's `Utc::now`: whole seconds since the Unix
/// epoch (`timestamp`) and the nanoseconds past the last whole second
/// (`timestamp_subsec_nanos`).  Trusted: chrono reads the system clock as a
/// duration since the epoch (panicking before it), so the seconds are not
/// negative and lie within chrono's range of instants, and the nanoseconds
/// are below a second; which instant it is depends on the clock.
#[verifier::external_body]
pub(crate) fn unix_time_now() -> (r: (i64, u32))
    ensures
        0 <= r.0 <= 9_000_000_000_000,
        r.1 < 1_000_000_000,
{
    let now = chrono::Utc::now();
    (now.timestamp(), now.timestamp_subsec_nanos())
}

/// The claims of a newly issued token, with the nanoseconds of its issue
/// time past the whole second (kept for the stored expiry).
#[derive(Clone, Debug, PartialEq)]
pub struct IssuedClaims {
    pub claims: TokenClaims,
    pub subsec_nanos: u32,
}

/// The claims of a token issued now to a Telegram user, with a fresh random
/// token id: a single booking, expiring exactly a day after issue.
pub fn fresh_claims(telegram_id: i64) -> (r: IssuedClaims)
    ensures
        r.claims.sub@ == signed_decimal(telegram_id as int),
        r.claims.max_bookings == 1,
        r.claims.exp == r.claims.iat + token_lifetime_secs(),
        exists|now: i64| 0 <= now && #[trigger] stamped_at(r.claims, now),
        r.subsec_nanos < 1_000_000_000,
{
    let token_id = random_token_id();
    let (now, nanos) = unix_time_now();
    let claims = claims_for(telegram_id, token_id, now);
    proof {
        lemma_valid_for_a_day(claims, now);
    }
    IssuedClaims { claims, subsec_nanos: nanos }
}

/// Whether a stored token is active.
pub open spec fn is_active(r: TokenRecord) -> bool {
    r.status@ == "ACTIVE"@
}

/// The bookings left on a record, as the server reports them: the bookings
/// not yet used, none when negative, reduced to a byte (modulo 256).
pub open spec fn bookings_left(r: TokenRecord) -> u8 {
    let d = r.max_bookings - r.used_bookings;
    (if d > 0 { d } else { 0 }) as u8
}

/// Whether the remaining-bookings arithmetic of a record stays within `i32`.
pub open spec fn left_fits(r: TokenRecord) -> bool {
    i32::MIN <= r.max_bookings - r.used_bookings <= i32::MAX
}

/// The server's answer for a token, from its stored record: not found when
/// there is none; already used when it is not active; otherwise valid
/// exactly when bookings are left.
pub open spec fn answer_for(rec: Option<TokenRecord>, resp: TokenResponse) -> bool {
    match rec {
        None => !resp.valid && resp.bookings_remaining == 0 && opt_text(resp.error) == Some("Token not found"@),
        Some(r) => if !is_active(r) {
            !resp.valid && resp.bookings_remaining == 0 && opt_text(resp.error) == Some("Token has already been used"@)
        } else {
            resp.bookings_remaining == bookings_left(r) && resp.valid == (bookings_left(r) > 0) && resp.error is None
        },
    }
}

/// The characters of an optional string.
pub open spec fn opt_text(s: Option<String>) -> Option<Seq<char>> {
    match s {
        Some(v) => Some(v@),
        None => None,
    }
}

/// The answer to a validation request for a token, from its stored record.
pub fn token_response_for_record(rec: Option<&TokenRecord>) -> (r: TokenResponse)
    requires
        rec matches Some(x) ==> (is_active(*x) ==> left_fits(*x)),
    ensures
        answer_for(
            match rec {
                Some(x) => Some(*x),
                None => None,
            },
            r,
        ),
{
    match rec {
        None => TokenResponse {
            valid: false,
            bookings_remaining: 0,
            error: Some(String::from_str("Token not found")),
        },
        Some(x) => {
            if !str_equal(x.status.as_str(), "ACTIVE") {
                return TokenResponse {
                    valid: false,
                    bookings_remaining: 0,
                    error: Some(String::from_str("Token has already been used")),
                };
            }
            let d: i32 = x.max_bookings - x.used_bookings;
            let kept: i32 = if d > 0 { d } else { 0 };
            let remaining: u8 = kept as u8;
            TokenResponse { valid: remaining > 0, bookings_remaining: remaining, error: None }
        },
    }
}

/// The answer sent when validation failed with an error: not valid, no
/// bookings, and the error's message.
pub fn rejected_response(message: String) -> (r: TokenResponse)
    ensures
        !r.valid,
        r.bookings_remaining == 0,
        opt_text(r.error) == Some(message@),
{
    TokenResponse { valid: false, bookings_remaining: 0, error: Some(message) }
}

/// The record after one booking is consumed: an active record counts one
/// more used booking and becomes consumed once its bookings are used up;
/// any other record is left as it is.
pub open spec fn consumed(old: TokenRecord, new: TokenRecord) -> bool {
    if is_active(old) {
        &&& new.id == old.id
        &&& new.telegram_id == old.telegram_id
        &&& new.max_bookings == old.max_bookings
        &&& new.used_bookings == old.used_bookings + 1
        &&& new.expires_at == old.expires_at
        &&& if old.used_bookings + 1 >= old.max_bookings {
            new.status@ == "CONSUMED"@
        } else {
            new.status@ == old.status@
        }
    } else {
        new == old
    }
}

impl TokenRecord {
    /// Records one consumed booking on the token.
    pub fn record_consumption(&mut self)
        requires
            is_active(*old(self)) ==> old(self).used_bookings < i32::MAX,
        ensures
            consumed(*old(self), *final(self)),
    {
        if str_equal(self.status.as_str(), "ACTIVE") {
            let used = self.used_bookings + 1;
            self.used_bookings = used;
            if used >= self.max_bookings {
                self.status = String::from_str("CONSUMED");
            }
        }
    }
}

/// A new token (active, one booking, none used) validates with one booking
/// left; once that booking is consumed it no longer validates, and is
/// reported as already used.
pub proof fn lemma_single_use(fresh: TokenRecord, after: TokenRecord, first: TokenResponse, second: TokenResponse)
    requires
        is_active(fresh),
        fresh.max_bookings == 1,
        fresh.used_bookings == 0,
        answer_for(Some(fresh), first),
        consumed(fresh, after),
        answer_for(Some(after), second),
    ensures
        first.valid,
        first.bookings_remaining == 1,
        !second.valid,
        second.bookings_remaining == 0,
        opt_text(second.error) == Some("Token has already been used"@),
{
    reveal_strlit("ACTIVE");
    reveal_strlit("CONSUMED");
    assert(after.status@[0] != "ACTIVE"@[0]);
}

/// Each consumption uses up one booking of those the server reports left,
/// and never goes below none, provided the bookings left fit in a byte.
pub proof fn lemma_consumption_uses_one(before: TokenRecord, after: TokenRecord, first: TokenResponse, second: TokenResponse)
    requires
        is_active(before) ==> before.used_bookings < i32::MAX,
        before.max_bookings - before.used_bookings <= 255,
        answer_for(Some(before), first),
        consumed(before, after),
        answer_for(Some(after), second),
    ensures
        second.bookings_remaining == (if first.bookings_remaining > 0 { first.bookings_remaining - 1 } else { 0 }),
        second.valid ==> first.valid,
{
    reveal_strlit("ACTIVE");
    reveal_strlit("CONSUMED");
    if is_active(before) {
        if before.used_bookings + 1 >= before.max_bookings {
            assert(after.status@[0] != "ACTIVE"@[0]);
        }
    }
}

/// What the server answered to a validation request.
#[derive(Clone, Debug, PartialEq)]
pub enum ServerReply {
    /// The server answered with a verdict.
    Answer(TokenResponse),
    /// The server answered with an unsuccessful status (its text).
    Refused(String),
    /// The server could not be reached.
    Unreachable,
    /// The server was not asked, the token having failed the local check.
    NotAsked,
}

/// The message for a token the server calls invalid: its error, or a
/// default.
pub open spec fn rejection_text(error: Option<String>) -> Seq<char> {
    "❌ Token rejected: "@ + match error {
        Some(e) => e@,
        None => "Token invalid or expired"@,
    }
}

/// The message for a token that fails the local check (unreadable claims or
/// an expired token), with the reader's message.
pub open spec fn local_failure_text(e: String) -> Seq<char> {
    "Token validation failed: "@ + e@
}

/// Whether the licence server is to be asked about a token: only once the
/// token has passed the local check of its structure and expiry.
pub fn needs_server_check(local: &Result<TokenClaims, String>) -> (r: bool)
    ensures
        r == local is Ok,
{
    local.is_ok()
}

/// The outcome of a client's licence check.  The token is first checked
/// locally (its claims read, with their expiry checked): a token that fails
/// is refused whatever the server says.  A token that passes is refused when
/// the server calls it invalid or answers with an unsuccessful status, and
/// accepted, with its own claims, when the server calls it valid or cannot
/// be reached.
pub fn licence_step(local: Result<TokenClaims, String>, reply: &ServerReply) -> (r: Result<TokenClaims, String>)
    ensures
        local is Err ==> r is Err && r->Err_0@ == local_failure_text(local->Err_0),
        local is Ok ==> match *reply {
            ServerReply::Answer(b) => if b.valid {
                r == local
            } else {
                r is Err && r->Err_0@ == rejection_text(b.error)
            },
            ServerReply::Refused(status) => r is Err && r->Err_0@ == "License server returned status: "@ + status@,
            ServerReply::Unreachable => r == local,
            ServerReply::NotAsked => r == local,
        },
{
    let claims = match local {
        Ok(c) => c,
        Err(e) => {
            let mut m = String::from_str("Token validation failed: ");
            m.append(e.as_str());
            return Err(m);
        },
    };
    match reply {
        ServerReply::Answer(b) => {
            if b.valid {
                Ok(claims)
            } else {
                let mut m = String::from_str("❌ Token rejected: ");
                match &b.error {
                    Some(e) => m.append(e.as_str()),
                    None => m.append("Token invalid or expired"),
                }
                Err(m)
            }
        },
        ServerReply::Refused(status) => {
            let mut m = String::from_str("License server returned status: ");
            m.append(status.as_str());
            Err(m)
        },
        ServerReply::Unreachable => Ok(claims),
        ServerReply::NotAsked => Ok(claims),
    }
}

/// The address of an endpoint of the licence server.
pub fn endpoint_url(server: &str, path: &str) -> (r: String)
    ensures
        r@ == server@ + path@,
{
    let mut s = String::from_str(server);
    s.append(path);
    s
}

} // verus!
