//! Signed licence tokens: signing the claims of a token with the server's
//! secret (HS256 JSON Web Tokens), reading the claims back out of a token,
//! and the expiry check that decides whether a read token is still current.
use vstd::prelude::*;
use crate::license::{
    fresh_claims, invalid_token_error, prefixed_token, token_body, token_prefix, unix_time_now, IssuedClaims,
    TokenClaims,
};
use crate::text::signed_decimal;

verus! {

/// The characters of a result whose value and error are strings.
pub open spec fn result_text(r: Result<String, String>) -> Result<Seq<char>, Seq<char>> {
    match r {
        Ok(t) => Ok(t@),
        Err(e) => Err(e@),
    }
}

/// What jsonwebtoken's `encode` gives for the claims object with members
/// `sub`, `token_id` (the id written as a hyphenated UUID), `max_bookings`,
/// `exp` and `iat`, under the default header (HS256) and the HMAC key
/// `secret`: the signed token, or the text of its error.
pub uninterp spec fn hs256_token(
    sub: Seq<char>,
    token_id: u128,
    max_bookings: u8,
    exp: u64,
    iat: u64,
    secret: Seq<char>,
) -> Result<Seq<char>, Seq<char>>;

/// Signs the claims of a token with jsonwebtoken's `encode` (default header,
/// HS256, key from the secret's bytes), the claims given as a JSON object
/// with the token id written by uuid as a hyphenated UUID.  Trusted: the
/// outcome is jsonwebtoken's, named `hs256_token`; it depends on the claims
/// and the secret alone (HMAC signing holds no randomness).
#[verifier::external_body]
pub(crate) fn sign_claims(c: &TokenClaims, secret: &str) -> (r: Result<String, String>)
    ensures
        result_text(r) == hs256_token(c.sub@, c.token_id, c.max_bookings, c.exp, c.iat, secret@),
{
    let mut m = serde_json::Map::new();
    m.insert("sub".to_string(), c.sub.clone().into());
    m.insert("token_id".to_string(), uuid::Uuid::from_u128(c.token_id).to_string().into());
    m.insert("max_bookings".to_string(), c.max_bookings.into());
    m.insert("exp".to_string(), c.exp.into());
    m.insert("iat".to_string(), c.iat.into());
    let key = jsonwebtoken::EncodingKey::from_secret(secret.as_bytes());
    match jsonwebtoken::encode(&jsonwebtoken::Header::default(), &m, &key) {
        Ok(t) => Ok(t),
        Err(e) => Err(e.to_string()),
    }
}

/// What jsonwebtoken's `decode` gives for `jwt` under the HMAC key
/// `secret`, accepting HS256, requiring no claim and checking no expiry,
/// the signature left unchecked when `check_signature` is false: the claims
/// as serde_json writes the decoded JSON value, or the text of its error.
pub uninterp spec fn hs256_payload(jwt: Seq<char>, secret: Seq<char>, check_signature: bool) -> Result<
    Seq<char>,
    Seq<char>,
>;

/// Reads the claims out of a token with jsonwebtoken's `decode` into a
/// serde_json value (the default validation for HS256, with the expiry
/// check and the required claims turned off, and the signature check turned
/// off when `check_signature` is false), written back as JSON text.
/// Trusted: the outcome is jsonwebtoken's, named `hs256_payload`; with the
/// expiry check off it depends on its arguments alone.
#[verifier::external_body]
pub(crate) fn decode_payload(jwt: &str, secret: &str, check_signature: bool) -> (r: Result<String, String>)
    ensures
        result_text(r) == hs256_payload(jwt@, secret@, check_signature),
{
    let mut v = jsonwebtoken::Validation::default();
    v.validate_exp = false;
    v.required_spec_claims.clear();
    if !check_signature {
        v.insecure_disable_signature_validation();
    }
    let key = jsonwebtoken::DecodingKey::from_secret(secret.as_bytes());
    match jsonwebtoken::decode::<serde_json::Value>(jwt, &key, &v) {
        Ok(d) => Ok(d.claims.to_string()),
        Err(e) => Err(e.to_string()),
    }
}

/// What serde_json finds for member `key` of the JSON text `json`: `None`
/// when the text is not JSON, else the member's text when it is a string
/// (`None` inside when it is absent or not a string).
pub uninterp spec fn json_text_member(json: Seq<char>, key: Seq<char>) -> Option<Option<Seq<char>>>;

/// The characters of an optional optional string.
pub open spec fn opt_opt_text(r: Option<Option<String>>) -> Option<Option<Seq<char>>> {
    match r {
        Some(Some(s)) => Some(Some(s@)),
        Some(None) => Some(None),
        None => None,
    }
}

/// Reads a string member of a JSON object with serde_json (`from_str` into
/// a `Value`, indexing by `key`, `as_str`).  Trusted: the outcome is
/// serde_json's, named `json_text_member`.
#[verifier::external_body]
pub(crate) fn json_member_text(json: &str, key: &str) -> (r: Option<Option<String>>)
    ensures
        opt_opt_text(r) == json_text_member(json@, key@),
{
    match serde_json::from_str::<serde_json::Value>(json) {
        Ok(v) => Some(match v[key].as_str() {
            Some(s) => Some(s.to_string()),
            None => None,
        }),
        Err(_) => None,
    }
}

/// What serde_json finds for member `key` of the JSON text `json`: `None`
/// when the text is not JSON, else the member's value when it is a
/// non-negative integer that fits 64 bits (`None` inside otherwise).
pub uninterp spec fn json_u64_member(json: Seq<char>, key: Seq<char>) -> Option<Option<u64>>;

/// Reads an unsigned integer member of a JSON object with serde_json
/// (`from_str` into a `Value`, indexing by `key`, `as_u64`).  Trusted: the
/// outcome is serde_json's, named `json_u64_member`.
#[verifier::external_body]
pub(crate) fn json_member_u64(json: &str, key: &str) -> (r: Option<Option<u64>>)
    ensures
        r == json_u64_member(json@, key@),
{
    match serde_json::from_str::<serde_json::Value>(json) {
        Ok(v) => Some(v[key].as_u64()),
        Err(_) => None,
    }
}

/// What uuid's `Uuid::parse_str` gives for a text: the 128 bits of the UUID
/// it writes, or `None` when it writes none.
pub uninterp spec fn uuid_value(text: Seq<char>) -> Option<u128>;

/// Reads a UUID with uuid's `Uuid::parse_str` (as serde reads a UUID from a
/// string).  Trusted: the outcome is uuid's, named `uuid_value`.
#[verifier::external_body]
pub(crate) fn parse_uuid(text: &str) -> (r: Option<u128>)
    ensures
        r == uuid_value(text@),
{
    match uuid::Uuid::parse_str(text) {
        Ok(u) => Some(u.as_u128()),
        Err(_) => None,
    }
}

/// The fields of token claims as plain values.
pub open spec fn claims_fields(c: TokenClaims) -> (Seq<char>, u128, u8, u64, u64) {
    (c.sub@, c.token_id, c.max_bookings, c.exp, c.iat)
}

/// The error for a claims member that is missing or of the wrong kind.
pub open spec fn field_error(name: Seq<char>) -> Seq<char> {
    "JSON error: missing or invalid field `"@ + name + "`"@
}

/// The claims written in a claims text, checked member by member in the
/// order of the claims: the subject a string, the token id a string that
/// reads as a UUID, the booking count an integer that fits a byte, the
/// expiry and issue times unsigned integers.  The error names the first
/// member that is not so.
pub open spec fn payload_fields(p: Seq<char>) -> Result<(Seq<char>, u128, u8, u64, u64), Seq<char>> {
    let sub = json_text_member(p, "sub"@);
    let id = json_text_member(p, "token_id"@);
    let max = json_u64_member(p, "max_bookings"@);
    let exp = json_u64_member(p, "exp"@);
    let iat = json_u64_member(p, "iat"@);
    if !(sub matches Some(Some(_))) {
        Err(field_error("sub"@))
    } else if !(id matches Some(Some(t)) && uuid_value(t) is Some) {
        Err(field_error("token_id"@))
    } else if !(max matches Some(Some(n)) && n <= 255) {
        Err(field_error("max_bookings"@))
    } else if !(exp matches Some(Some(_))) {
        Err(field_error("exp"@))
    } else if !(iat matches Some(Some(_))) {
        Err(field_error("iat"@))
    } else {
        Ok((sub->0->0, uuid_value(id->0->0)->0, max->0->0 as u8, exp->0->0, iat->0->0))
    }
}

/// The error text for a claims member that is missing or of the wrong kind.
fn field_error_text(name: &str) -> (r: String)
    ensures
        r@ == field_error(name@),
{
    let mut s = String::from_str("JSON error: missing or invalid field `");
    s.append(name);
    s.append("`");
    s
}

/// Reads the claims of a token from its claims text.
pub fn claims_from_payload(p: &str) -> (r: Result<TokenClaims, String>)
    ensures
        match r {
            Ok(c) => payload_fields(p@) == Ok::<(Seq<char>, u128, u8, u64, u64), Seq<char>>(claims_fields(c)),
            Err(e) => payload_fields(p@) == Err::<(Seq<char>, u128, u8, u64, u64), Seq<char>>(e@),
        },
{
    let sub = match json_member_text(p, "sub") {
        Some(Some(s)) => s,
        _ => return Err(field_error_text("sub")),
    };
    let token_id = match json_member_text(p, "token_id") {
        Some(Some(t)) => match parse_uuid(t.as_str()) {
            Some(id) => id,
            None => return Err(field_error_text("token_id")),
        },
        _ => return Err(field_error_text("token_id")),
    };
    let max_bookings: u8 = match json_member_u64(p, "max_bookings") {
        Some(Some(n)) => {
            if n <= 255 {
                n as u8
            } else {
                return Err(field_error_text("max_bookings"));
            }
        },
        _ => return Err(field_error_text("max_bookings")),
    };
    let exp = match json_member_u64(p, "exp") {
        Some(Some(n)) => n,
        _ => return Err(field_error_text("exp")),
    };
    let iat = match json_member_u64(p, "iat") {
        Some(Some(n)) => n,
        _ => return Err(field_error_text("iat")),
    };
    Ok(TokenClaims { sub, token_id, max_bookings, exp, iat })
}

/// The claims read out of a token: the decoder's error, or the claims
/// written in the claims text it gives.
pub open spec fn token_fields(jwt: Seq<char>, secret: Seq<char>, check_signature: bool) -> Result<
    (Seq<char>, u128, u8, u64, u64),
    Seq<char>,
> {
    match hs256_payload(jwt, secret, check_signature) {
        Ok(p) => payload_fields(p),
        Err(e) => Err(e),
    }
}

/// The fields and error text of read claims.
pub open spec fn read_fields(r: Result<TokenClaims, String>) -> Result<(Seq<char>, u128, u8, u64, u64), Seq<char>> {
    match r {
        Ok(c) => Ok(claims_fields(c)),
        Err(e) => Err(e@),
    }
}

/// Reads the claims out of a token: its structure (and, when
/// `check_signature`, its HS256 signature under `secret`) by jsonwebtoken,
/// then each claim.  The expiry is not checked here.
pub fn read_token_claims(jwt: &str, secret: &str, check_signature: bool) -> (r: Result<TokenClaims, String>)
    ensures
        read_fields(r) == token_fields(jwt@, secret@, check_signature),
{
    match decode_payload(jwt, secret, check_signature) {
        Ok(p) => claims_from_payload(p.as_str()),
        Err(e) => Err(e),
    }
}

/// Whether a token with expiry `exp` has expired at `now` (Unix seconds):
/// its expiry lies more than the minute of leeway (jsonwebtoken's default)
/// before now.
pub open spec fn expired_at(exp: u64, now: i64) -> bool {
    exp + 60 < now
}

/// The outcome of the expiry check on read claims at `now`: the reader's
/// error as it is; the text "ExpiredSignature" (jsonwebtoken's) for
/// expired claims; else the claims.
pub open spec fn current_fields(read: Result<(Seq<char>, u128, u8, u64, u64), Seq<char>>, now: i64) -> Result<
    (Seq<char>, u128, u8, u64, u64),
    Seq<char>,
> {
    match read {
        Ok(f) => if expired_at(f.3, now) {
            Err("ExpiredSignature"@)
        } else {
            Ok(f)
        },
        Err(e) => Err(e),
    }
}

/// The expiry check on read claims at `now` (Unix seconds).
pub fn current_claims(read: Result<TokenClaims, String>, now: i64) -> (r: Result<TokenClaims, String>)
    ensures
        read_fields(r) == current_fields(read_fields(read), now),
        read matches Ok(c) && !expired_at(c.exp, now) ==> r == read,
{
    match read {
        Ok(c) => {
            if (c.exp as i128) + 60 < now as i128 {
                Err(String::from_str("ExpiredSignature"))
            } else {
                Ok(c)
            }
        },
        Err(e) => Err(e),
    }
}

/// The client's local check of a token's body: its structure and claims
/// read without the signature (the client does not hold the secret), then
/// its expiry at the current time.
pub fn local_claims(jwt: &str) -> (r: Result<TokenClaims, String>)
    ensures
        exists|now: i64| 0 <= now && read_fields(r) == #[trigger] current_fields(token_fields(jwt@, ""@, false), now),
{
    let read = read_token_claims(jwt, "", false);
    let (now, _) = unix_time_now();
    current_claims(read, now)
}

/// The token id of read claims that are current at `now`; otherwise the
/// error "Invalid token: " followed by the reader's error, or by
/// "ExpiredSignature" for expired claims.
pub fn token_id_if_current(read: Result<TokenClaims, String>, now: i64) -> (r: Result<u128, String>)
    ensures
        match current_fields(read_fields(read), now) {
            Ok(f) => r == Ok::<u128, String>(f.1),
            Err(e) => r is Err && r->Err_0@ == "Invalid token: "@ + e,
        },
{
    match current_claims(read, now) {
        Ok(c) => Ok(c.token_id),
        Err(e) => Err(invalid_token_error(e.as_str())),
    }
}

/// The server's check of a licence token: the prefix removed, the claims
/// read with the HS256 signature checked under `secret`, the expiry checked
/// at the current time; the token id of a token that passes, else the
/// error "Invalid token: " followed by the reason.
pub fn verified_token_id(token: &str, secret: &str) -> (r: Result<u128, String>)
    ensures
        exists|now: i64|
            0 <= now && match #[trigger] current_fields(token_fields(token_body_text(token@), secret@, true), now) {
                Ok(f) => r == Ok::<u128, String>(f.1),
                Err(e) => r is Err && r->Err_0@ == "Invalid token: "@ + e,
            },
{
    let body = token_body(token);
    let read = read_token_claims(body, secret, true);
    let (now, _) = unix_time_now();
    token_id_if_current(read, now)
}

/// The signed token inside a licence token, as `token_body` finds it.
pub open spec fn token_body_text(token: Seq<char>) -> Seq<char> {
    if crate::text::has_prefix(token, token_prefix()) {
        token.skip(3)
    } else {
        token
    }
}

/// Issues a licence token to a Telegram user: fresh claims (a random id, a
/// single booking, valid for a day from now) signed with `secret`, with the
/// licence prefix before the signed token.  The error is the signer's.
pub fn issue_token(telegram_id: i64, secret: &str) -> (r: Result<(String, IssuedClaims), String>)
    ensures
        r matches Ok((t, i)) ==> {
            &&& i.claims.sub@ == signed_decimal(telegram_id as int)
            &&& i.claims.max_bookings == 1
            &&& i.claims.exp == i.claims.iat + 86400
            &&& hs256_token(i.claims.sub@, i.claims.token_id, 1, i.claims.exp, i.claims.iat, secret@) is Ok
            &&& t@ == token_prefix() + hs256_token(
                i.claims.sub@,
                i.claims.token_id,
                1,
                i.claims.exp,
                i.claims.iat,
                secret@,
            )->Ok_0
        },
        r matches Err(e) ==> exists|c: TokenClaims|
            c.sub@ == signed_decimal(telegram_id as int) && c.max_bookings == 1 && #[trigger] hs256_token(
                c.sub@,
                c.token_id,
                c.max_bookings,
                c.exp,
                c.iat,
                secret@,
            ) == Err::<Seq<char>, Seq<char>>(e@),
{
    let issued = fresh_claims(telegram_id);
    match sign_claims(&issued.claims, secret) {
        Ok(jwt) => Ok((prefixed_token(jwt.as_str()), issued)),
        Err(e) => Err(e),
    }
}

} // verus!
