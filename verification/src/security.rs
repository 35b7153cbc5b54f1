//! Password hashing (argon2) and bearer tokens (HS256 JWT whose claims are
//! the user id and the expiry).

use vstd::prelude::*;

use argon2::{PasswordHasher, PasswordVerifier};

use crate::claims::{claims_payload, parse_claims, quote_free, render_claims};
use crate::error::AppError;
use vstd::utf8::encode_utf8;

verus! {

#[verifier::external_type_specification]
#[verifier::external_body]
pub struct ExJwtError(jsonwebtoken::errors::Error);

#[verifier::external_type_specification]
#[verifier::external_body]
pub struct ExPasswordHashError(argon2::password_hash::Error);

/// A character of a hyphenated lowercase UUID: a hex digit `0-9a-f` or `-`.
pub open spec fn is_uuid_char(c: char) -> bool {
    ('0' <= c && c <= '9') || ('a' <= c && c <= 'f') || c == '-'
}

/// A character of a compact JWT: base64url (`A-Z a-z 0-9 - _`) or `.`.
pub open spec fn is_token_char(c: char) -> bool {
    ('A' <= c && c <= 'Z') || ('a' <= c && c <= 'z') || ('0' <= c && c <= '9') || c == '-'
        || c == '_' || c == '.'
}

/// `t` is a non-empty run of token characters.
pub open spec fn is_token_text(t: Seq<char>) -> bool {
    t.len() > 0 && forall|i: int| 0 <= i < t.len() ==> is_token_char(#[trigger] t[i])
}

/// The HS256 JWT that `jsonwebtoken::encode` gives for the default header,
/// the claims text `payload` (taken as raw JSON) and the secret `secret`. For
/// a claims text that is not JSON, and that the encoder refuses, the name
/// stands for no token that decoding accepts.
pub uninterp spec fn spec_jwt_encode(secret: Seq<char>, payload: Seq<char>) -> Seq<char>;

/// The claims text (as raw JSON, the way `jsonwebtoken::decode` gives it)
/// of `token` where it is an HS256 token whose signature is valid under the
/// HMAC secret `secret` and whose claims are JSON that the decoder reads;
/// `None` otherwise. This is what decoding gives when it is asked to check
/// neither the time nor the presence of any claim.
pub uninterp spec fn spec_jwt_verified_claims(secret: Seq<char>, token: Seq<char>) -> Option<Seq<char>>;

/// The PHC string that argon2 (default parameters) gives for `password` and
/// the base64 salt `salt`, or `None` where hashing fails.
pub uninterp spec fn spec_argon2_hash(password: Seq<char>, salt: Seq<char>) -> Option<Seq<char>>;

/// Whether `password` matches the PHC string `hash` under argon2, or `None`
/// where `hash` is not a PHC string.
pub uninterp spec fn spec_argon2_verify(password: Seq<char>, hash: Seq<char>) -> Option<bool>;

/// The lowercase hex digit of `d < 16`.
pub open spec fn hex_digit(d: u128) -> char {
    if d < 10 {
        (48 + d) as char
    } else {
        (87 + d) as char
    }
}

/// The `j`-th hex digit (`0 <= j < 32`, most significant first) of `id`.
pub open spec fn nibble(id: u128, j: int) -> u128 {
    (id >> ((124 - 4 * j) as u128)) & 0xf
}

/// Character `k` of the hyphenated text of `id`: hyphens at 8, 13, 18 and
/// 23, the 32 hex digits elsewhere.
pub open spec fn uuid_char_at(id: u128, k: int) -> char {
    if k == 8 || k == 13 || k == 18 || k == 23 {
        '-'
    } else {
        let skipped: int = if k < 8 {
            0
        } else if k < 13 {
            1
        } else if k < 18 {
            2
        } else if k < 23 {
            3
        } else {
            4
        };
        hex_digit(nibble(id, k - skipped))
    }
}

/// The hyphenated lowercase text of the UUID whose 128-bit value is `id`:
/// its 32 hex digits in groups of 8-4-4-4-12.
pub open spec fn spec_uuid_text(id: u128) -> Seq<char> {
    Seq::new(36, |k: int| uuid_char_at(id, k))
}

/// The text of a UUID has 36 characters, each a hex digit or a hyphen, so
/// it holds no quote.
pub proof fn lemma_uuid_text(id: u128)
    ensures
        spec_uuid_text(id).len() == 36,
        forall|i: int| 0 <= i < 36 ==> is_uuid_char(#[trigger] spec_uuid_text(id)[i]),
        quote_free(spec_uuid_text(id)),
{
    assert forall|x: u128, sh: u128| #[trigger] ((x >> sh) & 0xf) < 16 by {
        assert(((x >> sh) & 0xf) < 16) by (bit_vector);
    }
    assert forall|i: int| 0 <= i < 36 implies is_uuid_char(#[trigger] spec_uuid_text(id)[i]) by {
        let c = uuid_char_at(id, i);
        if !(i == 8 || i == 13 || i == 18 || i == 23) {
            let skipped: int = if i < 8 {
                0
            } else if i < 13 {
                1
            } else if i < 18 {
                2
            } else if i < 23 {
                3
            } else {
                4
            };
            let d = nibble(id, i - skipped);
            assert(d < 16);
        }
    }
    assert forall|i: int| 0 <= i < spec_uuid_text(id).len() implies #[trigger] spec_uuid_text(id)[i]
        != '"' by {
        assert(is_uuid_char(spec_uuid_text(id)[i]));
    }
}

/// The 128-bit value of the UUID that `text` spells, if any.
pub uninterp spec fn spec_uuid_parse(text: Seq<char>) -> Option<u128>;

/// The current time in Unix seconds (`chrono::Utc::now().timestamp()`).
/// Nothing is claimed of the value: it is the clock's.
#[verifier::external_body]
pub(crate) fn now_unix_seconds() -> i64 {
    chrono::Utc::now().timestamp()
}

/// A character of standard base64 (`A-Z a-z 0-9 + /`).
pub open spec fn is_b64_char(c: char) -> bool {
    ('A' <= c && c <= 'Z') || ('a' <= c && c <= 'z') || ('0' <= c && c <= '9') || c == '+'
        || c == '/'
}

/// The canonical unpadded base64 text of 16 bytes: 22 characters whose last
/// one carries two data bits and four zero bits.
pub open spec fn is_salt_text(s: Seq<char>) -> bool {
    &&& s.len() == 22
    &&& forall|i: int| 0 <= i < 21 ==> is_b64_char(#[trigger] s[i])
    &&& (s[21] == 'A' || s[21] == 'Q' || s[21] == 'g' || s[21] == 'w')
}

/// `h` is an Argon2id PHC string: it starts with `$argon2id$`.
pub open spec fn is_argon2id_phc(h: Seq<char>) -> bool {
    h.len() >= 10 && h.take(10) == "$argon2id$"@
}

/// The largest password argon2 takes, in bytes.
pub open spec fn max_password_bytes() -> nat {
    0xFFFF_FFFF
}

/// A fresh random salt (`SaltString::generate` with the operating system's
/// generator), in its base64 text. Claimed only what holds of every salt it
/// makes: it is the canonical unpadded base64 text of 16 bytes
/// (`Salt::RECOMMENDED_LENGTH` bytes encoded by `SaltString::encode_b64`).
#[verifier::external_body]
pub(crate) fn generate_salt() -> (r: String)
    ensures
        is_salt_text(r@),
{
    argon2::password_hash::SaltString::generate(&mut argon2::password_hash::rand_core::OsRng).as_str().to_string()
}

/// `Argon2::default().hash_password` of `password` with the salt `salt`, as a
/// PHC string. Claims that the result is the named one, and (as the
/// `PasswordVerifier` contract of the crate promises) that the hash verifies
/// against the password that made it. As the crate's source shows, with a
/// salt that is the canonical base64 text of 16 bytes, hashing fails exactly
/// when the password is longer than `MAX_PWD_LEN` (2^32 - 1) bytes; and the
/// PHC string of the default algorithm, Argon2id, starts with `$argon2id$`.
#[verifier::external_body]
pub(crate) fn argon2_hash(password: &str, salt: &str) -> (r: Result<String, argon2::password_hash::Error>)
    ensures
        r is Ok == spec_argon2_hash(password@, salt@) is Some,
        r is Ok ==> r->Ok_0@ == spec_argon2_hash(password@, salt@)->0,
        r is Ok ==> spec_argon2_verify(password@, r->Ok_0@) == Some(true),
        is_salt_text(salt@) ==> (r is Ok <==> encode_utf8(password@).len() <= max_password_bytes()),
        r is Ok ==> is_argon2id_phc(r->Ok_0@),
{
    let salt = argon2::password_hash::SaltString::from_b64(salt)?;
    argon2::Argon2::default().hash_password(password.as_bytes(), &salt).map(|h| h.to_string())
}

/// Parses `hash` as a PHC string (`PasswordHash::new`) and tells whether
/// `Argon2::default().verify_password` accepts `password` for it. Claims that
/// the outcome is the named one.
#[verifier::external_body]
pub(crate) fn argon2_verify(password: &str, hash: &str) -> (r: Result<bool, argon2::password_hash::Error>)
    ensures
        r is Ok == spec_argon2_verify(password@, hash@) is Some,
        r is Ok ==> Some(r->Ok_0) == spec_argon2_verify(password@, hash@),
{
    let parsed = argon2::PasswordHash::new(hash)?;
    Ok(argon2::Argon2::default().verify_password(password.as_bytes(), &parsed).is_ok())
}

/// The `Display` text of a password-hash error. Nothing is claimed of it.
#[verifier::external_body]
pub(crate) fn password_error_text(e: &argon2::password_hash::Error) -> String {
    e.to_string()
}

/// `jsonwebtoken::encode` with the default (HS256) header, the claims text
/// `payload` taken as raw JSON, and the HMAC secret `secret`. Claims that the
/// token is the named one and, as the crate's source shows, that it is made
/// of base64url segments joined by dots. Also from the source: encoding fails
/// only where `RawValue::from_string` refuses the text as JSON (HS256 signing
/// with a secret key cannot fail), so a claims text of a user id and an
/// expiry, which is a JSON object, is always encoded.
#[verifier::external_body]
pub(crate) fn jwt_encode(secret: &str, payload: &str) -> (r: Result<String, jsonwebtoken::errors::Error>)
    ensures
        r is Ok ==> r->Ok_0@ == spec_jwt_encode(secret@, payload@),
        r is Ok ==> r->Ok_0@.len() > 0,
        r is Ok ==> forall|i: int| 0 <= i < r->Ok_0@.len() ==> is_token_char(#[trigger] r->Ok_0@[i]),
        forall|id: u128, exp: i64| payload@ == #[trigger] claims_payload(spec_uuid_text(id), exp) ==> r is Ok,
{
    let claims = serde_json::value::RawValue::from_string(payload.to_string())?;
    let key = jsonwebtoken::EncodingKey::from_secret(secret.as_bytes());
    jsonwebtoken::encode(&jsonwebtoken::Header::default(), &claims, &key)
}

/// `jsonwebtoken::decode` of `token` with the HMAC secret `secret` and the
/// default validation (HS256) asked to check neither the expiry nor the
/// presence of any claim, giving the claims as raw JSON text: the expiry is
/// checked by `parse_token_at`. Claimed: the outcome is the named one; a token
/// that `jwt_encode` made with the same secret from a claims text that starts
/// with `{` and ends with `}` gives that text back; and, as the crate's
/// source shows (signature check, then the claims read by
/// `ClaimsForValidation`, whose fields absorb any value they cannot read),
/// the token of a user id and an expiry made with `secret` is always read.
#[verifier::external_body]
pub(crate) fn jwt_decode(secret: &str, token: &str) -> (r: Result<String, jsonwebtoken::errors::Error>)
    ensures
        r is Ok <==> spec_jwt_verified_claims(secret@, token@) is Some,
        r is Ok ==> spec_jwt_verified_claims(secret@, token@) == Some(r->Ok_0@),
        forall|p: Seq<char>|
            token@ == #[trigger] spec_jwt_encode(secret@, p) && p.len() > 0 && p[0] == '{'
                && p.last() == '}' && r is Ok ==> r->Ok_0@ == p,
        forall|id: u128, exp: i64|
            token@ == #[trigger] spec_jwt_encode(secret@, claims_payload(spec_uuid_text(id), exp))
                ==> r is Ok,
{
    let key = jsonwebtoken::DecodingKey::from_secret(secret.as_bytes());
    let mut validation = jsonwebtoken::Validation::default();
    validation.validate_exp = false;
    validation.required_spec_claims.clear();
    jsonwebtoken::decode::<Box<serde_json::value::RawValue>>(token, &key, &validation).map(
        |data| data.claims.get().to_string(),
    )
}

/// The hyphenated lowercase text of a UUID (`Uuid::from_u128(id)` shown by
/// `hyphenated()`): its hex digits, most significant first, in groups of
/// 8-4-4-4-12.
#[verifier::external_body]
pub(crate) fn uuid_text(id: u128) -> (r: String)
    ensures
        r@ == spec_uuid_text(id),
{
    uuid::Uuid::from_u128(id).hyphenated().to_string()
}

/// `Uuid::parse_str`, as a 128-bit value. Claims that the outcome is the
/// named one and that the text of a UUID parses back to it.
#[verifier::external_body]
pub(crate) fn uuid_parse(text: &str) -> (r: Option<u128>)
    ensures
        r == spec_uuid_parse(text@),
        forall|id: u128| text@ == #[trigger] spec_uuid_text(id) ==> r == Some(id),
{
    uuid::Uuid::parse_str(text).ok().map(|u| u.as_u128())
}

/// What a valid token says: whose it is and until when (Unix seconds).
#[derive(Debug, Clone, Copy, PartialEq, Eq)]
pub struct Claims {
    pub sub: u128,
    pub exp: i64,
}

/// The token for user `id` that expires at `exp`.
pub open spec fn spec_token(secret: Seq<char>, id: u128, exp: i64) -> Seq<char> {
    spec_jwt_encode(secret, claims_payload(spec_uuid_text(id), exp))
}

/// Hashes a password with a fresh random salt. It succeeds exactly when the
/// password is at most 2^32 - 1 bytes long.
pub fn hash_password(password: &str) -> (r: Result<String, argon2::password_hash::Error>)
    ensures
        r is Ok <==> encode_utf8(password@).len() <= max_password_bytes(),
        r is Ok ==> spec_argon2_verify(password@, r->Ok_0@) == Some(true),
        r is Ok ==> is_argon2id_phc(r->Ok_0@),
        r is Ok ==> exists|salt: Seq<char>|
            is_salt_text(salt) && spec_argon2_hash(password@, salt) == Some(r->Ok_0@),
{
    let salt = generate_salt();
    argon2_hash(password, salt.as_str())
}

/// Tells whether `password` matches the stored PHC string `hash`.
pub fn verify_password(password: &str, hash: &str) -> (r: Result<bool, argon2::password_hash::Error>)
    ensures
        r is Ok == spec_argon2_verify(password@, hash@) is Some,
        r is Ok ==> Some(r->Ok_0) == spec_argon2_verify(password@, hash@),
{
    argon2_verify(password, hash)
}

/// The expiry `ttl_hours` hours after `now`, both in Unix seconds, where the
/// hours in seconds and the sum fit in an `i64`.
pub open spec fn spec_token_expiry(now: i64, ttl_hours: i64) -> Option<i64> {
    if i64::MIN <= ttl_hours * 3600 <= i64::MAX && i64::MIN <= now + ttl_hours * 3600 <= i64::MAX {
        Some((now + ttl_hours * 3600) as i64)
    } else {
        None
    }
}

/// A token issued at `now` for `ttl_hours` hours expires exactly
/// `ttl_hours * 3600` seconds after `now`, wherever that fits in an `i64`;
/// it has no expiry only where it does not fit.
pub proof fn law_token_expiry_is_ttl_after_now(now: i64, ttl_hours: i64)
    ensures
        i64::MIN <= ttl_hours * 3600 <= i64::MAX && i64::MIN <= now + ttl_hours * 3600 <= i64::MAX
            ==> spec_token_expiry(now, ttl_hours) == Some((now + ttl_hours * 3600) as i64),
        spec_token_expiry(now, ttl_hours) matches Some(e) ==> e == now + ttl_hours * 3600,
{
}

/// The expiry `ttl_hours` hours after `now`, where it fits in an `i64`.
pub fn token_expiry(now: i64, ttl_hours: i64) -> (r: Option<i64>)
    ensures
        r == spec_token_expiry(now, ttl_hours),
        i64::MIN <= ttl_hours * 3600 <= i64::MAX && i64::MIN <= now + ttl_hours * 3600 <= i64::MAX
            ==> r == Some((now + ttl_hours * 3600) as i64),
        r matches Some(e) ==> e == now + ttl_hours * 3600,
        !(i64::MIN <= ttl_hours * 3600 <= i64::MAX && i64::MIN <= now + ttl_hours * 3600
            <= i64::MAX) ==> r is None,
{
    match ttl_hours.checked_mul(3600) {
        None => None,
        Some(secs) => now.checked_add(secs),
    }
}

/// Signs the token of user `user_id` that expires at `exp`.
pub fn sign_token_until(secret: &str, user_id: u128, exp: i64) -> (r: Result<String, AppError>)
    ensures
        r is Ok,
        r matches Ok(t) ==> t@ == spec_token(secret@, user_id, exp) && is_token_text(t@),
{
    let sub = uuid_text(user_id);
    let payload = render_claims(sub.as_str(), exp);
    match jwt_encode(secret, payload.as_str()) {
        Ok(t) => Ok(t),
        Err(_) => Err(AppError::Unauthorized),
    }
}

/// Signs a token for user `user_id` valid for `ttl_hours` hours from now. It
/// fails only where the expiry falls outside the `i64` range (`Internal`).
pub fn sign_token(secret: &str, user_id: u128, ttl_hours: i64) -> (r: Result<String, AppError>)
    ensures
        r matches Ok(t) ==> exists|now: i64, exp: i64|
            #![trigger spec_token_expiry(now, ttl_hours), spec_token(secret@, user_id, exp)]
            spec_token_expiry(now, ttl_hours) == Some(exp) && t@ == spec_token(secret@, user_id, exp),
        r is Err ==> exists|now: i64| #[trigger] spec_token_expiry(now, ttl_hours) is None,
        r matches Err(e) ==> e is Internal,
{
    let now = now_unix_seconds();
    match token_expiry(now, ttl_hours) {
        None => Err(AppError::Internal(String::from_str("token expiry out of range"))),
        Some(exp) => sign_token_until(secret, user_id, exp),
    }
}

/// The claims a claims text gives: the claims text of a quote-free subject
/// and an expiry, whose subject is the text of a UUID.
pub open spec fn spec_claims_of(p: Seq<char>) -> Option<Claims> {
    if exists|s: Seq<char>, e: i64|
        quote_free(s) && p == #[trigger] claims_payload(s, e) && spec_uuid_parse(s) is Some {
        let (s, e) = choose|s: Seq<char>, e: i64|
            quote_free(s) && p == #[trigger] claims_payload(s, e) && spec_uuid_parse(s) is Some;
        Some(Claims { sub: spec_uuid_parse(s)->0, exp: e })
    } else {
        None
    }
}

/// The claims of a token whose signature is valid under `secret`, leaving
/// its expiry against the clock aside.
pub open spec fn spec_token_claims(secret: Seq<char>, token: Seq<char>) -> Option<Claims> {
    match spec_jwt_verified_claims(secret, token) {
        Some(p) => spec_claims_of(p),
        None => None,
    }
}

/// Reads the claims of a claims text; any other text is `Unauthorized`.
pub fn claims_of(payload: &str) -> (r: Result<Claims, AppError>)
    ensures
        spec_claims_of(payload@) matches Some(c) ==> r == Ok::<Claims, AppError>(c),
        spec_claims_of(payload@) is None ==> r == Err::<Claims, AppError>(AppError::Unauthorized),
        forall|id: u128, exp: i64|
            payload@ == #[trigger] claims_payload(spec_uuid_text(id), exp) ==> r == Ok::<
                Claims,
                AppError,
            >(Claims { sub: id, exp }),
{
    let (sub_text, exp) = match parse_claims(payload) {
        Some(c) => c,
        None => {
            proof {
                assert forall|id: u128, e: i64|
                    payload@ != #[trigger] claims_payload(spec_uuid_text(id), e) by {
                    lemma_uuid_text(id);
                }
            }
            return Err(AppError::Unauthorized);
        },
    };
    proof {
        assert forall|id: u128, e: i64|
            payload@ == #[trigger] claims_payload(spec_uuid_text(id), e) implies sub_text@
            == spec_uuid_text(id) && exp == e by {
            lemma_uuid_text(id);
        }
    }
    let sub = match uuid_parse(sub_text.as_str()) {
        Some(s) => s,
        None => {
            assert(!exists|s: Seq<char>, e: i64|
                quote_free(s) && payload@ == #[trigger] claims_payload(s, e) && spec_uuid_parse(
                    s,
                ) is Some);
            return Err(AppError::Unauthorized);
        },
    };
    assert(quote_free(sub_text@) && payload@ == claims_payload(sub_text@, exp) && spec_uuid_parse(
        sub_text@,
    ) is Some);
    let ghost w = choose|s: Seq<char>, e: i64|
        quote_free(s) && payload@ == #[trigger] claims_payload(s, e) && spec_uuid_parse(s) is Some;
    assert(w.0 == sub_text@ && w.1 == exp);
    Ok(Claims { sub, exp })
}

/// Checks a token's signature and expiry with the secret at time `now`
/// (Unix seconds) and reads its claims. The token is accepted exactly when
/// its signature is valid under `secret`, its claims are a user id and an
/// expiry, and the expiry is a non-negative time at most 60 seconds (the
/// decoder's default leeway) before `now`; any refusal is `Unauthorized`.
/// A token that `sign_token` made with the same secret for user `id` and
/// expiry `exp` is read as exactly those claims while it is valid.
pub fn parse_token_at(secret: &str, token: &str, now: i64) -> (r: Result<Claims, AppError>)
    ensures
        r is Err ==> r == Err::<Claims, AppError>(AppError::Unauthorized),
        r is Ok <==> (spec_token_claims(secret@, token@) is Some && spec_token_claims(
            secret@,
            token@,
        )->0.exp >= 0 && spec_token_claims(secret@, token@)->0.exp >= now - 60),
        r matches Ok(c) ==> spec_token_claims(secret@, token@) == Some(c),
        forall|id: u128, exp: i64|
            token@ == #[trigger] spec_token(secret@, id, exp) ==> (r is Ok <==> (exp >= 0 && exp
                >= now - 60)) && (r is Ok ==> r == Ok::<Claims, AppError>(Claims { sub: id, exp })),
{
    let payload = match jwt_decode(secret, token) {
        Ok(p) => p,
        Err(_) => {
            return Err(AppError::Unauthorized);
        },
    };
    let parsed = claims_of(payload.as_str());
    proof {
        assert forall|id: u128, e: i64| token@ == #[trigger] spec_token(secret@, id, e) implies parsed
            == Ok::<Claims, AppError>(Claims { sub: id, exp: e }) by {
            lemma_claims_of_token(id, e);
            let p = claims_payload(spec_uuid_text(id), e);
            assert(token@ == spec_jwt_encode(secret@, p));
            assert(payload@ == p);
        }
        assert(spec_jwt_verified_claims(secret@, token@) == Some(payload@));
    }
    let claims = match parsed {
        Ok(c) => c,
        Err(_) => {
            return Err(AppError::Unauthorized);
        },
    };
    if claims.exp < 0 || (now > 60 && claims.exp < now - 60) {
        return Err(AppError::Unauthorized);
    }
    Ok(claims)
}

/// Checks a token's signature and expiry with the secret against the clock
/// and reads its claims: `parse_token_at` at the current time. Any failure
/// answers `Unauthorized`; in particular a token whose signature is not
/// valid under `secret`, or whose claims are not a user id and an expiry, is
/// refused. Whether a token is still valid depends on the clock; a token
/// that `sign_token` made with the same secret for user `id` and expiry
/// `exp` is read as exactly those claims.
pub fn parse_token(secret: &str, token: &str) -> (r: Result<Claims, AppError>)
    ensures
        r is Err ==> r == Err::<Claims, AppError>(AppError::Unauthorized),
        r matches Ok(c) ==> spec_token_claims(secret@, token@) == Some(c),
        spec_token_claims(secret@, token@) is None ==> r == Err::<Claims, AppError>(
            AppError::Unauthorized,
        ),
        forall|id: u128, exp: i64|
            token@ == #[trigger] spec_token(secret@, id, exp) && r is Ok ==> r == Ok::<
                Claims,
                AppError,
            >(Claims { sub: id, exp }),
{
    parse_token_at(secret, token, now_unix_seconds())
}

/// The claims text of a user's token starts with `{` and ends with `}`.
pub proof fn lemma_claims_of_token(id: u128, exp: i64)
    ensures
        ({
            let p = claims_payload(spec_uuid_text(id), exp);
            p.len() > 0 && p[0] == '{' && p.last() == '}'
        }),
{
    reveal_strlit("{\"sub\":\"");
    reveal_strlit("}");
}

/// When the token expires (Unix seconds).
pub fn expiry_of(claims: &Claims) -> (r: i64)
    ensures
        r == claims.exp,
{
    claims.exp
}

} // verus!
