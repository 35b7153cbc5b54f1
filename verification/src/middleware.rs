//! Bearer-token authentication: read the `Authorization` header, check the
//! token, and name the user it was issued to.

use vstd::prelude::*;

use crate::error::AppError;
use crate::security::{
    is_token_text, now_unix_seconds, parse_token_at, spec_token, spec_token_claims,
};
use crate::text::{char_from_ascii, push_char};

verus! {

/// A byte that a header value may hold for `HeaderValue::to_str` to accept
/// it: visible ASCII or a tab.
pub open spec fn is_visible_ascii(b: u8) -> bool {
    (32 <= b && b < 127) || b == 9
}

/// The bytes `Bearer ` (with its space).
pub open spec fn bearer_prefix() -> Seq<u8> {
    seq![66u8, 101u8, 97u8, 114u8, 101u8, 114u8, 32u8]
}

/// The characters of ASCII bytes.
pub open spec fn ascii_chars(b: Seq<u8>) -> Seq<char> {
    b.map_values(|x: u8| x as char)
}

/// The bytes of ASCII characters.
pub open spec fn ascii_bytes(s: Seq<char>) -> Seq<u8> {
    s.map_values(|c: char| c as u8)
}

/// The view of an optional header value.
pub open spec fn header_view(value: Option<&[u8]>) -> Option<Seq<u8>> {
    match value {
        Some(b) => Some(b@),
        None => None,
    }
}

/// The token of an `Authorization` header: the header is text (every byte
/// visible ASCII or a tab), starts with `Bearer ` and has something after it.
pub open spec fn spec_bearer_token(value: Option<Seq<u8>>) -> Option<Seq<char>> {
    match value {
        None => None,
        Some(b) => if (forall|i: int| 0 <= i < b.len() ==> is_visible_ascii(#[trigger] b[i]))
            && b.len() > 7 && b.take(7) == bearer_prefix() {
            Some(ascii_chars(b.skip(7)))
        } else {
            None
        },
    }
}

/// The view of an optional string.
pub open spec fn opt_text(s: Option<String>) -> Option<Seq<char>> {
    match s {
        Some(t) => Some(t@),
        None => None,
    }
}

/// Whether `b` starts with the bytes `Bearer `.
fn has_bearer_prefix(b: &[u8]) -> (r: bool)
    ensures
        r == (b@.len() >= 7 && b@.take(7) == bearer_prefix()),
{
    let prefix: [u8; 7] = [66, 101, 97, 114, 101, 114, 32];
    assert(prefix@ =~= bearer_prefix());
    if b.len() < 7 {
        return false;
    }
    let mut i: usize = 0;
    while i < 7
        invariant
            b@.len() >= 7,
            prefix@ == bearer_prefix(),
            0 <= i <= 7,
            forall|j: int| 0 <= j < i ==> #[trigger] b@[j] == prefix@[j],
        decreases 7 - i,
    {
        if b[i] != prefix[i] {
            assert(b@.take(7)[i as int] != bearer_prefix()[i as int]);
            return false;
        }
        i = i + 1;
    }
    assert(b@.take(7) =~= bearer_prefix());
    true
}

/// Reads the bearer token of an `Authorization` header value.
pub fn bearer_token(value: Option<&[u8]>) -> (r: Option<String>)
    ensures
        opt_text(r) == spec_bearer_token(header_view(value)),
{
    let b = match value {
        Some(b) => b,
        None => {
            return None;
        },
    };
    let mut i: usize = 0;
    while i < b.len()
        invariant
            0 <= i <= b@.len(),
            header_view(value) == Some(b@),
            forall|j: int| 0 <= j < i ==> is_visible_ascii(#[trigger] b@[j]),
        decreases b@.len() - i,
    {
        let x = b[i];
        if !((32 <= x && x < 127) || x == 9) {
            assert(!is_visible_ascii(b@[i as int]));
            return None;
        }
        i = i + 1;
    }
    if b.len() <= 7 || !has_bearer_prefix(b) {
        return None;
    }
    assert(b@.take(7) =~= bearer_prefix());
    let mut s = String::new();
    let mut k: usize = 7;
    while k < b.len()
        invariant
            7 <= k <= b@.len(),
            forall|j: int| 0 <= j < b@.len() ==> is_visible_ascii(#[trigger] b@[j]),
            s@ == ascii_chars(b@.subrange(7, k as int)),
        decreases b@.len() - k,
    {
        assert(is_visible_ascii(b@[k as int]));
        let c = char_from_ascii(b[k]);
        push_char(&mut s, c);
        assert(ascii_chars(b@.subrange(7, k + 1)) =~= ascii_chars(b@.subrange(7, k as int)).push(
            b@[k as int] as char,
        ));
        k = k + 1;
    }
    assert(b@.subrange(7, b@.len() as int) =~= b@.skip(7));
    Some(s)
}

/// Authenticates a request by its `Authorization` header at time `now`
/// (Unix seconds): it succeeds, with the user the token names, exactly when
/// the header carries a bearer token whose signature is valid under `secret`,
/// whose claims are a user and an expiry, and whose expiry is a non-negative
/// time at most 60 seconds before `now`. Every failure is `Unauthorized`.
pub fn authenticate_at(header: Option<&[u8]>, secret: &str, now: i64) -> (r: Result<u128, AppError>)
    ensures
        r is Err ==> r == Err::<u128, AppError>(AppError::Unauthorized),
        r is Ok <==> ({
            let t = spec_bearer_token(header_view(header));
            &&& t is Some
            &&& spec_token_claims(secret@, t->0) is Some
            &&& spec_token_claims(secret@, t->0)->0.exp >= 0
            &&& spec_token_claims(secret@, t->0)->0.exp >= now - 60
        }),
        r is Ok ==> r->Ok_0 == spec_token_claims(
            secret@,
            spec_bearer_token(header_view(header))->0,
        )->0.sub,
        forall|id: u128, exp: i64|
            spec_bearer_token(header_view(header)) == Some(#[trigger] spec_token(secret@, id, exp))
                ==> (exp >= 0 && exp >= now - 60 ==> r == Ok::<u128, AppError>(id)) && (!(exp >= 0
                && exp >= now - 60) ==> r == Err::<u128, AppError>(AppError::Unauthorized)),
{
    let token = match bearer_token(header) {
        Some(t) => t,
        None => {
            return Err(AppError::Unauthorized);
        },
    };
    let claims = parse_token_at(secret, token.as_str(), now)?;
    Ok(claims.sub)
}

/// Authenticates a request by its `Authorization` header against the clock:
/// `authenticate_at` at the current time. The bearer token must be a valid
/// token signed with `secret`, and the user it names is the answer. Every
/// failure is `Unauthorized`: a header without a bearer token, a token whose
/// signature is not valid under `secret` or whose claims are not a user and
/// an expiry, and a token past its expiry.
pub fn authenticate(header: Option<&[u8]>, secret: &str) -> (r: Result<u128, AppError>)
    ensures
        r is Err ==> r == Err::<u128, AppError>(AppError::Unauthorized),
        spec_bearer_token(header_view(header)) is None ==> r is Err,
        spec_bearer_token(header_view(header)) is Some && spec_token_claims(
            secret@,
            spec_bearer_token(header_view(header))->0,
        ) is None ==> r == Err::<u128, AppError>(AppError::Unauthorized),
        r is Ok ==> spec_bearer_token(header_view(header)) is Some && spec_token_claims(
            secret@,
            spec_bearer_token(header_view(header))->0,
        ) is Some && spec_token_claims(secret@, spec_bearer_token(header_view(header))->0)->0.sub
            == r->Ok_0,
        forall|id: u128, exp: i64|
            spec_bearer_token(header_view(header)) == Some(#[trigger] spec_token(secret@, id, exp))
                && r is Ok ==> r == Ok::<u128, AppError>(id),
{
    authenticate_at(header, secret, now_unix_seconds())
}

/// A token sent as `Authorization: Bearer <token>` is read back as the
/// same token.
pub proof fn law_bearer_header_carries_token(t: Seq<char>)
    requires
        is_token_text(t),
    ensures
        spec_bearer_token(Some(bearer_prefix() + ascii_bytes(t))) == Some(t),
{
    let b = bearer_prefix() + ascii_bytes(t);
    assert(b.take(7) =~= bearer_prefix());
    assert forall|i: int| 0 <= i < b.len() implies is_visible_ascii(#[trigger] b[i]) by {
        if i >= 7 {
            assert(b[i] == t[i - 7] as u8);
            assert(crate::security::is_token_char(t[i - 7]));
        }
    }
    assert(ascii_chars(b.skip(7)) =~= t) by {
        assert forall|i: int| 0 <= i < t.len() implies ascii_chars(b.skip(7))[i] == t[i] by {
            assert(crate::security::is_token_char(t[i]));
        }
    }
}

} // verus!
