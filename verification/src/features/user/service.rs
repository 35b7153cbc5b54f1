//! The decisions of registration and login, between the storage steps that
//! the service performs around them: look the email up, decide, store.

use vstd::prelude::*;

use super::model::{public_user, AuthResponse, LoginRequest, NewUser, RegisterRequest, User, UserRow};
use crate::error::AppError;
use crate::security::{
    argon2_hash, expiry_of, generate_salt, is_argon2id_phc, is_salt_text, is_token_text, max_password_bytes,
    now_unix_seconds, parse_token_at, password_error_text, sign_token_until, spec_argon2_hash,
    spec_argon2_verify, spec_token, spec_token_claims, spec_token_expiry, token_expiry,
    verify_password, Claims,
};
use vstd::utf8::encode_utf8;

verus! {

/// The description of a hashing failure: `password error: ` and the
/// failure's text.
pub open spec fn is_password_error_text(m: Seq<char>) -> bool {
    m.len() >= 16 && m.take(16) == "password error: "@
}

/// Status of an active account.
pub const ACTIVE_STATUS: i16 = 1;

/// How a login attempt is judged.
#[derive(Debug, Clone, Copy, PartialEq, Eq)]
pub enum LoginVerdict {
    /// The account exists, the password matches and the account is active.
    Accept,
    /// No account has the email, or the password does not match.
    WrongCredentials,
    /// The password matches but the account is disabled.
    Disabled,
    /// The stored hash is not a PHC string.
    BadHash,
}

/// The verdict on a login with `password` for the account `found` by email.
/// A missing account and a wrong password are judged alike, so that the
/// answer does not tell which emails are registered.
pub open spec fn login_verdict(found: Option<UserRow>, password: Seq<char>) -> LoginVerdict {
    match found {
        None => LoginVerdict::WrongCredentials,
        Some(row) => match spec_argon2_verify(password, row.password_hash@) {
            None => LoginVerdict::BadHash,
            Some(false) => LoginVerdict::WrongCredentials,
            Some(true) => if row.status != ACTIVE_STATUS {
                LoginVerdict::Disabled
            } else {
                LoginVerdict::Accept
            },
        },
    }
}

fn password_error(e: &argon2::password_hash::Error) -> (r: AppError)
    ensures
        r matches AppError::Internal(m) && is_password_error_text(m@),
{
    let m = String::from_str("password error: ").concat(password_error_text(e).as_str());
    proof {
        reveal_strlit("password error: ");
        assert(m@.take(16) =~= "password error: "@);
    }
    AppError::Internal(m)
}

/// Decides a registration with the given salt, once the email has been
/// looked up: a registered email is a `Conflict`; otherwise the row to store
/// has the email, the nickname and the argon2 hash of the password.
pub fn decide_registration_with_salt(existing: &Option<UserRow>, req: RegisterRequest, salt: &str) -> (r:
    Result<NewUser, AppError>)
    ensures
        existing is Some ==> (r matches Err(AppError::Conflict(m)) && m@ == "email already registered"@),
        existing is None && spec_argon2_hash(req.password@, salt@) is None ==> (r matches Err(
            AppError::Internal(m)) && is_password_error_text(m@)),
        existing is None && is_salt_text(salt@) ==> (r is Ok <==> encode_utf8(req.password@).len()
            <= max_password_bytes()),
        existing is None && spec_argon2_hash(req.password@, salt@) is Some ==> (r matches Ok(n) && n.email
            == req.email && n.nickname == req.nickname && n.password_hash@ == spec_argon2_hash(
            req.password@,
            salt@,
        )->0),
        r matches Ok(n) ==> spec_argon2_verify(req.password@, n.password_hash@) == Some(true),
        r matches Ok(n) ==> is_argon2id_phc(n.password_hash@),
{
    if existing.is_some() {
        return Err(AppError::Conflict(String::from_str("email already registered")));
    }
    let RegisterRequest { email, password, nickname } = req;
    match argon2_hash(password.as_str(), salt) {
        Ok(password_hash) => Ok(NewUser { email, password_hash, nickname }),
        Err(e) => Err(password_error(&e)),
    }
}

/// Decides a registration once the email has been looked up, hashing the
/// password with a fresh random salt.
pub fn decide_registration(existing: &Option<UserRow>, req: RegisterRequest) -> (r: Result<
    NewUser,
    AppError,
>)
    ensures
        existing is Some ==> (r matches Err(AppError::Conflict(m)) && m@ == "email already registered"@),
        existing is None ==> (r is Ok <==> encode_utf8(req.password@).len() <= max_password_bytes()),
        existing is None ==> (r matches Err(AppError::Internal(m)) ==> is_password_error_text(m@)),
        existing is None && r is Err ==> r->Err_0 is Internal,
        r matches Ok(n) ==> n.email == req.email && n.nickname == req.nickname,
        r matches Ok(n) ==> spec_argon2_verify(req.password@, n.password_hash@) == Some(true),
        r matches Ok(n) ==> is_argon2id_phc(n.password_hash@),
        r matches Ok(n) ==> (!is_argon2id_phc(req.password@) ==> n.password_hash@ != req.password@),
        r matches Ok(n) ==> exists|salt: Seq<char>| #[trigger] spec_argon2_hash(req.password@, salt)
            == Some(n.password_hash@),
{
    if existing.is_some() {
        return Err(AppError::Conflict(String::from_str("email already registered")));
    }
    let salt = generate_salt();
    decide_registration_with_salt(existing, req, salt.as_str())
}

/// Decides a login once the email has been looked up: the verdict of
/// `login_verdict`, answered as `Ok` with the public user, `InvalidCredentials`,
/// `BadRequest("account is disabled")` or `Internal`.
pub fn decide_login(found: Option<UserRow>, req: &LoginRequest) -> (r: Result<User, AppError>)
    ensures
        login_verdict(found, req.password@) is Accept ==> r == Ok::<User, AppError>(public_user(found->0)),
        login_verdict(found, req.password@) is WrongCredentials ==> r == Err::<User, AppError>(
            AppError::InvalidCredentials,
        ),
        login_verdict(found, req.password@) is Disabled ==> (r matches Err(AppError::BadRequest(m))
            && m@ == "account is disabled"@),
        login_verdict(found, req.password@) is BadHash ==> (r matches Err(AppError::Internal(m))
            && is_password_error_text(m@)),
{
    let row = match found {
        Some(row) => row,
        None => {
            return Err(AppError::InvalidCredentials);
        },
    };
    let matches = match verify_password(req.password.as_str(), row.password_hash.as_str()) {
        Ok(b) => b,
        Err(e) => {
            return Err(password_error(&e));
        },
    };
    if !matches {
        return Err(AppError::InvalidCredentials);
    }
    if row.status != ACTIVE_STATUS {
        return Err(AppError::BadRequest(String::from_str("account is disabled")));
    }
    Ok(User::from(row))
}

/// Issues the token of `user` at time `now` (Unix seconds), valid for
/// `ttl_hours` hours, reads it back, and answers with the token, its expiry
/// and the user. An expiry beyond the `i64` range is `Internal`; a token the
/// library cannot sign or that does not read back (one already expired,
/// say) is `Unauthorized`.
pub fn issue_token_at(user: User, secret: &str, ttl_hours: i64, now: i64) -> (r: Result<
    AuthResponse,
    AppError,
>)
    ensures
        spec_token_expiry(now, ttl_hours) is None ==> (r matches Err(AppError::Internal(_))),
        spec_token_expiry(now, ttl_hours) is Some ==> !(r matches Err(AppError::Internal(_))),
        r matches Ok(resp) ==> {
            &&& resp.user == user
            &&& spec_token_expiry(now, ttl_hours) == Some(resp.expires_at)
            &&& resp.token@ == spec_token(secret@, user.id, resp.expires_at)
            &&& spec_token_claims(secret@, resp.token@) == Some(
                Claims { sub: user.id, exp: resp.expires_at },
            )
            &&& is_token_text(resp.token@)
        },
        r is Err ==> r->Err_0 is Unauthorized || r->Err_0 is Internal,
        r matches Ok(resp) ==> resp.expires_at == now + ttl_hours * 3600,
        i64::MIN <= ttl_hours * 3600 <= i64::MAX && i64::MIN <= now + ttl_hours * 3600 <= i64::MAX
            ==> (r is Ok <==> (now + ttl_hours * 3600 >= 0 && ttl_hours >= 0)),
{
    let exp = match token_expiry(now, ttl_hours) {
        Some(e) => e,
        None => {
            return Err(AppError::Internal(String::from_str("token expiry out of range")));
        },
    };
    let token = sign_token_until(secret, user.id, exp)?;
    let claims = parse_token_at(secret, token.as_str(), now)?;
    assert(claims == Claims { sub: user.id, exp });
    Ok(AuthResponse { token, expires_at: expiry_of(&claims), user })
}

/// Issues the token of `user`, valid for `ttl_hours` hours from now: its
/// expiry is `ttl_hours` hours after the time of issue.
pub fn issue_token(user: User, secret: &str, ttl_hours: i64) -> (r: Result<AuthResponse, AppError>)
    ensures
        r matches Ok(resp) ==> resp.user == user && resp.token@ == spec_token(
            secret@,
            user.id,
            resp.expires_at,
        ) && is_token_text(resp.token@) && spec_token_claims(secret@, resp.token@) == Some(
            Claims { sub: user.id, exp: resp.expires_at },
        ),
        r matches Ok(resp) ==> exists|now: i64| #[trigger] spec_token_expiry(now, ttl_hours) == Some(
            resp.expires_at,
        ),
        r matches Err(AppError::Internal(_)) ==> exists|now: i64| #[trigger] spec_token_expiry(
            now,
            ttl_hours,
        ) is None,
        r is Err ==> r->Err_0 is Unauthorized || r->Err_0 is Internal,
{
    let now = now_unix_seconds();
    issue_token_at(user, secret, ttl_hours, now)
}

/// Registration then login: the row stored from a registration, while its
/// account is active, accepts the password it was registered with.
pub proof fn law_registered_password_logs_in(new: NewUser, row: UserRow, password: Seq<char>)
    requires
        spec_argon2_verify(password, new.password_hash@) == Some(true),
        row.password_hash == new.password_hash,
        row.status == ACTIVE_STATUS,
    ensures
        login_verdict(Some(row), password) == LoginVerdict::Accept,
{
}

/// A login for an email that has no account is answered exactly as a login
/// with a wrong password for one that has.
pub proof fn law_unknown_email_and_wrong_password_answer_alike(row: UserRow, password: Seq<char>)
    requires
        spec_argon2_verify(password, row.password_hash@) == Some(false),
    ensures
        login_verdict(None, password) == login_verdict(Some(row), password),
        login_verdict(None, password) == LoginVerdict::WrongCredentials,
{
}

/// A disabled account never logs in, whatever the password.
pub proof fn law_disabled_account_never_logs_in(row: UserRow, password: Seq<char>)
    requires
        row.status != ACTIVE_STATUS,
    ensures
        login_verdict(Some(row), password) != LoginVerdict::Accept,
{
}

} // verus!
