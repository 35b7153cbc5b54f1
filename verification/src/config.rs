//! Settings: the values read from `.env` and the environment, checked and
//! completed with their defaults.

use vstd::prelude::*;

use crate::error::AppError;
use crate::numeric::{parse_i64_in, spec_parse_i64};
use crate::text::{chars_eq_ignore_ascii_case, chars_of, eq_ignore_ascii_case};
use vstd::utf8::encode_utf8;

verus! {

/// Listening address when `APP_ADDR` is not set.
pub const DEFAULT_ADDR: &'static str = "127.0.0.1:3000";

/// Token lifetime in hours when `JWT_EXPIRATION_HOURS` is not set or not a number.
pub const DEFAULT_JWT_EXPIRATION_HOURS: i64 = 24;

/// Log level when `RUST_LOG` is not set.
pub const DEFAULT_LOG_LEVEL: &'static str = "info";

/// Shortest accepted `JWT_SECRET`, in bytes.
pub const MIN_JWT_SECRET_BYTES: usize = 16;

/// The service's settings.
#[derive(Debug, Clone)]
pub struct Settings {
    pub addr: String,
    pub database_url: String,
    pub jwt_secret: String,
    pub jwt_expiration_hours: i64,
    pub log_level: String,
    pub log_json: bool,
}

/// The variables that settings are read from, each `None` when unset or not
/// valid Unicode.
pub struct EnvValues {
    pub database_url: Option<String>,
    pub jwt_secret: Option<String>,
    pub app_addr: Option<String>,
    pub jwt_expiration_hours: Option<String>,
    pub rust_log: Option<String>,
    pub log_json: Option<String>,
}

/// A flag variable is on when it is `1` or, in any case, `true`.
pub open spec fn spec_env_flag(v: Option<Seq<char>>) -> bool {
    match v {
        Some(s) => s == "1"@ || eq_ignore_ascii_case(s, "true"@),
        None => false,
    }
}

/// The length of `s` in UTF-8 bytes, as `str::len` returns it.
pub open spec fn byte_len(s: Seq<char>) -> usize {
    encode_utf8(s).len() as usize
}

/// The view of an optional string.
pub open spec fn opt_view(v: Option<String>) -> Option<Seq<char>> {
    match v {
        Some(s) => Some(s@),
        None => None,
    }
}

/// The token lifetime that `JWT_EXPIRATION_HOURS` gives.
pub open spec fn spec_expiration_hours(v: Option<Seq<char>>) -> i64 {
    match v {
        Some(s) => match spec_parse_i64(s) {
            Some(h) => h,
            None => DEFAULT_JWT_EXPIRATION_HOURS,
        },
        None => DEFAULT_JWT_EXPIRATION_HOURS,
    }
}

/// `JWT_EXPIRATION_HOURS` read as the number `h` gives a lifetime of `h`
/// hours; unset or unreadable, it gives the default of 24 hours.
pub proof fn law_expiration_hours(v: Option<Seq<char>>)
    ensures
        (v matches Some(s) && spec_parse_i64(s) is Some) ==> spec_expiration_hours(v)
            == spec_parse_i64(v->0)->0,
        v is None || spec_parse_i64(v->0) is None ==> spec_expiration_hours(v) == 24,
{
}

/// Whether a flag variable with value `v` is on.
pub fn env_flag_value(v: Option<&str>) -> (r: bool)
    ensures
        r == spec_env_flag(match v { Some(s) => Some(s@), None => None }),
{
    match v {
        None => false,
        Some(s) => {
            let cs = chars_of(s);
            proof {
                reveal_strlit("1");
                reveal_strlit("true");
            }
            let is_one = cs.len() == 1 && cs[0] == '1';
            assert(is_one == (cs@ == "1"@)) by {
                if cs@.len() == 1 && cs@[0] == '1' {
                    assert(cs@ =~= "1"@);
                }
            }
            let truth = chars_of("true");
            is_one || chars_eq_ignore_ascii_case(&cs, &truth)
        },
    }
}

impl Settings {
    /// Checks and completes the settings: `DATABASE_URL` and `JWT_SECRET`
    /// are required, the secret needs at least 16 bytes, and the other
    /// variables fall back to their defaults.
    pub fn from_env_values(vars: EnvValues) -> (r: Result<Settings, AppError>)
        ensures
            vars.database_url is None ==> (r matches Err(AppError::Config(m)) && m@
                == "DATABASE_URL 未设置"@),
            vars.database_url is Some && vars.jwt_secret is None ==> (r matches Err(
                AppError::Config(m),
            ) && m@ == "JWT_SECRET 未设置"@),
            vars.database_url is Some && vars.jwt_secret is Some && byte_len(vars.jwt_secret->0@) < 16 ==> (r matches Err(AppError::Config(m)) && m@
                == "JWT_SECRET 长度至少 16 位"@),
            r is Ok <==> (vars.database_url is Some && vars.jwt_secret is Some && byte_len(vars.jwt_secret->0@) >= 16),
            r matches Ok(s) ==> {
                &&& s.database_url == vars.database_url->0
                &&& s.jwt_secret == vars.jwt_secret->0
                &&& s.addr@ == match vars.app_addr {
                    Some(a) => a@,
                    None => DEFAULT_ADDR@,
                }
                &&& s.jwt_expiration_hours == spec_expiration_hours(
                    opt_view(vars.jwt_expiration_hours),
                )
                &&& s.log_level@ == match vars.rust_log {
                    Some(l) => l@,
                    None => DEFAULT_LOG_LEVEL@,
                }
                &&& s.log_json == spec_env_flag(opt_view(vars.log_json))
            },
            r matches Ok(s) ==> ((vars.jwt_expiration_hours is Some && spec_parse_i64(
                vars.jwt_expiration_hours->0@,
            ) is Some) ==> s.jwt_expiration_hours == spec_parse_i64(
                vars.jwt_expiration_hours->0@,
            )->0),
            r matches Ok(s) ==> (vars.jwt_expiration_hours is None || spec_parse_i64(
                vars.jwt_expiration_hours->0@,
            ) is None ==> s.jwt_expiration_hours == 24),
    {
        let EnvValues { database_url, jwt_secret, app_addr, jwt_expiration_hours, rust_log, log_json } =
            vars;
        let database_url = match database_url {
            Some(u) => u,
            None => {
                return Err(AppError::Config(String::from_str("DATABASE_URL 未设置")));
            },
        };
        let jwt_secret = match jwt_secret {
            Some(s) => s,
            None => {
                return Err(AppError::Config(String::from_str("JWT_SECRET 未设置")));
            },
        };
        if jwt_secret.as_str().len() < MIN_JWT_SECRET_BYTES {
            return Err(AppError::Config(String::from_str("JWT_SECRET 长度至少 16 位")));
        }
        let addr = match app_addr {
            Some(a) => a,
            None => String::from_str(DEFAULT_ADDR),
        };
        let hours = match &jwt_expiration_hours {
            Some(h) => {
                let cs = chars_of(h.as_str());
                match parse_i64_in(&cs, 0, cs.len()) {
                    Some(v) => {
                        assert(cs@.subrange(0, cs@.len() as int) =~= h@);
                        v
                    },
                    None => {
                        assert(cs@.subrange(0, cs@.len() as int) =~= h@);
                        DEFAULT_JWT_EXPIRATION_HOURS
                    },
                }
            },
            None => DEFAULT_JWT_EXPIRATION_HOURS,
        };
        let log_level = match rust_log {
            Some(l) => l,
            None => String::from_str(DEFAULT_LOG_LEVEL),
        };
        let flag = match &log_json {
            Some(v) => env_flag_value(Some(v.as_str())),
            None => env_flag_value(None),
        };
        Ok(
            Settings {
                addr,
                database_url,
                jwt_secret,
                jwt_expiration_hours: hours,
                log_level,
                log_json: flag,
            },
        )
    }
}

} // verus!
