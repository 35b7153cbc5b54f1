//! User data: the stored row, the public view of it, and request and
//! response bodies.

use vstd::prelude::*;

use crate::validation::{
    check_length, failure_if, failures_of, fields_distinct, is_valid_email, is_valid_url,
    length_within, spec_email_valid, spec_url_valid, FieldError, FieldErrorView, Validate,
};

verus! {

/// A stored user, secret fields included. Ids are the 128-bit values of
/// UUIDs; times are microseconds since the Unix epoch.
#[derive(Debug, Clone, PartialEq, Eq)]
pub struct UserRow {
    pub id: u128,
    pub email: String,
    pub password_hash: String,
    pub nickname: String,
    pub avatar_url: Option<String>,
    /// 1 for an active account.
    pub status: i16,
    pub created_at: i64,
    pub updated_at: i64,
}

/// The user as shown to clients: the row without its password hash.
#[derive(Debug, Clone, PartialEq, Eq)]
pub struct User {
    pub id: u128,
    pub email: String,
    pub nickname: String,
    pub avatar_url: Option<String>,
    pub status: i16,
    pub created_at: i64,
    pub updated_at: i64,
}

impl From<UserRow> for User {
    fn from(row: UserRow) -> (r: Self)
        ensures
            r.id == row.id,
            r.email == row.email,
            r.nickname == row.nickname,
            r.avatar_url == row.avatar_url,
            r.status == row.status,
            r.created_at == row.created_at,
            r.updated_at == row.updated_at,
    {
        User {
            id: row.id,
            email: row.email,
            nickname: row.nickname,
            avatar_url: row.avatar_url,
            status: row.status,
            created_at: row.created_at,
            updated_at: row.updated_at,
        }
    }
}

impl vstd::std_specs::convert::FromSpecImpl<UserRow> for User {
    open spec fn obeys_from_spec() -> bool {
        true
    }

    open spec fn from_spec(row: UserRow) -> User {
        User {
            id: row.id,
            email: row.email,
            nickname: row.nickname,
            avatar_url: row.avatar_url,
            status: row.status,
            created_at: row.created_at,
            updated_at: row.updated_at,
        }
    }
}

/// The public view of a row.
pub open spec fn public_user(row: UserRow) -> User {
    <User as vstd::std_specs::convert::FromSpec<UserRow>>::from_spec(row)
}

/// The public view of a row keeps every field of the row but the password
/// hash, unchanged.
pub proof fn law_public_user_keeps_row(row: UserRow)
    ensures
        public_user(row).id == row.id,
        public_user(row).email == row.email,
        public_user(row).nickname == row.nickname,
        public_user(row).avatar_url == row.avatar_url,
        public_user(row).status == row.status,
        public_user(row).created_at == row.created_at,
        public_user(row).updated_at == row.updated_at,
{
}

/// A login body with a valid email and a password of 8 to 64 characters
/// fails no check; a password shorter than 8 or longer than 64 characters
/// fails the `password` check, whatever the email.
pub proof fn law_login_password_bounds(req: LoginRequest)
    ensures
        spec_email_valid(req.email@) && 8 <= req.password@.len() <= 64 ==> req.spec_failures().len()
            == 0,
        (req.password@.len() < 8 || req.password@.len() > 64) ==> exists|k: int|
            0 <= k < req.spec_failures().len() && (#[trigger] req.spec_failures()[k]).field
                == "password"@ && req.spec_failures()[k].code == "length"@,
        !spec_email_valid(req.email@) ==> req.spec_failures().len() > 0
            && req.spec_failures()[0].field == "email"@,
{
    let f = req.spec_failures();
    if req.password@.len() < 8 || req.password@.len() > 64 {
        assert(f[f.len() - 1].field == "password"@);
    }
}

/// A profile update whose nickname, where given, has 1 to 32 characters and
/// whose avatar address, where given, is a URL fails no check.
pub proof fn law_profile_update_bounds(req: UpdateProfileRequest)
    ensures
        (req.nickname is None || 1 <= req.nickname->0@.len() <= 32) && (req.avatar_url is None
            || spec_url_valid(req.avatar_url->0@)) ==> req.spec_failures().len() == 0,
{
}

/// A registration body with a valid email, a password of 8 to 64 characters
/// and a nickname of 1 to 32 characters fails no check.
pub proof fn law_register_bounds(req: RegisterRequest)
    ensures
        spec_email_valid(req.email@) && 8 <= req.password@.len() <= 64 && 1 <= req.nickname@.len()
            <= 32 ==> req.spec_failures().len() == 0,
{
}

/// A row to insert: what registration decided to store.
#[derive(Debug, Clone, PartialEq, Eq)]
pub struct NewUser {
    pub email: String,
    pub password_hash: String,
    pub nickname: String,
}

/// Registration request.
#[derive(Debug, Clone, PartialEq, Eq)]
pub struct RegisterRequest {
    pub email: String,
    pub password: String,
    pub nickname: String,
}

/// Login request.
#[derive(Debug, Clone, PartialEq, Eq)]
pub struct LoginRequest {
    pub email: String,
    pub password: String,
}

/// Profile update: a field left out stays as it is.
#[derive(Debug, Clone, PartialEq, Eq)]
pub struct UpdateProfileRequest {
    pub nickname: Option<String>,
    pub avatar_url: Option<String>,
}

/// Answer to a registration or login: the token, when it expires (Unix
/// seconds), and the user.
#[derive(Debug, Clone, PartialEq, Eq)]
pub struct AuthResponse {
    pub token: String,
    pub expires_at: i64,
    pub user: User,
}

/// The numeric parameters of a `length` check of `min` to `max` characters.
pub open spec fn length_params(min: u64, max: u64) -> Seq<(Seq<char>, u64)> {
    seq![("min"@, min), ("max"@, max)]
}

/// The text parameters of a check that `text` failed.
pub open spec fn value_params(text: Seq<char>) -> Seq<(Seq<char>, Seq<char>)> {
    seq![("value"@, text)]
}

pub open spec fn email_failure(email: Seq<char>) -> FieldErrorView {
    FieldErrorView {
        field: "email"@,
        code: "email"@,
        message: Some("邮箱格式不正确"@),
        int_params: Seq::empty(),
        text_params: value_params(email),
    }
}

pub open spec fn register_password_failure(password: Seq<char>) -> FieldErrorView {
    FieldErrorView {
        field: "password"@,
        code: "length"@,
        message: Some("密码长度需为 8-64 位"@),
        int_params: length_params(8, 64),
        text_params: value_params(password),
    }
}

pub open spec fn login_password_failure(password: Seq<char>) -> FieldErrorView {
    FieldErrorView {
        field: "password"@,
        code: "length"@,
        message: None,
        int_params: length_params(8, 64),
        text_params: value_params(password),
    }
}

pub open spec fn nickname_failure(nickname: Seq<char>) -> FieldErrorView {
    FieldErrorView {
        field: "nickname"@,
        code: "length"@,
        message: Some("昵称长度需为 1-32 位"@),
        int_params: length_params(1, 32),
        text_params: value_params(nickname),
    }
}

pub open spec fn avatar_failure(url: Seq<char>) -> FieldErrorView {
    FieldErrorView {
        field: "avatar_url"@,
        code: "url"@,
        message: Some("头像地址需为合法 URL"@),
        int_params: Seq::empty(),
        text_params: value_params(url),
    }
}

/// Failures of three different fields, each present or not, name each field
/// once.
proof fn lemma_three_fields_distinct(
    a: FieldErrorView,
    b: FieldErrorView,
    c: FieldErrorView,
    fa: bool,
    fb: bool,
    fc: bool,
)
    requires
        a.field != b.field,
        a.field != c.field,
        b.field != c.field,
    ensures
        fields_distinct(failure_if(fa, a) + failure_if(fb, b) + failure_if(fc, c)),
{
    let ab = failure_if(fa, a) + failure_if(fb, b);
    let f = ab + failure_if(fc, c);
    assert forall|i: int, j: int| 0 <= i < j < f.len() implies #[trigger] f[i].field
        != #[trigger] f[j].field by {
        assert(forall|k: int| 0 <= k < ab.len() ==> #[trigger] ab[k] == a || ab[k] == b);
        assert(forall|k: int| 0 <= k < f.len() ==> (#[trigger] f[k] == a || f[k] == b || f[k] == c));
        if fa {
            assert(f[0] == a);
        }
        if fa && fb {
            assert(f[1] == b);
        }
        if fc {
            assert(f[f.len() - 1] == c);
        }
    }
}

/// The field names differ.
proof fn lemma_field_names_differ()
    ensures
        "email"@ != "password"@,
        "email"@ != "nickname"@,
        "password"@ != "nickname"@,
        "nickname"@ != "avatar_url"@,
        "avatar_url"@ != "email"@,
{
    reveal_strlit("email");
    reveal_strlit("password");
    reveal_strlit("nickname");
    reveal_strlit("avatar_url");
    assert("password"@[0] != "nickname"@[0]);
    assert("avatar_url"@.len() != "email"@.len());
}

fn length_bounds(min: u64, max: u64) -> (r: Vec<(&'static str, u64)>)
    ensures
        r@.map_values(|p: (&'static str, u64)| (p.0@, p.1)) == length_params(min, max),
{
    let r = vec![("min", min), ("max", max)];
    assert(r@.map_values(|p: (&'static str, u64)| (p.0@, p.1)) =~= length_params(min, max));
    r
}

fn failed_value(text: &String) -> (r: Vec<(&'static str, String)>)
    ensures
        r@.map_values(|p: (&'static str, String)| (p.0@, p.1@)) == value_params(text@),
{
    let r = vec![("value", text.clone())];
    assert(r@.map_values(|p: (&'static str, String)| (p.0@, p.1@)) =~= value_params(text@));
    r
}

fn email_error(email: &String) -> (e: FieldError)
    ensures
        e@ == email_failure(email@),
{
    let e = FieldError {
        field: "email",
        code: "email",
        message: Some("邮箱格式不正确"),
        int_params: Vec::new(),
        text_params: failed_value(email),
    };
    assert(e@.int_params =~= Seq::<(Seq<char>, u64)>::empty());
    e
}

fn nickname_error(nickname: &String) -> (e: FieldError)
    ensures
        e@ == nickname_failure(nickname@),
{
    FieldError {
        field: "nickname",
        code: "length",
        message: Some("昵称长度需为 1-32 位"),
        int_params: length_bounds(1, 32),
        text_params: failed_value(nickname),
    }
}

fn password_length_error(password: &String, message: Option<&'static str>) -> (e: FieldError)
    ensures
        e.field@ == "password"@,
        e.code@ == "length"@,
        e.message == message,
        e@.int_params == length_params(8, 64),
        e@.text_params == value_params(password@),
{
    FieldError {
        field: "password",
        code: "length",
        message,
        int_params: length_bounds(8, 64),
        text_params: failed_value(password),
    }
}

impl Validate for RegisterRequest {
    /// A valid email, a password of 8 to 64 characters and a nickname of 1 to
    /// 32 characters.
    open spec fn spec_failures(&self) -> Seq<FieldErrorView> {
        failure_if(!spec_email_valid(self.email@), email_failure(self.email@)) + failure_if(
            !length_within(self.password@, 8, 64),
            register_password_failure(self.password@),
        ) + failure_if(!length_within(self.nickname@, 1, 32), nickname_failure(self.nickname@))
    }

    fn field_errors(&self) -> (r: Vec<FieldError>) {
        let mut errors: Vec<FieldError> = Vec::new();
        if !is_valid_email(self.email.as_str()) {
            errors.push(email_error(&self.email));
        }
        let ghost a = failures_of(errors@);
        assert(a =~= failure_if(!spec_email_valid(self.email@), email_failure(self.email@)));
        if !check_length(self.password.as_str(), 8, 64) {
            let e = password_length_error(&self.password, Some("密码长度需为 8-64 位"));
            assert(e@ == register_password_failure(self.password@));
            errors.push(e);
        }
        let ghost b = failures_of(errors@);
        assert(b =~= a + failure_if(
            !length_within(self.password@, 8, 64),
            register_password_failure(self.password@),
        ));
        if !check_length(self.nickname.as_str(), 1, 32) {
            errors.push(nickname_error(&self.nickname));
        }
        assert(failures_of(errors@) =~= b + failure_if(
            !length_within(self.nickname@, 1, 32),
            nickname_failure(self.nickname@),
        ));
        proof {
            lemma_field_names_differ();
            lemma_three_fields_distinct(
                email_failure(self.email@),
                register_password_failure(self.password@),
                nickname_failure(self.nickname@),
                !spec_email_valid(self.email@),
                !length_within(self.password@, 8, 64),
                !length_within(self.nickname@, 1, 32),
            );
        }
        errors
    }
}

impl Validate for LoginRequest {
    /// A valid email and a password of 8 to 64 characters.
    open spec fn spec_failures(&self) -> Seq<FieldErrorView> {
        failure_if(!spec_email_valid(self.email@), email_failure(self.email@)) + failure_if(
            !length_within(self.password@, 8, 64),
            login_password_failure(self.password@),
        )
    }

    fn field_errors(&self) -> (r: Vec<FieldError>) {
        let mut errors: Vec<FieldError> = Vec::new();
        if !is_valid_email(self.email.as_str()) {
            errors.push(email_error(&self.email));
        }
        let ghost a = failures_of(errors@);
        assert(a =~= failure_if(!spec_email_valid(self.email@), email_failure(self.email@)));
        if !check_length(self.password.as_str(), 8, 64) {
            let e = password_length_error(&self.password, None);
            assert(e@ == login_password_failure(self.password@));
            errors.push(e);
        }
        assert(failures_of(errors@) =~= a + failure_if(
            !length_within(self.password@, 8, 64),
            login_password_failure(self.password@),
        ));
        proof {
            let nf = nickname_failure(Seq::empty());
            lemma_field_names_differ();
            lemma_three_fields_distinct(
                email_failure(self.email@),
                login_password_failure(self.password@),
                nf,
                !spec_email_valid(self.email@),
                !length_within(self.password@, 8, 64),
                false,
            );
            assert(self.spec_failures() =~= failure_if(
                !spec_email_valid(self.email@),
                email_failure(self.email@),
            ) + failure_if(
                !length_within(self.password@, 8, 64),
                login_password_failure(self.password@),
            ) + failure_if(false, nf));
        }
        errors
    }
}

impl Validate for UpdateProfileRequest {
    /// A nickname, where given, of 1 to 32 characters, and an avatar address,
    /// where given, that is a URL.
    open spec fn spec_failures(&self) -> Seq<FieldErrorView> {
        failure_if(
            self.nickname matches Some(n) && !length_within(n@, 1, 32),
            nickname_failure(self.nickname->0@),
        ) + failure_if(
            self.avatar_url matches Some(u) && !spec_url_valid(u@),
            avatar_failure(self.avatar_url->0@),
        )
    }

    fn field_errors(&self) -> (r: Vec<FieldError>) {
        let mut errors: Vec<FieldError> = Vec::new();
        if let Some(n) = &self.nickname {
            if !check_length(n.as_str(), 1, 32) {
                errors.push(nickname_error(n));
            }
        }
        let ghost a = failures_of(errors@);
        assert(a =~= failure_if(
            self.nickname matches Some(n) && !length_within(n@, 1, 32),
            nickname_failure(self.nickname->0@),
        ));
        if let Some(u) = &self.avatar_url {
            if !is_valid_url(u.as_str()) {
                let e = FieldError {
                    field: "avatar_url",
                    code: "url",
                    message: Some("头像地址需为合法 URL"),
                    int_params: Vec::new(),
                    text_params: failed_value(u),
                };
                assert(e@.int_params =~= Seq::<(Seq<char>, u64)>::empty());
                assert(e@ == avatar_failure(u@));
                errors.push(e);
            }
        }
        assert(failures_of(errors@) =~= a + failure_if(
            self.avatar_url matches Some(u) && !spec_url_valid(u@),
            avatar_failure(self.avatar_url->0@),
        ));
        proof {
            let ef = email_failure(Seq::empty());
            lemma_field_names_differ();
            let fa = self.nickname is Some && !length_within(self.nickname->0@, 1, 32);
            let fb = self.avatar_url is Some && !spec_url_valid(self.avatar_url->0@);
            lemma_three_fields_distinct(
                nickname_failure(self.nickname->0@),
                avatar_failure(self.avatar_url->0@),
                ef,
                fa,
                fb,
                false,
            );
            assert(self.spec_failures() =~= failure_if(fa, nickname_failure(self.nickname->0@))
                + failure_if(fb, avatar_failure(self.avatar_url->0@)) + failure_if(false, ef));
        }
        errors
    }
}

} // verus!
