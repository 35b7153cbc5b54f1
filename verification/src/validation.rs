//! Field validation of request bodies: which fields fail, and the
//! `Validation` error that reports them.

use vstd::prelude::*;

use crate::error::AppError;

verus! {

/// One failed check of one field.
#[derive(Debug, Clone, PartialEq, Eq)]
pub struct FieldError {
    /// The field's name.
    pub field: &'static str,
    /// The check that failed: `email`, `length` or `url`.
    pub code: &'static str,
    /// The message the check was declared with, if any.
    pub message: Option<&'static str>,
    /// The check's numeric parameters by name (the bounds of a `length`
    /// check: `min`, `max`).
    pub int_params: Vec<(&'static str, u64)>,
    /// The check's text parameters by name (`value`: the text that failed).
    pub text_params: Vec<(&'static str, String)>,
}

/// A failed check, as text.
pub struct FieldErrorView {
    pub field: Seq<char>,
    pub code: Seq<char>,
    pub message: Option<Seq<char>>,
    pub int_params: Seq<(Seq<char>, u64)>,
    pub text_params: Seq<(Seq<char>, Seq<char>)>,
}

impl View for FieldError {
    type V = FieldErrorView;

    open spec fn view(&self) -> FieldErrorView {
        FieldErrorView {
            field: self.field@,
            code: self.code@,
            message: match self.message {
                Some(m) => Some(m@),
                None => None,
            },
            int_params: self.int_params@.map_values(|p: (&'static str, u64)| (p.0@, p.1)),
            text_params: self.text_params@.map_values(|p: (&'static str, String)| (p.0@, p.1@)),
        }
    }
}

/// The failures of a list of checks, in order.
pub open spec fn failures_of(errors: Seq<FieldError>) -> Seq<FieldErrorView> {
    errors.map_values(|e: FieldError| e@)
}

/// `e` when `failed`, nothing otherwise.
pub open spec fn failure_if(failed: bool, e: FieldErrorView) -> Seq<FieldErrorView> {
    if failed {
        seq![e]
    } else {
        Seq::empty()
    }
}

/// Whether `validator` accepts `text` as an email address.
pub uninterp spec fn spec_email_valid(text: Seq<char>) -> bool;

/// Whether `validator` accepts `text` as a URL (`url::Url::parse` succeeds).
pub uninterp spec fn spec_url_valid(text: Seq<char>) -> bool;

/// `ValidateEmail::validate_email` of the `validator` crate. Claims only that
/// the answer is the named one.
#[verifier::external_body]
pub(crate) fn is_valid_email(text: &str) -> (r: bool)
    ensures
        r == spec_email_valid(text@),
{
    validator::ValidateEmail::validate_email(&text)
}

/// `ValidateUrl::validate_url` of the `validator` crate. Claims only that the
/// answer is the named one.
#[verifier::external_body]
pub(crate) fn is_valid_url(text: &str) -> (r: bool)
    ensures
        r == spec_url_valid(text@),
{
    validator::ValidateUrl::validate_url(text)
}

/// `needle` occurs in `text`.
pub open spec fn occurs_in(text: Seq<char>, needle: Seq<char>) -> bool {
    exists|i: int| 0 <= i && i + needle.len() <= text.len() && #[trigger] text.subrange(i, i + needle.len()) == needle
}

/// How the line that reports a failure begins: `field: message` where the
/// check has a message; else `field: Validation error: code [`, which the
/// check's parameters follow.
pub open spec fn failure_line(e: FieldErrorView) -> Seq<char> {
    match e.message {
        Some(m) => e.field + ": "@ + m,
        None => e.field + ": Validation error: "@ + e.code + " ["@,
    }
}

/// No two failures are of the same field.
pub open spec fn fields_distinct(f: Seq<FieldErrorView>) -> bool {
    forall|i: int, j: int| 0 <= i < j < f.len() ==> #[trigger] f[i].field != #[trigger] f[j].field
}

/// The `Display` text of `validator::ValidationErrors` holding the given
/// failures, each with its message and parameters. The crate walks fields,
/// and a failure's parameters, in hash-map order, so neither the order of the
/// lines nor that of the parameters is claimed. Claimed, from the crate's
/// `display_impl.rs`: the text of a single failure with a message is
/// `field: message`, and that of a single failure without one begins with
/// `field: Validation error: code [`; with any failure the text is not empty;
/// and where no two failures share a field, each failure's line, begun so,
/// occurs in the text.
#[verifier::external_body]
pub(crate) fn render_failures(errors: &Vec<FieldError>) -> (r: String)
    ensures
        errors@.len() == 1 && errors@[0].message is Some ==> r@ == failure_line(errors@[0]@),
        errors@.len() == 1 ==> failure_line(errors@[0]@).is_prefix_of(r@),
        errors@.len() > 0 ==> r@.len() > 0,
        fields_distinct(failures_of(errors@)) ==> forall|k: int|
            0 <= k < errors@.len() ==> occurs_in(r@, #[trigger] failure_line(errors@[k]@)),
{
    let mut all = validator::ValidationErrors::new();
    for e in errors.iter() {
        let mut v = validator::ValidationError::new(e.code);
        v.message = e.message.map(std::borrow::Cow::Borrowed);
        for (name, n) in e.int_params.iter() {
            v.add_param(std::borrow::Cow::Borrowed(*name), n);
        }
        for (name, t) in e.text_params.iter() {
            v.add_param(std::borrow::Cow::Borrowed(*name), t);
        }
        all.add(e.field, v);
    }
    all.to_string()
}

/// `text` has between `min` and `max` characters (the `length` check, which
/// counts characters).
pub open spec fn length_within(text: Seq<char>, min: nat, max: nat) -> bool {
    min <= text.len() <= max
}

/// Whether `text` has between `min` and `max` characters.
pub fn check_length(text: &str, min: usize, max: usize) -> (r: bool)
    ensures
        r == length_within(text@, min as nat, max as nat),
{
    let n = text.unicode_len();
    min <= n && n <= max
}

/// A request body with declared field checks.
pub trait Validate {
    /// The failed checks, in the order the fields are declared.
    spec fn spec_failures(&self) -> Seq<FieldErrorView>;

    /// The failed checks.
    fn field_errors(&self) -> (r: Vec<FieldError>)
        ensures
            failures_of(r@) == self.spec_failures(),
            fields_distinct(self.spec_failures()),
    ;
}

/// Runs the checks of `value`: `Ok` when none fails, else a `Validation`
/// error that reports the failures.
pub fn validate<T: Validate>(value: &T) -> (r: Result<(), AppError>)
    ensures
        r is Ok <==> value.spec_failures().len() == 0,
        r is Err ==> r->Err_0 is Validation,
        ({
            let f = value.spec_failures();
            f.len() == 1 && f[0].message is Some ==> (r matches Err(AppError::Validation(m)) && m@
                == failure_line(f[0]))
        }),
        ({
            let f = value.spec_failures();
            f.len() == 1 ==> (r matches Err(AppError::Validation(m)) && failure_line(
                f[0],
            ).is_prefix_of(m@))
        }),
        ({
            let f = value.spec_failures();
            f.len() > 0 ==> (r matches Err(AppError::Validation(m)) && m@.len() > 0 && forall|k: int|
                0 <= k < f.len() ==> occurs_in(m@, #[trigger] failure_line(f[k])))
        }),
{
    let errors = value.field_errors();
    if errors.len() == 0 {
        Ok(())
    } else {
        let m = render_failures(&errors);
        proof {
            assert(failures_of(errors@)[0] == errors@[0]@);
            let f = value.spec_failures();
            assert forall|k: int| 0 <= k < f.len() implies occurs_in(
                m@,
                #[trigger] failure_line(f[k]),
            ) by {
                assert(f[k] == errors@[k]@);
                assert(occurs_in(m@, failure_line(errors@[k]@)));
            }
        }
        Err(AppError::Validation(m))
    }
}

} // verus!
