//! Field rules of request bodies: character-count bounds and email syntax,
//! checked through the `validator` crate, and the list of broken rules.

use validator::ValidateEmail;
use validator::ValidateLength;
use vstd::prelude::*;

verus! {

/// The body field that a rule is attached to.
#[derive(Clone, Copy, Debug, PartialEq, Eq, Structural)]
pub enum Field {
    Username,
    Password,
    Email,
    Name,
}

/// The kind of rule that a field broke.
#[derive(Clone, Copy, Debug, PartialEq, Eq, Structural)]
pub enum Rule {
    /// The character count lies outside the allowed range.
    Length,
    /// The text is not an email address.
    Email,
}

/// One broken rule.
#[derive(Clone, Copy, Debug, PartialEq, Eq, Structural)]
pub struct FieldError {
    pub field: Field,
    pub rule: Rule,
}

/// The broken rules of a body, in the order in which its fields are declared.
#[derive(Debug)]
pub struct ValidationErrors {
    pub errors: Vec<FieldError>,
}

impl View for ValidationErrors {
    type V = Seq<FieldError>;

    open spec fn view(&self) -> Seq<FieldError> {
        self.errors@
    }
}

/// Whether `validator` accepts `email` as an email address; its rules (the
/// HTML5 address syntax, part lengths, address literals, internationalised
/// domains) are those of the crate.
pub uninterp spec fn is_valid_email(email: Seq<char>) -> bool;

/// The number of characters of `s` lies in `min..=max`.
pub open spec fn length_within(s: Seq<char>, min: u64, max: u64) -> bool {
    min <= s.len() && s.len() <= max
}

/// The error list for one length rule: empty when it holds.
pub open spec fn length_errors(s: Seq<char>, min: u64, max: u64, field: Field) -> Seq<FieldError> {
    if length_within(s, min, max) {
        Seq::empty()
    } else {
        seq![FieldError { field, rule: Rule::Length }]
    }
}

/// The error list for one email rule: empty when it holds.
pub open spec fn email_errors(s: Seq<char>, field: Field) -> Seq<FieldError> {
    if is_valid_email(s) {
        Seq::empty()
    } else {
        seq![FieldError { field, rule: Rule::Email }]
    }
}

/// `validator`'s length rule on a string: `ValidateLength::validate_length`
/// with a minimum and a maximum, which counts the characters (`chars().count()`)
/// and holds when the count lies in `min..=max`.
#[verifier::external_body]
fn check_length(s: &str, min: u64, max: u64) -> (r: bool)
    ensures
        r == length_within(s@, min, max),
{
    s.validate_length(Some(min), Some(max), None)
}

/// `validator`'s email rule: `ValidateEmail::validate_email` on the text.
/// Nothing is claimed of it but that it is `is_valid_email` of the text.
#[verifier::external_body]
fn check_email(s: &str) -> (r: bool)
    ensures
        r == is_valid_email(s@),
{
    s.validate_email()
}

/// Adds a length error for `field` to `errors` when `s` breaks the rule.
pub fn push_length_error(errors: &mut Vec<FieldError>, s: &str, min: u64, max: u64, field: Field)
    ensures
        final(errors)@ == old(errors)@ + length_errors(s@, min, max, field),
{
    if !check_length(s, min, max) {
        errors.push(FieldError { field, rule: Rule::Length });
    } else {
        assert(old(errors)@ + Seq::<FieldError>::empty() =~= old(errors)@);
    }
}

/// Adds an email error for `field` to `errors` when `s` is no email address.
pub fn push_email_error(errors: &mut Vec<FieldError>, s: &str, field: Field)
    ensures
        final(errors)@ == old(errors)@ + email_errors(s@, field),
{
    if !check_email(s) {
        errors.push(FieldError { field, rule: Rule::Email });
    } else {
        assert(old(errors)@ + Seq::<FieldError>::empty() =~= old(errors)@);
    }
}

/// Turns a list of broken rules into the outcome of a validation.
pub fn finish(errors: Vec<FieldError>) -> (r: Result<(), ValidationErrors>)
    ensures
        r is Ok <==> errors@.len() == 0,
        r matches Err(e) ==> e@ == errors@,
{
    if errors.len() == 0 {
        Ok(())
    } else {
        Err(ValidationErrors { errors })
    }
}

/// A length rule is broken exactly when the character count lies outside
/// `min..=max`, and then it is reported once, for its field.
pub proof fn lemma_length_rule(s: Seq<char>, min: u64, max: u64, field: Field)
    ensures
        length_errors(s, min, max, field) == (if min <= s.len() && s.len() <= max {
            Seq::<FieldError>::empty()
        } else {
            seq![FieldError { field: field, rule: Rule::Length }]
        }),
{
}

/// An email rule is broken exactly when `validator` rejects the text, and
/// then it is reported once, for its field.
pub proof fn lemma_email_rule(s: Seq<char>, field: Field)
    ensures
        email_errors(s, field) == (if is_valid_email(s) {
            Seq::<FieldError>::empty()
        } else {
            seq![FieldError { field: field, rule: Rule::Email }]
        }),
{
}

} // verus!
