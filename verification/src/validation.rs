//! The rules that registration and login requests must satisfy, checked with garde's rules.

use crate::resources::{LoginUser, NewUser};
use vstd::prelude::*;

verus! {

#[verifier::external_type_specification]
#[verifier::external_body]
pub struct ExGardeError(garde::Error);

#[verifier::external_type_specification]
#[verifier::external_body]
pub struct ExGardeReport(garde::Report);

/// The field paths of the entries of a garde `Report`, in the order they were appended.
pub uninterp spec fn report_fields(report: garde::Report) -> Seq<Seq<char>>;

/// Whether garde's `email` rule (`garde::rules::email::parse_email`) accepts an address.
pub uninterp spec fn email_accepted(address: Seq<char>) -> bool;

/// Whether `char::is_alphanumeric` holds of a character.
pub uninterp spec fn char_is_alphanumeric(c: char) -> bool;

/// The number of bytes of the UTF-8 encoding of `s`: garde's default length of a string.
pub open spec fn byte_len(s: Seq<char>) -> int {
    vstd::utf8::encode_utf8(s).len() as int
}

/// Every character is ASCII.
pub open spec fn all_ascii(s: Seq<char>) -> bool {
    vstd::utf8::is_ascii_chars(s)
}

/// Every character is alphanumeric.
pub open spec fn all_alphanumeric(s: Seq<char>) -> bool {
    forall|i: int| 0 <= i < s.len() ==> char_is_alphanumeric(#[trigger] s[i])
}

/// garde `Report::new`: an empty report.
#[verifier::external_body]
fn report_new() -> (report: garde::Report)
    ensures
        report_fields(report) == Seq::<Seq<char>>::empty(),
{
    garde::Report::new()
}

/// garde `Report::append` at the path `Path::new(field)`: the entry goes after the others.
#[verifier::external_body]
fn report_append(report: &mut garde::Report, field: &str, error: garde::Error)
    ensures
        report_fields(*final(report)) == report_fields(*old(report)).push(field@),
{
    report.append(garde::error::Path::new(field), error)
}

/// garde `rules::ascii::apply`: fails exactly when some character is not ASCII.
#[verifier::external_body]
fn rule_ascii(value: &String) -> (r: Result<(), garde::Error>)
    ensures
        r is Ok <==> all_ascii(value@),
{
    garde::rules::ascii::apply(value, ())
}

/// garde `rules::alphanumeric::apply`: fails exactly when some character is not alphanumeric.
#[verifier::external_body]
fn rule_alphanumeric(value: &String) -> (r: Result<(), garde::Error>)
    ensures
        r is Ok <==> (forall|i: int| 0 <= i < value@.len() ==> char_is_alphanumeric(#[trigger] value@[i])),
{
    garde::rules::alphanumeric::apply(value, ())
}

/// garde `rules::email::apply`: fails exactly when `parse_email` rejects the address.
#[verifier::external_body]
fn rule_email(value: &String) -> (r: Result<(), garde::Error>)
    ensures
        r is Ok <==> email_accepted(value@),
{
    garde::rules::email::apply(value, ())
}

/// garde `rules::length::simple::apply`: fails exactly when the byte length of the string
/// lies outside `min..=max`.
#[verifier::external_body]
fn rule_length(value: &String, min: usize, max: usize) -> (r: Result<(), garde::Error>)
    ensures
        r is Ok <==> min <= byte_len(value@) <= max,
{
    garde::rules::length::simple::apply(value, (min, max))
}

/// Appends the error of a failed rule under `field`, and records that a rule failed.
fn note_rule(
    report: &mut garde::Report,
    failed: &mut bool,
    field: &str,
    outcome: Result<(), garde::Error>,
)
    ensures
        *final(failed) == (*old(failed) || outcome is Err),
        report_fields(*final(report)) == if outcome is Err {
            report_fields(*old(report)).push(field@)
        } else {
            report_fields(*old(report))
        },
{
    if let Err(error) = outcome {
        report_append(report, field, error);
        *failed = true;
    }
}

/// `seq![field]` when a rule failed, else nothing.
pub open spec fn failure(field: Seq<char>, ok: bool) -> Seq<Seq<char>> {
    if ok { Seq::empty() } else { seq![field] }
}

/// The fields of the rules that a registration request breaks, in the order garde checks
/// them: the name is ASCII and 3 to 20 bytes long, the email is an address, the password is
/// ASCII and at least 5 bytes long (garde bounds it by `usize::MAX` too).
pub open spec fn new_user_failures(name: Seq<char>, email: Seq<char>, password: Seq<char>) -> Seq<Seq<char>> {
    failure("name"@, all_ascii(name))
        + failure("name"@, 3 <= byte_len(name) <= 20)
        + failure("email"@, email_accepted(email))
        + failure("password"@, all_ascii(password))
        + failure("password"@, 5 <= byte_len(password) <= usize::MAX)
}

/// The fields of the rules that a login request breaks: the email is an address, the
/// password is alphanumeric and at least 8 bytes long.
pub open spec fn login_user_failures(email: Seq<char>, password: Seq<char>) -> Seq<Seq<char>> {
    failure("email"@, email_accepted(email))
        + failure("password"@, all_alphanumeric(password))
        + failure("password"@, 8 <= byte_len(password) <= usize::MAX)
}

/// Law: a registration is accepted exactly when the name is ASCII and 3 to 20 bytes long, the
/// email is an address garde accepts, and the password is ASCII (symbols included) and at
/// least 5 bytes long; each broken rule gives one report entry, under its field.
pub proof fn lemma_registration_acceptance(name: Seq<char>, email: Seq<char>, password: Seq<char>)
    requires
        byte_len(password) <= usize::MAX,
    ensures
        new_user_failures(name, email, password).len() == 0 <==> {
            &&& all_ascii(name)
            &&& 3 <= byte_len(name) <= 20
            &&& email_accepted(email)
            &&& all_ascii(password)
            &&& 5 <= byte_len(password)
        },
        new_user_failures(name, email, password).len() == (if all_ascii(name) { 0int } else { 1 })
            + (if 3 <= byte_len(name) <= 20 { 0int } else { 1 })
            + (if email_accepted(email) { 0int } else { 1 })
            + (if all_ascii(password) { 0int } else { 1 })
            + (if 5 <= byte_len(password) { 0int } else { 1 }),
{
}

/// Law: a login request passes its rules exactly when the email is an address garde accepts
/// and the password is alphanumeric and at least 8 bytes long.
pub proof fn lemma_login_acceptance(email: Seq<char>, password: Seq<char>)
    requires
        byte_len(password) <= usize::MAX,
    ensures
        login_user_failures(email, password).len() == 0 <==> {
            &&& email_accepted(email)
            &&& all_alphanumeric(password)
            &&& 8 <= byte_len(password)
        },
{
}

impl NewUser {
    /// Checks the registration rules. Fails exactly when a rule is broken, with one report
    /// entry per broken rule; the messages of the entries are garde's.
    pub fn validate(&self) -> (r: Result<(), garde::Report>)
        ensures
            r is Ok <==> new_user_failures(self.name@, self.email@, self.password@).len() == 0,
            r matches Err(report) ==> report_fields(report) == new_user_failures(
                self.name@,
                self.email@,
                self.password@,
            ),
    {
        let ghost (n, e, p) = (self.name@, self.email@, self.password@);
        let mut report = report_new();
        let mut failed = false;
        note_rule(&mut report, &mut failed, "name", rule_ascii(&self.name));
        assert(report_fields(report) =~= failure("name"@, all_ascii(n)));
        note_rule(&mut report, &mut failed, "name", rule_length(&self.name, 3, 20));
        assert(report_fields(report) =~= failure("name"@, all_ascii(n))
            + failure("name"@, 3 <= byte_len(n) <= 20));
        note_rule(&mut report, &mut failed, "email", rule_email(&self.email));
        assert(report_fields(report) =~= failure("name"@, all_ascii(n))
            + failure("name"@, 3 <= byte_len(n) <= 20) + failure("email"@, email_accepted(e)));
        note_rule(&mut report, &mut failed, "password", rule_ascii(&self.password));
        assert(report_fields(report) =~= failure("name"@, all_ascii(n))
            + failure("name"@, 3 <= byte_len(n) <= 20) + failure("email"@, email_accepted(e))
            + failure("password"@, all_ascii(p)));
        note_rule(&mut report, &mut failed, "password", rule_length(&self.password, 5, usize::MAX));
        assert(report_fields(report) =~= new_user_failures(n, e, p));
        if failed {
            Err(report)
        } else {
            Ok(())
        }
    }
}

impl LoginUser {
    /// Checks the login rules. Fails exactly when a rule is broken, with one report entry per
    /// broken rule; the messages of the entries are garde's.
    pub fn validate(&self) -> (r: Result<(), garde::Report>)
        ensures
            r is Ok <==> login_user_failures(self.email@, self.password@).len() == 0,
            r matches Err(report) ==> report_fields(report) == login_user_failures(
                self.email@,
                self.password@,
            ),
    {
        let ghost (e, p) = (self.email@, self.password@);
        let mut report = report_new();
        let mut failed = false;
        note_rule(&mut report, &mut failed, "email", rule_email(&self.email));
        assert(report_fields(report) =~= failure("email"@, email_accepted(e)));
        note_rule(&mut report, &mut failed, "password", rule_alphanumeric(&self.password));
        assert(report_fields(report) =~= failure("email"@, email_accepted(e))
            + failure("password"@, all_alphanumeric(p)));
        note_rule(&mut report, &mut failed, "password", rule_length(&self.password, 8, usize::MAX));
        assert(report_fields(report) =~= login_user_failures(e, p));
        if failed {
            Err(report)
        } else {
            Ok(())
        }
    }
}

} // verus!
