use vstd::prelude::*;
use vstd::string::StringExecFns;

verus! {

/// Whether `validator::validate_email` accepts the address `mail`.
pub uninterp spec fn email_accepted(mail: Seq<char>) -> bool;

/// What `validator` prints for one violation of the rule `code` on the
/// field `field`, recorded with the offending `value` under the parameter
/// `parameter`.
pub uninterp spec fn violation_text(
    field: Seq<char>,
    code: Seq<char>,
    parameter: Seq<char>,
    value: Seq<char>,
) -> Seq<char>;

/// What is printed for an address that failed the `email` rule on the
/// field `mail`.
pub open spec fn email_violation_text(mail: Seq<char>) -> Seq<char> {
    violation_text("mail"@, "email"@, "value"@, mail)
}

/// The message that a rejected address is reported with.
pub open spec fn invalid_email_reason(mail: Seq<char>) -> Seq<char> {
    "Invalid email: "@ + email_violation_text(mail)
}

/// Calls `validator::validate_email`. The answer depends on the text alone;
/// the function turns down the empty string and any string without an `@`
/// before it looks further.
#[verifier::external_body]
fn validate_email(mail: &str) -> (accepted: bool)
    ensures
        accepted == email_accepted(mail@),
        accepted ==> mail@.len() > 0 && mail@.contains('@'),
{
    validator::validate_email(mail)
}

/// Builds the `validator::ValidationErrors` value that holds one
/// `validator::ValidationError` with the given code and parameter for the
/// given field, and returns what its `Display` prints. The text depends on
/// the four arguments alone.
#[verifier::external_body]
fn describe_violation(field: &'static str, code: &'static str, parameter: &'static str, value: &str) -> (text:
    String)
    ensures
        text@ == violation_text(field@, code@, parameter@, value@),
{
    let mut violation = validator::ValidationError::new(code);
    violation.add_param(std::borrow::Cow::from(parameter), &value);
    let mut report = validator::ValidationErrors::new();
    report.add(field, violation);
    report.to_string()
}

/// An e-mail address that has passed validation.
#[derive(Debug)]
pub struct SubscriberEmail {
    mail: String,
}

impl View for SubscriberEmail {
    type V = Seq<char>;

    closed spec fn view(&self) -> Seq<char> {
        self.mail@
    }
}

impl Clone for SubscriberEmail {
    fn clone(&self) -> (copy: Self)
        ensures
            copy@ == self@,
    {
        proof {
            use_type_invariant(self);
        }
        SubscriberEmail { mail: self.mail.clone() }
    }
}

impl SubscriberEmail {
    #[verifier::type_invariant]
    spec fn accepted(&self) -> bool {
        email_accepted(self.mail@)
    }

    /// Validates `s`. An accepted address is kept letter for letter; a
    /// rejected one is reported with the validator's own description.
    pub fn parse(s: String) -> (parsed: Result<SubscriberEmail, String>)
        ensures
            parsed is Ok <==> email_accepted(s@),
            parsed matches Ok(email) ==> email@ == s@,
            parsed matches Err(reason) ==> reason@ == invalid_email_reason(s@),
    {
        if validate_email(s.as_str()) {
            Ok(SubscriberEmail { mail: s })
        } else {
            let text = describe_violation("mail", "email", "value", s.as_str());
            let reason = String::from_str("Invalid email: ").concat(text.as_str());
            Err(reason)
        }
    }

    /// The address as text. Every value of this type holds an address that
    /// validation accepted.
    pub fn as_ref(&self) -> (mail: &str)
        ensures
            mail@ == self@,
            email_accepted(self@),
    {
        proof {
            use_type_invariant(self);
        }
        self.mail.as_str()
    }

    /// The address as an owned string, as it would be printed.
    pub fn to_string(&self) -> (mail: String)
        ensures
            mail@ == self@,
    {
        self.mail.clone()
    }
}

} // verus!
