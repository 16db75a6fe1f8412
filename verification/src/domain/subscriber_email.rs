use crate::domain::validation::{ValidationError, ValidationRule};
use vstd::prelude::*;
use vstd::std_specs::cmp::PartialEqSpecImpl;

verus! {

/// Whether a text is written as an email address.
pub uninterp spec fn email_syntax(s: Seq<char>) -> bool;

/// Whether an `@` stands in `s` with at least one character before it and one
/// after it.
pub open spec fn has_inner_at(s: Seq<char>) -> bool {
    exists|i: int| 0 < i < s.len() - 1 && #[trigger] s[i] == '@'
}

/// Asks `validator::ValidateEmail::validate_email` whether `s` is written as an
/// email address. The verdict is taken on trust. One consequence is stated:
/// that function wants an `@`, a local part before the last `@` that is not
/// empty and a domain after it that is not empty, so an accepted text has an
/// `@` with a character on either side.
#[verifier::external_body]
fn has_email_syntax(s: &str) -> (ok: bool)
    ensures
        ok == email_syntax(s@),
        ok ==> has_inner_at(s@),
{
    validator::ValidateEmail::validate_email(&s)
}

/// The email address of a subscriber: a text that the syntax check accepted
/// when it was parsed. There is no other way to make one.
#[derive(Debug)]
pub struct SubscriberEmail(String);

impl View for SubscriberEmail {
    type V = Seq<char>;

    closed spec fn view(&self) -> Seq<char> {
        self.0@
    }
}

impl Clone for SubscriberEmail {
    fn clone(&self) -> (copy: Self)
        ensures
            copy@ == self@,
    {
        proof {
            use_type_invariant(self);
        }
        SubscriberEmail(self.0.clone())
    }
}

impl PartialEq for SubscriberEmail {
    fn eq(&self, other: &Self) -> (same: bool) {
        self.0 == other.0
    }
}

impl Eq for SubscriberEmail {

}

/// Two values are equal when their texts are.
impl PartialEqSpecImpl for SubscriberEmail {
    open spec fn obeys_eq_spec() -> bool {
        true
    }

    open spec fn eq_spec(&self, other: &Self) -> bool {
        self@ == other@
    }
}

impl SubscriberEmail {
    /// What holds of every address that a program can have in its hands.
    #[verifier::type_invariant]
    pub open spec fn is_valid(self) -> bool {
        email_syntax(self@)
    }

    /// Accepts `s` as an email address where it is written as one, and keeps
    /// it as it is. A text without an `@` between two other characters is
    /// never accepted.
    pub fn parse(s: String) -> (r: Result<SubscriberEmail, ValidationError>)
        ensures
            r is Ok <==> email_syntax(s@),
            !has_inner_at(s@) ==> r is Err,
            match r {
                Ok(email) => email@ == s@,
                Err(e) => e.rule == ValidationRule::EmailSyntax && e.input@ == s@,
            },
    {
        if has_email_syntax(s.as_str()) {
            Ok(SubscriberEmail(s))
        } else {
            Err(ValidationError { rule: ValidationRule::EmailSyntax, input: s })
        }
    }
}

impl AsRef<str> for SubscriberEmail {
    /// The address as text.
    fn as_ref(&self) -> (s: &str)
        ensures
            s@ == self@,
            email_syntax(s@),
    {
        proof {
            use_type_invariant(self);
        }
        self.0.as_str()
    }
}

} // verus!
