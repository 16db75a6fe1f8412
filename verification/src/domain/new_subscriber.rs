use crate::domain::subscriber_email::{email_syntax, SubscriberEmail};
use crate::domain::subscriber_name::{grapheme_count, name_fault, valid_name, SubscriberName};
use crate::domain::validation::{ValidationError, ValidationRule};
use crate::routes::subscriptions::SubscriptionFormData;
use vstd::pervasive::arbitrary;
use vstd::prelude::*;
use vstd::std_specs::convert::TryFromSpecImpl;

verus! {

/// A validated name and email address, on their way to becoming a subscriber.
#[derive(Debug)]
pub struct NewSubscriber {
    pub email: SubscriberEmail,
    pub name: SubscriberName,
}

/// What is wrong with a form, if anything is: the rule that is broken and the
/// input that breaks it. The name is looked at first, then the email address.
pub open spec fn form_fault(name: Seq<char>, email: Seq<char>) -> Option<
    (ValidationRule, Seq<char>),
> {
    if !valid_name(name) {
        Some((name_fault(name, grapheme_count(name))->0, name))
    } else if !email_syntax(email) {
        Some((ValidationRule::EmailSyntax, email))
    } else {
        None
    }
}

impl TryFrom<SubscriptionFormData> for NewSubscriber {
    type Error = ValidationError;

    /// Validates the name, then the email address, and keeps both as they
    /// are. The error is that of the name where the name is refused, else
    /// that of the email address.
    fn try_from(form: SubscriptionFormData) -> (r: Result<Self, ValidationError>)
        ensures
            match r {
                Ok(subscriber) => {
                    &&& form_fault(form.name@, form.email@) is None
                    &&& subscriber.name@ == form.name@
                    &&& subscriber.email@ == form.email@
                },
                Err(e) => form_fault(form.name@, form.email@) == Some((e.rule, e.input@)),
            },
    {
        let name = match SubscriberName::parse(form.name) {
            Ok(name) => name,
            Err(e) => {
                return Err(e);
            },
        };
        let email = match SubscriberEmail::parse(form.email) {
            Ok(email) => email,
            Err(e) => {
                return Err(e);
            },
        };
        Ok(NewSubscriber { email, name })
    }
}

/// The conversion is specified by the `ensures` of `try_from` itself.
impl TryFromSpecImpl<SubscriptionFormData> for NewSubscriber {
    open spec fn obeys_try_from_spec() -> bool {
        false
    }

    open spec fn try_from_spec(form: SubscriptionFormData) -> Result<Self, ValidationError> {
        arbitrary()
    }
}

} // verus!
