use vstd::prelude::*;
use vstd::string::StringExecFns;

verus! {

/// The rule that a rejected input broke.
#[derive(Clone, Copy, Debug, PartialEq, Eq, Structural)]
pub enum ValidationRule {
    /// A name that is empty or holds nothing but white space.
    BlankName,
    /// A name of more than 256 grapheme clusters.
    NameTooLong,
    /// A name that holds one of the forbidden characters.
    ForbiddenCharacter,
    /// An email address that is not written as one.
    EmailSyntax,
}

/// Why a raw input was refused: the rule it broke, and the input itself.
#[derive(Debug, PartialEq, Eq)]
pub struct ValidationError {
    pub rule: ValidationRule,
    pub input: String,
}

impl Clone for ValidationError {
    fn clone(&self) -> (copy: Self)
        ensures
            copy == *self,
    {
        ValidationError { rule: self.rule, input: self.input.clone() }
    }
}

/// What follows the offending input in the message of a rejected name.
pub open spec fn name_message_suffix() -> Seq<char> {
    " is not a valid subscriber name!"@
}

/// What follows the offending input in the message of a rejected email address.
pub open spec fn email_message_suffix() -> Seq<char> {
    " is not a valid subscriber email"@
}

impl ValidationError {
    /// The message for a person to read: the offending input, then what was
    /// expected of it.
    pub open spec fn message_text(&self) -> Seq<char> {
        match self.rule {
            ValidationRule::EmailSyntax => self.input@ + email_message_suffix(),
            _ => self.input@ + name_message_suffix(),
        }
    }

    /// Writes the message out.
    pub fn message(&self) -> (text: String)
        ensures
            text@ == self.message_text(),
    {
        let text = self.input.clone();
        match self.rule {
            ValidationRule::EmailSyntax => text.concat(" is not a valid subscriber email"),
            _ => text.concat(" is not a valid subscriber name!"),
        }
    }
}

} // verus!
