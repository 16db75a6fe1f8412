use crate::domain::subscriber_email::SubscriberEmail;
use vstd::prelude::*;

verus! {

/// Why a confirmation email was not sent.
#[derive(Clone, Copy, Debug, PartialEq, Eq, Structural)]
pub enum NotifierError {
    /// The transport failed for now; the same email may go through later.
    Transient,
    /// The email will never go through as it is.
    Permanent,
}

/// What the notifier is asked to send: the recipient and the link that
/// confirms the subscription.
#[derive(Debug)]
pub struct ConfirmationEmail {
    pub to: SubscriberEmail,
    pub link: String,
}

/// What the transport reports of one attempt to send.
#[derive(Clone, Copy, Debug, PartialEq, Eq, Structural)]
pub enum Delivery {
    /// The transport answered, with this HTTP status.
    Answered(u16),
    /// No answer came: the connection failed or the time ran out.
    NoAnswer,
}

/// How an attempt to send ended. It succeeded where the transport answered
/// with a status from 200 to 299. It failed for now where no answer came, where
/// the transport asked for patience (408, 429) and where the fault was its own
/// (500 to 599). Every other answer is a failure for good.
pub open spec fn outcome_of(delivery: Delivery) -> Result<(), NotifierError> {
    match delivery {
        Delivery::NoAnswer => Err(NotifierError::Transient),
        Delivery::Answered(status) => if 200 <= status <= 299 {
            Ok(())
        } else if status == 408 || status == 429 || 500 <= status <= 599 {
            Err(NotifierError::Transient)
        } else {
            Err(NotifierError::Permanent)
        },
    }
}

/// Tells what the transport's report means for the email.
pub fn delivery_outcome(delivery: Delivery) -> (r: Result<(), NotifierError>)
    ensures
        r == outcome_of(delivery),
{
    match delivery {
        Delivery::NoAnswer => Err(NotifierError::Transient),
        Delivery::Answered(status) => if 200 <= status && status <= 299 {
            Ok(())
        } else if status == 408 || status == 429 || (500 <= status && status <= 599) {
            Err(NotifierError::Transient)
        } else {
            Err(NotifierError::Permanent)
        },
    }
}

} // verus!
