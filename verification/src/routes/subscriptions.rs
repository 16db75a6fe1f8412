use crate::domain::subscriber_name::{
    check_name, count_graphemes, has_forbidden, is_blank, valid_name, MAX_NAME_GRAPHEMES,
};
use crate::workflow::SubmitError;
use vstd::prelude::*;

verus! {

/// What a subscription form carries, as it was typed.
#[derive(Debug)]
pub struct SubscriptionFormData {
    pub name: String,
    pub email: String,
}

/// Whether `name` can be the name of a subscriber. A name of at most 256
/// characters that is not blank and holds no forbidden character always can.
pub fn is_valid_name(name: &str) -> (valid: bool)
    ensures
        valid == valid_name(name@),
        name@.len() <= MAX_NAME_GRAPHEMES && !is_blank(name@) && !has_forbidden(name@) ==> valid,
{
    let graphemes = count_graphemes(name);
    check_name(name, graphemes).is_none()
}

/// The status of the response to a submission: 200 where it went through,
/// 400 where the name or the email address was refused, 500 for every other
/// failure.
pub open spec fn status_of_submission(outcome: Result<(), SubmitError>) -> u16 {
    match outcome {
        Ok(()) => 200,
        Err(SubmitError::InvalidInput(_)) => 400,
        Err(_) => 500,
    }
}

/// The HTTP status with which a submission that ended in `outcome` is answered.
pub fn subscribe_status(outcome: &Result<(), SubmitError>) -> (status: u16)
    ensures
        status == status_of_submission(*outcome),
{
    match outcome {
        Ok(()) => 200,
        Err(SubmitError::InvalidInput(_)) => 400,
        Err(_) => 500,
    }
}

} // verus!
