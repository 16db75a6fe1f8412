use crate::workflow::ConfirmError;
use vstd::prelude::*;

verus! {

/// The status of the response to a confirmation: 200 where it went through,
/// 400 where the token led nowhere, 500 where its subscriber is gone.
pub open spec fn status_of_confirmation(outcome: Result<(), ConfirmError>) -> u16 {
    match outcome {
        Ok(()) => 200,
        Err(ConfirmError::InvalidToken) => 400,
        Err(ConfirmError::NotFound) => 500,
    }
}

/// The HTTP status with which a confirmation that ended in `outcome` is
/// answered.
pub fn confirm_status(outcome: &Result<(), ConfirmError>) -> (status: u16)
    ensures
        status == status_of_confirmation(*outcome),
{
    match outcome {
        Ok(()) => 200,
        Err(ConfirmError::InvalidToken) => 400,
        Err(ConfirmError::NotFound) => 500,
    }
}

} // verus!
