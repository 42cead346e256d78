use vstd::prelude::*;

use crate::errors::KoraError;

verus! {

/// The highest risk score.
pub const MAX_RISK_SCORE: u32 = 100;

/// Refuses amounts that are not positive.
pub fn require_non_zero_amount(amount: i128) -> (result: Result<(), KoraError>)
    ensures
        result == (if amount > 0 {
            Ok::<(), KoraError>(())
        } else {
            Err(KoraError::InvalidAmount)
        }),
{
    if amount <= 0 {
        return Err(KoraError::InvalidAmount);
    }
    Ok(())
}

/// Refuses a due date that does not lie after `now`.
pub fn require_future_timestamp(now: u64, due_date: u64) -> (result: Result<(), KoraError>)
    ensures
        result == (if due_date > now {
            Ok::<(), KoraError>(())
        } else {
            Err(KoraError::InvalidDueDate)
        }),
{
    if due_date <= now {
        return Err(KoraError::InvalidDueDate);
    }
    Ok(())
}

/// Refuses risk scores above [`MAX_RISK_SCORE`].
pub fn require_valid_risk_score(risk_score: u32) -> (result: Result<(), KoraError>)
    ensures
        result == (if risk_score <= MAX_RISK_SCORE {
            Ok::<(), KoraError>(())
        } else {
            Err(KoraError::InvalidRiskScore)
        }),
        result is Ok <==> risk_score <= 100,
{
    if risk_score > MAX_RISK_SCORE {
        return Err(KoraError::InvalidRiskScore);
    }
    Ok(())
}

/// Refuses an empty byte string.
pub fn require_non_empty_bytes(bytes: &Vec<u8>) -> (result: Result<(), KoraError>)
    ensures
        result == (if bytes@.len() > 0 {
            Ok::<(), KoraError>(())
        } else {
            Err(KoraError::EmptyBytes)
        }),
{
    if bytes.len() == 0 {
        return Err(KoraError::EmptyBytes);
    }
    Ok(())
}

/// Refuses an empty text, given by its bytes.
pub fn require_non_empty_string(text: &Vec<u8>) -> (result: Result<(), KoraError>)
    ensures
        result == (if text@.len() > 0 {
            Ok::<(), KoraError>(())
        } else {
            Err(KoraError::EmptyString)
        }),
{
    if text.len() == 0 {
        return Err(KoraError::EmptyString);
    }
    Ok(())
}

} // verus!
