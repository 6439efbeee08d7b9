//! Checks on single values, failing with a reason that names the value.

use vstd::prelude::*;
use vstd::string::*;

use crate::errors::TSError;
use crate::errors::TSErrorType;
use crate::quantity::Quantity;

verus! {

/// Accepts a count that is above zero and refuses zero with a runtime
/// error whose reason is `message` followed by the value found.
pub fn error_unless_positive_u64(val: u64, message: &str) -> (r: Result<(), TSError>)
    ensures
        r is Ok <==> val > 0,
        r matches Err(e) ==> e.error_type == TSErrorType::RuntimeError && e.reason@ == message@
            + " (found 0)"@,
{
    if val <= 0 {
        let mut reason = String::from_str(message);
        reason.append(" (found 0)");
        return Err(TSError::new(TSErrorType::RuntimeError, reason));
    }
    Ok(())
}

/// The reason for which a quantity that is not a number is refused.
pub open spec fn not_a_number_reason(message: Seq<char>) -> Seq<char> {
    message + " (must be valid f64, found NaN)"@
}

/// The reason for which a number that is not above zero is refused;
/// `shown` is the number as the caller writes it.
pub open spec fn not_positive_reason(message: Seq<char>, shown: Seq<char>) -> Seq<char> {
    message + " (must be > 0, found "@ + shown + ")"@
}

/// Accepts a quantity that is a number above zero. Anything else is refused
/// with a runtime error whose reason is `message` followed by what was
/// found; `shown` is the quantity as the caller writes it.
pub fn error_unless_positive_f64(val: Quantity, message: &str, shown: &str) -> (r: Result<
    (),
    TSError,
>)
    ensures
        r is Ok <==> val.positive(),
        r matches Err(e) ==> e.error_type == TSErrorType::RuntimeError && e.reason@ == (if val.nan() {
            not_a_number_reason(message@)
        } else {
            not_positive_reason(message@, shown@)
        }),
{
    if val.is_nan() {
        let mut reason = String::from_str(message);
        reason.append(" (must be valid f64, found NaN)");
        return Err(TSError::new(TSErrorType::RuntimeError, reason));
    }
    if val.le(Quantity::zero()) {
        let mut reason = String::from_str(message);
        reason.append(" (must be > 0, found ");
        reason.append(shown);
        reason.append(")");
        return Err(TSError::new(TSErrorType::RuntimeError, reason));
    }
    Ok(())
}

/// Accepts a quantity that is a number, and refuses what is not with a
/// runtime error whose reason is `message` followed by what was found.
pub fn error_unless_valid_f64(val: Quantity, message: &str) -> (r: Result<(), TSError>)
    ensures
        r is Ok <==> !val.nan(),
        r matches Err(e) ==> e.error_type == TSErrorType::RuntimeError && e.reason@
            == not_a_number_reason(message@),
{
    if val.is_nan() {
        let mut reason = String::from_str(message);
        reason.append(" (must be valid f64, found NaN)");
        return Err(TSError::new(TSErrorType::RuntimeError, reason));
    }
    Ok(())
}

} // verus!
