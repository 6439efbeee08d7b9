//! The judgement of one local least-squares refinement of a candidate curve.

use vstd::prelude::*;
use vstd::string::*;

use crate::errors::TSError;
use crate::errors::TSErrorType;
use crate::grid_search::RefinedCurve;
use crate::quantity::Quantity;
use crate::svi::SVICurveParameters;

verus! {

/// What a local least-squares refinement of one candidate reported.
#[derive(Debug)]
pub struct Refinement {
    /// Whether the refinement ended because it converged.
    pub converged: bool,
    /// Why the refinement ended, in words.
    pub termination: String,
    /// Whether the curve it ended on is valid at every option.
    pub curve_valid: bool,
    /// Whether the scan of the curve it ended on found arbitrage.
    pub has_arbitrage: bool,
    /// The curve it ended on, if its parameters were accepted.
    pub curve: Option<SVICurveParameters>,
    /// The absolute value of the objective function at the end.
    pub objective: Quantity,
}

/// Whether a refinement yields a curve: it converged on a valid curve
/// without arbitrage.
pub open spec fn refinement_succeeded(refinement: Refinement) -> bool {
    &&& refinement.converged
    &&& refinement.curve_valid
    &&& !refinement.has_arbitrage
    &&& refinement.curve is Some
}

/// The kind of the error for a refinement that yields no curve.
pub open spec fn refinement_failure_kind(refinement: Refinement) -> TSErrorType {
    if !refinement.converged || !refinement.curve_valid || refinement.has_arbitrage {
        TSErrorType::UnsolvableError
    } else {
        TSErrorType::RuntimeError
    }
}

/// The reason for a refinement that yields no curve.
pub open spec fn refinement_failure_reason(refinement: Refinement) -> Seq<char> {
    if !refinement.converged {
        "Failed computing Levenberg-Marquardt: "@ + refinement.termination@
    } else if !refinement.curve_valid || refinement.has_arbitrage {
        "No mathematically valid curve found"@
    } else {
        "No curve was produced"@
    }
}

/// The curve a refinement arrived at together with its error, or the
/// reason for which it arrived at none.
pub fn refined_curve(refinement: Refinement) -> (r: Result<RefinedCurve, TSError>)
    ensures
        r is Ok <==> refinement_succeeded(refinement),
        r matches Ok(refined) ==> Some(refined.curve) == refinement.curve && refined.error
            == refinement.objective,
        r matches Err(e) ==> e.error_type == refinement_failure_kind(refinement) && e.reason@
            == refinement_failure_reason(refinement),
{
    if !refinement.converged {
        let mut reason = String::from_str("Failed computing Levenberg-Marquardt: ");
        reason.append(refinement.termination.as_str());
        return Err(TSError::new(TSErrorType::UnsolvableError, reason));
    }
    if !refinement.curve_valid || refinement.has_arbitrage {
        return Err(
            TSError::new(
                TSErrorType::UnsolvableError,
                String::from_str("No mathematically valid curve found"),
            ),
        );
    }
    match refinement.curve {
        None => Err(
            TSError::new(TSErrorType::RuntimeError, String::from_str("No curve was produced")),
        ),
        Some(curve) => Ok(RefinedCurve { curve, error: refinement.objective }),
    }
}

} // verus!
