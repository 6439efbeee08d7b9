//! The inputs that the closed-form pricing model takes.

use vstd::prelude::*;
use vstd::string::*;

use crate::errors::TSError;
use crate::errors::TSErrorType;
use crate::quantity::Quantity;

verus! {

/// The inputs of the pricing model.
#[derive(Clone, Copy, PartialEq, Eq, Debug, Structural)]
pub enum PricingInput {
    YearsUntilExpiry,
    AssetSpotPrice,
    StrikePrice,
    RiskFreeInterestRate,
    Volatility,
}

/// A quantity the pricing model takes for a price, a volatility or a time:
/// a finite number above zero.
pub open spec fn strictly_positive_and_finite(value: Quantity) -> bool {
    value.positive() && value.finite()
}

/// The first input, in the order years until expiry, spot price, strike
/// price, interest rate, volatility, that the pricing model cannot take:
/// the years, the spot price, the strike price and the volatility are to
/// be finite numbers above zero, and the rate a finite number.
pub open spec fn first_invalid_input(
    asset_spot_price: Quantity,
    strike_price: Quantity,
    years_until_expiry: Quantity,
    risk_free_interest_rate: Quantity,
    volatility: Quantity,
) -> Option<PricingInput> {
    if !strictly_positive_and_finite(years_until_expiry) {
        Some(PricingInput::YearsUntilExpiry)
    } else if !strictly_positive_and_finite(asset_spot_price) {
        Some(PricingInput::AssetSpotPrice)
    } else if !strictly_positive_and_finite(strike_price) {
        Some(PricingInput::StrikePrice)
    } else if !risk_free_interest_rate.finite() {
        Some(PricingInput::RiskFreeInterestRate)
    } else if !strictly_positive_and_finite(volatility) {
        Some(PricingInput::Volatility)
    } else {
        None
    }
}

/// Whether the years until expiry say that the option has expired: they
/// are a number at or below zero.
pub open spec fn already_expired(years_until_expiry: Quantity) -> bool {
    !years_until_expiry.nan() && years_until_expiry.ordinal() <= 0
}

/// The reason with which an input is refused.
pub open spec fn invalid_input_reason(input: PricingInput, years_until_expiry: Quantity) -> Seq<
    char,
> {
    match input {
        PricingInput::YearsUntilExpiry => if already_expired(years_until_expiry) {
            "Option has already expired"@
        } else {
            "years_until_expiry must be a finite number"@
        },
        PricingInput::AssetSpotPrice => "asset_spot_price must be a finite number > 0"@,
        PricingInput::StrikePrice => "strike_price must be a finite number > 0"@,
        PricingInput::RiskFreeInterestRate => "risk_free_interest_rate must be a finite number"@,
        PricingInput::Volatility => "volatility must be a finite number > 0"@,
    }
}

/// The kind of the error with which an input is refused: an option that
/// has expired cannot be priced; any other refusal is a fault of the
/// caller's value.
pub open spec fn invalid_input_kind(input: PricingInput, years_until_expiry: Quantity)
    -> TSErrorType {
    if input == PricingInput::YearsUntilExpiry && already_expired(years_until_expiry) {
        TSErrorType::UnsolvableError
    } else {
        TSErrorType::RuntimeError
    }
}

fn is_strictly_positive_and_finite(value: Quantity) -> (r: bool)
    ensures
        r == strictly_positive_and_finite(value),
{
    value.is_positive() && value.is_finite()
}

fn refusal(kind: TSErrorType, reason: &str) -> (r: Result<(), TSError>)
    ensures
        r matches Err(e) && e.error_type == kind && e.reason@ == reason@,
{
    Err(TSError::new(kind, String::from_str(reason)))
}

/// Accepts the inputs of the pricing model, or refuses them with an error
/// that names the first input at fault.
pub fn error_unless_priceable(
    asset_spot_price: Quantity,
    strike_price: Quantity,
    years_until_expiry: Quantity,
    risk_free_interest_rate: Quantity,
    volatility: Quantity,
) -> (r: Result<(), TSError>)
    ensures
        r is Ok <==> first_invalid_input(
            asset_spot_price,
            strike_price,
            years_until_expiry,
            risk_free_interest_rate,
            volatility,
        ) is None,
        r matches Err(e) ==> (first_invalid_input(
            asset_spot_price,
            strike_price,
            years_until_expiry,
            risk_free_interest_rate,
            volatility,
        ) matches Some(input) && e.error_type == invalid_input_kind(input, years_until_expiry)
            && e.reason@ == invalid_input_reason(input, years_until_expiry)),
{
    if !is_strictly_positive_and_finite(years_until_expiry) {
        if years_until_expiry.le(Quantity::zero()) {
            return refusal(TSErrorType::UnsolvableError, "Option has already expired");
        }
        return refusal(TSErrorType::RuntimeError, "years_until_expiry must be a finite number");
    }
    if !is_strictly_positive_and_finite(asset_spot_price) {
        return refusal(TSErrorType::RuntimeError, "asset_spot_price must be a finite number > 0");
    }
    if !is_strictly_positive_and_finite(strike_price) {
        return refusal(TSErrorType::RuntimeError, "strike_price must be a finite number > 0");
    }
    if !risk_free_interest_rate.is_finite() {
        return refusal(
            TSErrorType::RuntimeError,
            "risk_free_interest_rate must be a finite number",
        );
    }
    if !is_strictly_positive_and_finite(volatility) {
        return refusal(TSErrorType::RuntimeError, "volatility must be a finite number > 0");
    }
    Ok(())
}

} // verus!
