//! One option quote together with the values derived from it.

use vstd::prelude::*;
use vstd::string::*;

use crate::errors::TSError;
use crate::errors::TSErrorType;
use crate::quantity::Quantity;
use crate::text::same_text;

verus! {

/// The kind of an option.
#[derive(Clone, Copy, PartialEq, Eq, Debug, Structural)]
pub enum OptionType {
    Call,
    Put,
}

impl OptionType {
    /// The kind of option that a venue's word for it stands for. A word
    /// other than `call` and `put` makes the quote unusable.
    pub fn from_string(option_type: &str) -> (r: Result<OptionType, TSError>)
        ensures
            r == Ok::<OptionType, TSError>(OptionType::Call) <==> option_type@ == "call"@,
            r == Ok::<OptionType, TSError>(OptionType::Put) <==> option_type@ == "put"@,
            r matches Err(e) ==> e.error_type == TSErrorType::UnusableAPIData && e.reason@
                == "Unknown option type "@ + option_type@,
    {
        proof {
            reveal_strlit("call");
            reveal_strlit("put");
            assert("call"@[0] != "put"@[0]);
        }
        if same_text(option_type, "call") {
            Ok(OptionType::Call)
        } else if same_text(option_type, "put") {
            Ok(OptionType::Put)
        } else {
            let mut reason = String::from_str("Unknown option type ");
            reason.append(option_type);
            Err(TSError::new(TSErrorType::UnusableAPIData, reason))
        }
    }
}

/// The two values derived from a quote: the volatility that makes the
/// pricing model reproduce the quoted price, and that volatility squared
/// times the years until expiry.
#[derive(Clone, Copy, PartialEq, Eq, Debug, Structural)]
pub struct DerivedValues {
    pub implied_volatility: Quantity,
    pub total_implied_variance: Quantity,
}

/// The reason recorded when no implied volatility was found for a quote.
pub open spec fn derivation_failure_reason(instrument_id: Seq<char>, cause: Seq<char>) -> Seq<
    char,
> {
    "Failed calculating implied volatility for instrument "@ + instrument_id + ": "@ + cause
}

/// One market quote of an option. Times are milliseconds since the Unix
/// epoch.
#[derive(Debug)]
pub struct OptionQuote {
    pub expiration: i64,
    pub strike: Quantity,
    pub price: Quantity,
    pub instrument_id: String,
    pub option_type: OptionType,
    pub spot_price: Quantity,
    pub bid_price: Quantity,
    pub ask_price: Quantity,
    /// The forward price according to the venue the quote came from.
    pub external_forward_price: Quantity,
}

/// One market quote of an option together with the time as of which it is
/// valued and the values derived from it.
///
/// The quote and the derived values are fixed when the record is made and
/// never change.
#[derive(Debug)]
pub struct OptionInstrument {
    quote: OptionQuote,
    derived: Result<DerivedValues, TSError>,
    valuation_time: i64,
}

impl OptionInstrument {
    /// The quote.
    pub closed spec fn quote(self) -> OptionQuote {
        self.quote
    }

    /// The time at which the option expires.
    pub open spec fn expiration(self) -> i64 {
        self.quote().expiration
    }

    /// The time as of which the quote is valued.
    pub closed spec fn valuation_time(self) -> i64 {
        self.valuation_time
    }

    /// The derived values, or the failure to derive them.
    pub closed spec fn derived(self) -> Result<DerivedValues, TSError> {
        self.derived
    }

    /// Whether the option has no time left at the valuation time.
    pub open spec fn expired(self) -> bool {
        self.expiration() <= self.valuation_time()
    }

    /// A record of the quote as of the time `now`, with the outcome of
    /// solving its implied volatility. A failure is kept with the
    /// instrument named in its reason.
    pub fn new(
        price: Quantity,
        expiration: i64,
        strike: Quantity,
        instrument_id: String,
        option_type: OptionType,
        spot_price: Quantity,
        external_forward_price: Quantity,
        bid_price: Quantity,
        ask_price: Quantity,
        now: i64,
        solved: Result<DerivedValues, TSError>,
    ) -> (r: OptionInstrument)
        ensures
            r.quote().price == price,
            r.quote().expiration == expiration,
            r.quote().strike == strike,
            r.quote().instrument_id@ == instrument_id@,
            r.quote().option_type == option_type,
            r.quote().spot_price == spot_price,
            r.quote().external_forward_price == external_forward_price,
            r.quote().bid_price == bid_price,
            r.quote().ask_price == ask_price,
            r.valuation_time() == now,
            solved matches Ok(values) ==> r.derived() == Ok::<DerivedValues, TSError>(values),
            solved matches Err(cause) ==> (r.derived() matches Err(e) && e.error_type
                == TSErrorType::UnsolvableError && e.reason@ == derivation_failure_reason(
                instrument_id@,
                cause.reason@,
            )),
    {
        let derived = match solved {
            Ok(values) => Ok(values),
            Err(cause) => {
                let mut reason = String::from_str(
                    "Failed calculating implied volatility for instrument ",
                );
                reason.append(instrument_id.as_str());
                reason.append(": ");
                reason.append(cause.reason.as_str());
                Err(TSError::new(TSErrorType::UnsolvableError, reason))
            },
        };
        OptionInstrument {
            quote: OptionQuote {
                expiration,
                strike,
                price,
                instrument_id,
                option_type,
                spot_price,
                bid_price,
                ask_price,
                external_forward_price,
            },
            derived,
            valuation_time: now,
        }
    }

    /// The quote.
    pub fn get_quote(&self) -> (r: &OptionQuote)
        ensures
            *r == self.quote(),
    {
        &self.quote
    }

    /// The time at which the option expires.
    pub fn get_expiration(&self) -> (r: i64)
        ensures
            r == self.expiration(),
    {
        self.quote.expiration
    }

    /// The time as of which the quote is valued.
    pub fn get_valuation_time(&self) -> (r: i64)
        ensures
            r == self.valuation_time(),
    {
        self.valuation_time
    }

    /// The milliseconds from the valuation time to the expiry; a year has
    /// 31,536,000,000 of them.
    pub fn get_millis_until_expiry(&self) -> (r: i128)
        ensures
            r == self.expiration() - self.valuation_time(),
    {
        self.quote.expiration as i128 - self.valuation_time as i128
    }

    /// Whether the option has no time left at the valuation time.
    pub fn is_expired(&self) -> (r: bool)
        ensures
            r == self.expired(),
    {
        self.quote.expiration <= self.valuation_time
    }

    /// The implied volatility, or the failure to solve it.
    pub fn get_implied_volatility(&self) -> (r: Result<Quantity, TSError>)
        ensures
            self.derived() matches Ok(values) ==> r == Ok::<Quantity, TSError>(
                values.implied_volatility,
            ),
            self.derived() matches Err(e) ==> r == Err::<Quantity, TSError>(e),
    {
        match &self.derived {
            Ok(values) => Ok(values.implied_volatility),
            Err(e) => Err(e.clone()),
        }
    }

    /// The total implied variance, or the failure to solve the implied
    /// volatility it derives from.
    pub fn get_total_implied_variance(&self) -> (r: Result<Quantity, TSError>)
        ensures
            self.derived() matches Ok(values) ==> r == Ok::<Quantity, TSError>(
                values.total_implied_variance,
            ),
            self.derived() matches Err(e) ==> r == Err::<Quantity, TSError>(e),
    {
        match &self.derived {
            Ok(values) => Ok(values.total_implied_variance),
            Err(e) => Err(e.clone()),
        }
    }
}

} // verus!
