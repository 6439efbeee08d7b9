//! What a venue's quote records say, turned into the library's values.

use vstd::prelude::*;
use vstd::string::*;

use crate::errors::TSError;
use crate::errors::TSErrorType;
use crate::text::same_text;

verus! {

/// The currency an option's mark price is quoted in.
#[derive(Clone, Copy, PartialEq, Eq, Debug, Structural)]
pub enum QuoteCurrency {
    /// The price is in dollars already.
    Usd,
    /// The price is in units of the underlying: its dollar value is the
    /// mark price times the index price.
    Btc,
}

/// The currency that a venue's currency code stands for. A code other than
/// `USD` and `BTC` makes the quote unusable.
pub fn quote_currency(base_currency: &str) -> (r: Result<QuoteCurrency, TSError>)
    ensures
        r == Ok::<QuoteCurrency, TSError>(QuoteCurrency::Usd) <==> base_currency@ == "USD"@,
        r == Ok::<QuoteCurrency, TSError>(QuoteCurrency::Btc) <==> base_currency@ == "BTC"@,
        r matches Err(e) ==> e.error_type == TSErrorType::UnusableAPIData && e.reason@
            == "Unknown currency "@ + base_currency@,
{
    proof {
        reveal_strlit("USD");
        reveal_strlit("BTC");
        assert("USD"@[0] != "BTC"@[0]);
    }
    if same_text(base_currency, "USD") {
        Ok(QuoteCurrency::Usd)
    } else if same_text(base_currency, "BTC") {
        Ok(QuoteCurrency::Btc)
    } else {
        let mut reason = String::from_str("Unknown currency ");
        reason.append(base_currency);
        Err(TSError::new(TSErrorType::UnusableAPIData, reason))
    }
}

/// The expiry of a quote in signed milliseconds since the epoch, as the
/// records hold it. A timestamp too large for that makes the quote
/// unusable.
pub fn expiration_millis(expiration_timestamp: u64) -> (r: Result<i64, TSError>)
    ensures
        r is Ok <==> expiration_timestamp <= i64::MAX,
        r matches Ok(millis) ==> millis == expiration_timestamp,
        r matches Err(e) ==> e.error_type == TSErrorType::UnusableAPIData && e.reason@
            == "Expiration timestamp out of range"@,
{
    if expiration_timestamp <= 0x7FFF_FFFF_FFFF_FFFF {
        Ok(expiration_timestamp as i64)
    } else {
        Err(
            TSError::new(
                TSErrorType::UnusableAPIData,
                String::from_str("Expiration timestamp out of range"),
            ),
        )
    }
}

} // verus!
