use vol_surface::deribit::expiration_millis;
use vol_surface::deribit::quote_currency;
use vol_surface::deribit::QuoteCurrency;
use vol_surface::errors::TSErrorType;
use vol_surface::option_instrument::OptionType;
use vol_surface::text::decimal_string;
use vol_surface::text::same_text;

#[test]
fn decimal_string_writes_numbers_as_to_string_does() {
    for n in [0u64, 1, 4, 5, 9, 10, 11, 99, 100, 101, 2000, 31536000000, u64::MAX] {
        assert_eq!(decimal_string(n), n.to_string());
    }
}

#[test]
fn same_text_compares_contents() {
    assert!(same_text("USD", "USD"));
    assert!(!same_text("USD", "usd"));
    assert!(!same_text("USD", "USDT"));
    assert!(same_text("", ""));
}

#[test]
fn known_currencies_are_recognised() {
    assert_eq!(quote_currency("USD"), Ok(QuoteCurrency::Usd));
    assert_eq!(quote_currency("BTC"), Ok(QuoteCurrency::Btc));
}

#[test]
fn unknown_currency_makes_the_quote_unusable() {
    let e = quote_currency("ETH").unwrap_err();
    assert_eq!(e.error_type, TSErrorType::UnusableAPIData);
    assert_eq!(e.reason, "Unknown currency ETH");
    let e = quote_currency("").unwrap_err();
    assert_eq!(e.reason, "Unknown currency ");
    assert!(quote_currency("usd").is_err());
}

#[test]
fn option_kinds_are_recognised() {
    assert_eq!(OptionType::from_string("call"), Ok(OptionType::Call));
    assert_eq!(OptionType::from_string("put"), Ok(OptionType::Put));
}

#[test]
fn unknown_option_kind_makes_the_quote_unusable() {
    let e = OptionType::from_string("Call").unwrap_err();
    assert_eq!(e.error_type, TSErrorType::UnusableAPIData);
    assert_eq!(e.reason, "Unknown option type Call");
}

#[test]
fn expiration_fits_signed_milliseconds_or_is_refused() {
    assert_eq!(expiration_millis(0), Ok(0));
    assert_eq!(expiration_millis(1_798_761_600_000), Ok(1_798_761_600_000));
    assert_eq!(expiration_millis(i64::MAX as u64), Ok(i64::MAX));
    let e = expiration_millis(i64::MAX as u64 + 1).unwrap_err();
    assert_eq!(e.error_type, TSErrorType::UnusableAPIData);
    assert_eq!(e.reason, "Expiration timestamp out of range");
    assert!(expiration_millis(u64::MAX).is_err());
}
