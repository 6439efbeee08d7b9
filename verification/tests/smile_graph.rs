use vol_surface::errors::TSError;
use vol_surface::errors::TSErrorType;
use vol_surface::grid_search::GridSearch;
use vol_surface::grid_search::RefinedCurve;
use vol_surface::option_instrument::DerivedValues;
use vol_surface::option_instrument::OptionInstrument;
use vol_surface::option_instrument::OptionType;
use vol_surface::quantity::Quantity;
use vol_surface::smile_graph::SmileGraph;
use vol_surface::smile_graph::SMILE_MIN_OPTIONS_REQUIRED;
use vol_surface::svi::CurveShape;
use vol_surface::svi::SVICurveParameters;

const NOW: i64 = 1_767_225_600_000;
const EXPIRY: i64 = 1_798_761_600_000;
const OTHER_EXPIRY: i64 = 1_782_864_000_000;

fn q(x: f64) -> Quantity {
    Quantity::from_bits(x.to_bits())
}

fn new_curve(a: f64, b: f64, p: f64, m: f64, o: f64) -> Result<SVICurveParameters, TSError> {
    let shape = CurveShape {
        lowest_variance: q(a + b * o * (1.0 - p * p).sqrt()),
        left_slope: q(b * (1.0 - p)),
        right_slope: q(b * (1.0 + p)),
    };
    SVICurveParameters::new_from_values(q(a), q(b), q(p), q(m), q(o), shape)
}

fn solved(volatility: f64) -> Result<DerivedValues, TSError> {
    Ok(DerivedValues {
        implied_volatility: q(volatility),
        total_implied_variance: q(volatility * volatility),
    })
}

fn option(strike: f64, expiration: i64, outcome: Result<DerivedValues, TSError>) -> OptionInstrument {
    OptionInstrument::new(
        q(5.0),
        expiration,
        q(strike),
        String::from("1234"),
        OptionType::Call,
        q(100.0),
        q(101.0),
        q(4.9),
        q(5.1),
        NOW,
        outcome,
    )
}

fn smile_of(strikes: &[f64]) -> SmileGraph {
    let mut smile = SmileGraph::new();
    for strike in strikes {
        smile
            .try_insert_option(option(*strike, EXPIRY, solved(0.2)))
            .unwrap();
    }
    smile
}

#[test]
fn new_smile_is_empty_and_unfit() {
    let smile = SmileGraph::new();
    assert!(smile.is_empty());
    assert_eq!(smile.get_options().len(), 0);
    assert!(!smile.get_has_been_fit());
    assert!(smile.get_svi_curve_parameters().is_none());
    assert_eq!(smile.get_held_forward_price(), None);
    assert_eq!(smile.get_highest_observed_strike().to_bits(), f64::MIN.to_bits());
    assert_eq!(smile.get_lowest_observed_strike().to_bits(), f64::MAX.to_bits());
    assert_eq!(smile.get_highest_observed_implied_volatility().to_bits(), f64::MIN.to_bits());
}

#[test]
fn smile_with_four_options_is_not_valid() {
    let smile = smile_of(&[90.0, 95.0, 100.0, 105.0]);
    assert_eq!(
        smile.error_unless_valid(),
        Err(String::from("The smile graph must contain at least 5 options, found 4"))
    );
}

#[test]
fn smile_with_five_or_more_options_is_valid() {
    assert_eq!(SMILE_MIN_OPTIONS_REQUIRED, 5);
    assert_eq!(smile_of(&[90.0, 95.0, 100.0, 105.0, 110.0]).error_unless_valid(), Ok(()));
    assert_eq!(smile_of(&[90.0, 95.0, 100.0, 105.0, 110.0, 115.0]).error_unless_valid(), Ok(()));
}

#[test]
fn empty_smile_is_not_valid() {
    assert_eq!(
        SmileGraph::new().error_unless_valid(),
        Err(String::from("The smile graph must contain at least 5 options, found 0"))
    );
}

#[test]
fn inserting_tracks_the_bounds() {
    let mut smile = SmileGraph::new();
    smile.try_insert_option(option(100.0, EXPIRY, solved(0.2))).unwrap();
    assert_eq!(smile.get_highest_observed_strike(), q(100.0));
    assert_eq!(smile.get_lowest_observed_strike(), q(100.0));
    assert_eq!(smile.get_highest_observed_implied_volatility(), q(0.2));
    smile.try_insert_option(option(120.0, EXPIRY, solved(0.15))).unwrap();
    assert_eq!(smile.get_highest_observed_strike(), q(120.0));
    assert_eq!(smile.get_lowest_observed_strike(), q(100.0));
    assert_eq!(smile.get_highest_observed_implied_volatility(), q(0.2));
    smile.try_insert_option(option(80.0, EXPIRY, solved(0.35))).unwrap();
    assert_eq!(smile.get_highest_observed_strike(), q(120.0));
    assert_eq!(smile.get_lowest_observed_strike(), q(80.0));
    assert_eq!(smile.get_highest_observed_implied_volatility(), q(0.35));
    assert_eq!(smile.get_options().len(), 3);
    assert_eq!(smile.get_options()[2].get_quote().strike, q(80.0));
}

#[test]
fn option_with_another_expiry_is_refused_and_changes_nothing() {
    let mut smile = smile_of(&[90.0, 100.0]);
    let e = smile
        .try_insert_option(option(500.0, OTHER_EXPIRY, solved(0.9)))
        .unwrap_err();
    assert_eq!(e.error_type, TSErrorType::RuntimeError);
    assert_eq!(e.reason, "Cannot mix options with different expiries");
    assert_eq!(smile.get_options().len(), 2);
    assert_eq!(smile.get_highest_observed_strike(), q(100.0));
    assert_eq!(smile.get_lowest_observed_strike(), q(90.0));
    assert_eq!(smile.get_highest_observed_implied_volatility(), q(0.2));
    assert_eq!(smile.get_expiration(), Ok(EXPIRY));
}

#[test]
fn any_expiry_may_start_a_smile() {
    let mut smile = SmileGraph::new();
    assert_eq!(smile.try_insert_option(option(100.0, OTHER_EXPIRY, solved(0.2))), Ok(()));
    assert_eq!(smile.get_expiration(), Ok(OTHER_EXPIRY));
}

#[test]
fn expired_option_is_refused() {
    let mut smile = smile_of(&[90.0]);
    for expiration in [NOW, NOW - 1, 0, i64::MIN] {
        let e = smile
            .try_insert_option(option(500.0, expiration, solved(0.9)))
            .unwrap_err();
        assert_eq!(e.error_type, TSErrorType::UnsolvableError);
        assert_eq!(e.reason, "Option already expired");
    }
    assert_eq!(smile.get_options().len(), 1);
    assert_eq!(smile.get_highest_observed_strike(), q(90.0));
}

#[test]
fn option_without_implied_volatility_is_refused_with_the_cause() {
    let mut smile = smile_of(&[90.0]);
    let cause = TSError::new(
        TSErrorType::UnsolvableError,
        String::from("Call option price too high"),
    );
    let unsolved = option(500.0, EXPIRY, Err(cause));
    assert_eq!(
        unsolved.get_implied_volatility().unwrap_err().reason,
        "Failed calculating implied volatility for instrument 1234: Call option price too high"
    );
    let e = smile.try_insert_option(unsolved).unwrap_err();
    assert_eq!(e.error_type, TSErrorType::UnsolvableError);
    assert_eq!(
        e.reason,
        "Calculating total implied variance failed: Failed calculating implied volatility for \
         instrument 1234: Call option price too high"
    );
    assert_eq!(smile.get_options().len(), 1);
    assert_eq!(smile.get_highest_observed_strike(), q(90.0));
}

#[test]
fn expiry_is_checked_before_the_implied_volatility() {
    let mut smile = SmileGraph::new();
    let cause = TSError::new(TSErrorType::RuntimeError, String::from("x"));
    let e = smile.try_insert_option(option(100.0, NOW, Err(cause))).unwrap_err();
    assert_eq!(e.reason, "Option already expired");
}

#[test]
fn empty_smile_has_no_first_option_expiry_or_time_left() {
    let smile = SmileGraph::new();
    let reason = "Smile graphs has no options, this should never happen";
    let e = smile.get_first_option().unwrap_err();
    assert_eq!(e.error_type, TSErrorType::RuntimeError);
    assert_eq!(e.reason, reason);
    assert_eq!(smile.get_expiration().unwrap_err().reason, reason);
    assert_eq!(smile.get_millis_until_expiry().unwrap_err().reason, reason);
}

#[test]
fn smile_reports_expiry_and_time_left_of_its_first_option() {
    let smile = smile_of(&[90.0, 100.0]);
    assert_eq!(smile.get_first_option().unwrap().get_quote().strike, q(90.0));
    assert_eq!(smile.get_expiration(), Ok(EXPIRY));
    assert_eq!(smile.get_millis_until_expiry(), Ok(31_536_000_000));
    assert!(!smile.is_empty());
}

#[test]
fn forward_price_is_computed_once() {
    let mut smile = smile_of(&[90.0]);
    assert_eq!(smile.get_held_forward_price(), None);
    assert_eq!(smile.get_underlying_forward_price(q(106.18)), Ok(q(106.18)));
    assert_eq!(smile.get_held_forward_price(), Some(q(106.18)));
    assert_eq!(smile.get_underlying_forward_price(q(999.0)), Ok(q(106.18)));
    assert_eq!(smile.get_held_forward_price(), Some(q(106.18)));
}

#[test]
fn empty_smile_has_no_forward_price() {
    let mut smile = SmileGraph::new();
    let e = smile.get_underlying_forward_price(q(106.18)).unwrap_err();
    assert_eq!(e.error_type, TSErrorType::RuntimeError);
    assert_eq!(e.reason, "Smile graphs has no options, this should never happen");
    assert_eq!(smile.get_held_forward_price(), None);
}

fn ended_search(best: Option<(f64, f64)>) -> GridSearch {
    let mut search = GridSearch::new(Some(0), Some(0), Some(0), Some(10_000));
    match best {
        Some((a, error)) => {
            let found = RefinedCurve { curve: new_curve(a, 0.1, -0.3, 0.01, 0.2).unwrap(), error: q(error) };
            search.advance(Ok(found), q(error));
        }
        None => {
            search.advance(Err(TSError::new(TSErrorType::UnsolvableError, String::from("no curve"))), q(0.0));
        }
    }
    search.advance(Err(TSError::new(TSErrorType::UnsolvableError, String::from("no curve"))), q(0.0));
    assert!(search.is_exhausted());
    search
}

#[test]
fn failed_fit_leaves_the_smile_unfit() {
    let mut smile = smile_of(&[90.0, 95.0, 100.0, 105.0, 110.0]);
    let e = smile.fit_smile(&ended_search(None)).unwrap_err();
    assert_eq!(e.error_type, TSErrorType::UnsolvableError);
    assert_eq!(e.reason, "No graph could be fit! This is probably a bug!");
    assert!(!smile.get_has_been_fit());
    assert!(smile.get_svi_curve_parameters().is_none());
}

#[test]
fn search_that_has_not_ended_fits_nothing() {
    let mut smile = smile_of(&[90.0, 95.0, 100.0, 105.0, 110.0]);
    let mut search = GridSearch::new(Some(0), Some(0), Some(0), Some(10_000));
    let found = RefinedCurve { curve: new_curve(0.04, 0.1, -0.3, 0.01, 0.2).unwrap(), error: q(0.01) };
    search.advance(Ok(found), q(0.01));
    assert!(!search.is_exhausted());
    let e = smile.fit_smile(&search).unwrap_err();
    assert_eq!(e.error_type, TSErrorType::RuntimeError);
    assert_eq!(e.reason, "The search for a curve has not ended");
    assert!(!smile.get_has_been_fit());
    assert!(smile.get_svi_curve_parameters().is_none());
}

#[test]
fn completed_fit_holds_the_best_curve_of_the_search() {
    let mut smile = smile_of(&[90.0, 95.0, 100.0, 105.0, 110.0]);
    assert_eq!(smile.fit_smile(&ended_search(Some((0.04, 0.002)))), Ok(()));
    assert!(smile.get_has_been_fit());
    let held = smile.get_svi_curve_parameters().unwrap();
    assert_eq!(held.get_a(), q(0.04));
    assert_eq!(held.get_b(), q(0.1));
    assert_eq!(held.get_p(), q(-0.3));
    assert_eq!(held.get_m(), q(0.01));
    assert_eq!(held.get_o(), q(0.2));
    assert_eq!(smile.get_options().len(), 5);
    assert_eq!(smile.get_highest_observed_strike(), q(110.0));
    assert!(smile.fit_smile(&ended_search(None)).is_err());
    assert!(smile.get_has_been_fit());
    assert_eq!(smile.get_svi_curve_parameters().unwrap().get_a(), q(0.04));
}

#[test]
fn smile_that_is_not_valid_is_not_fit() {
    let mut smile = smile_of(&[90.0, 95.0, 100.0, 105.0]);
    let e = smile.fit_smile(&ended_search(Some((0.04, 0.002)))).unwrap_err();
    assert_eq!(e.error_type, TSErrorType::RuntimeError);
    assert_eq!(e.reason, "The smile graph must contain at least 5 options, found 4");
    assert!(!smile.get_has_been_fit());
    assert!(smile.get_svi_curve_parameters().is_none());
}

#[test]
fn restored_curve_needs_no_fit() {
    let mut smile = smile_of(&[90.0, 95.0, 100.0, 105.0, 110.0]);
    smile.restore_curve(new_curve(0.05, 0.1, -0.3, 0.01, 0.2).unwrap());
    assert!(smile.get_has_been_fit());
    assert_eq!(smile.get_svi_curve_parameters().unwrap().get_a(), q(0.05));
    assert_eq!(smile.get_options().len(), 5);
}

#[test]
fn total_implied_variance_range_spans_the_members() {
    let mut smile = SmileGraph::new();
    for volatility in [0.2, 0.5, 0.1, 0.3] {
        smile
            .try_insert_option(option(100.0, EXPIRY, solved(volatility)))
            .unwrap();
    }
    assert_eq!(
        smile.get_total_implied_variance_range(),
        Ok((q(0.1 * 0.1), q(0.5 * 0.5)))
    );
}

#[test]
fn empty_smile_has_no_total_implied_variance_range() {
    let e = SmileGraph::new().get_total_implied_variance_range().unwrap_err();
    assert_eq!(e.error_type, TSErrorType::RuntimeError);
    assert_eq!(e.reason, "Couldn't find max when calculating highest_total_implied_variance");
}

#[test]
fn option_record_keeps_its_quote_and_derived_values() {
    let record = OptionInstrument::new(
        q(5.0),
        EXPIRY,
        q(110.0),
        String::from("77"),
        OptionType::Put,
        q(100.0),
        q(101.0),
        q(4.9),
        q(5.1),
        NOW,
        solved(0.25),
    );
    let quote = record.get_quote();
    assert_eq!(quote.price, q(5.0));
    assert_eq!(quote.expiration, EXPIRY);
    assert_eq!(quote.strike, q(110.0));
    assert_eq!(quote.instrument_id, "77");
    assert_eq!(quote.option_type, OptionType::Put);
    assert_eq!(quote.spot_price, q(100.0));
    assert_eq!(quote.external_forward_price, q(101.0));
    assert_eq!(quote.bid_price, q(4.9));
    assert_eq!(quote.ask_price, q(5.1));
    assert_eq!(record.get_expiration(), EXPIRY);
    assert_eq!(record.get_valuation_time(), NOW);
    assert_eq!(record.get_millis_until_expiry(), 31_536_000_000);
    assert!(!record.is_expired());
    assert_eq!(record.get_implied_volatility(), Ok(q(0.25)));
    assert_eq!(record.get_total_implied_variance(), Ok(q(0.0625)));
}

#[test]
fn time_until_expiry_does_not_overflow() {
    let record = option(100.0, i64::MAX, solved(0.2));
    assert_eq!(record.get_millis_until_expiry(), i64::MAX as i128 - NOW as i128);
    let record = OptionInstrument::new(
        q(5.0),
        i64::MIN,
        q(110.0),
        String::from("77"),
        OptionType::Put,
        q(100.0),
        q(101.0),
        q(4.9),
        q(5.1),
        i64::MAX,
        solved(0.25),
    );
    assert_eq!(record.get_millis_until_expiry(), i64::MIN as i128 - i64::MAX as i128);
    assert!(record.is_expired());
}
