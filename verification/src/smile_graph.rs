//! The options of one expiry, the bounds observed on them, and the curve
//! fit to them.

use vstd::prelude::*;
use vstd::string::*;

use crate::errors::TSError;
use crate::errors::TSErrorType;
use crate::grid_search::GridSearch;
use crate::option_instrument::OptionInstrument;
use crate::quantity::lowest_and_highest;
use crate::quantity::Quantity;
use crate::quantity::LARGEST_FINITE_BITS;
use crate::quantity::SIGN_BIT;
use crate::svi::SVICurveParameters;
use crate::text::decimal_string;
use crate::text::decimal_text;

verus! {

/// The minimum number of options a smile must have in order to be valid.
pub const SMILE_MIN_OPTIONS_REQUIRED: u64 = 5;

/// The bound after one more observation, for a bound that only rises.
pub open spec fn raised(bound: Quantity, value: Quantity) -> Quantity {
    if bound.less_than(value) {
        value
    } else {
        bound
    }
}

/// The bound after one more observation, for a bound that only falls.
pub open spec fn lowered(bound: Quantity, value: Quantity) -> Quantity {
    if value.less_than(bound) {
        value
    } else {
        bound
    }
}

/// The implied volatility an option was solved to; an option without one
/// counts as the lowest finite quantity, which raises no bound.
pub open spec fn implied_volatility_of(option: OptionInstrument) -> Quantity {
    match option.derived() {
        Ok(values) => values.implied_volatility,
        Err(_) => Quantity { bits: (LARGEST_FINITE_BITS + SIGN_BIT) as u64 },
    }
}

/// The total implied variance an option was solved to; an option without
/// one counts as zero.
pub open spec fn total_implied_variance_of(option: OptionInstrument) -> Quantity {
    match option.derived() {
        Ok(values) => values.total_implied_variance,
        Err(_) => Quantity { bits: 0 },
    }
}

/// The highest strike among the options, taken in order from the lowest
/// finite quantity.
pub open spec fn highest_strike(options: Seq<OptionInstrument>) -> Quantity
    decreases options.len(),
{
    if options.len() == 0 {
        Quantity { bits: (LARGEST_FINITE_BITS + SIGN_BIT) as u64 }
    } else {
        raised(highest_strike(options.drop_last()), options.last().quote().strike)
    }
}

/// The lowest strike among the options, taken in order from the largest
/// finite quantity.
pub open spec fn lowest_strike(options: Seq<OptionInstrument>) -> Quantity
    decreases options.len(),
{
    if options.len() == 0 {
        Quantity { bits: LARGEST_FINITE_BITS }
    } else {
        lowered(lowest_strike(options.drop_last()), options.last().quote().strike)
    }
}

/// The highest implied volatility among the options, taken in order from
/// the lowest finite quantity.
pub open spec fn highest_implied_volatility(options: Seq<OptionInstrument>) -> Quantity
    decreases options.len(),
{
    if options.len() == 0 {
        Quantity { bits: (LARGEST_FINITE_BITS + SIGN_BIT) as u64 }
    } else {
        raised(
            highest_implied_volatility(options.drop_last()),
            implied_volatility_of(options.last()),
        )
    }
}

/// What every member of a smile with the given expiry satisfies: it has
/// time left, its implied volatility was solved, and it expires then.
pub open spec fn fit_for_smile(option: OptionInstrument, expiration: i64) -> bool {
    &&& !option.expired()
    &&& option.derived() is Ok
    &&& option.expiration() == expiration
}

/// Whether an option can join the given members of a smile: it has time
/// left, its implied volatility was solved, and it expires when the members
/// do.
pub open spec fn can_join(members: Seq<OptionInstrument>, option: OptionInstrument) -> bool {
    &&& !option.expired()
    &&& option.derived() is Ok
    &&& members.len() > 0 ==> members[0].expiration() == option.expiration()
}

/// The members of the smile that comes of offering the options to an empty
/// smile one after the other: each option that can join the members
/// gathered so far does, and the others are left out.
pub open spec fn admitted(options: Seq<OptionInstrument>) -> Seq<OptionInstrument>
    decreases options.len(),
{
    if options.len() == 0 {
        Seq::empty()
    } else {
        let earlier = admitted(options.drop_last());
        if can_join(earlier, options.last()) {
            earlier.push(options.last())
        } else {
            earlier
        }
    }
}

/// The reason for which a smile with fewer options than required is not
/// valid.
pub open spec fn too_few_options_reason(found: nat) -> Seq<char> {
    "The smile graph must contain at least 5 options, found "@ + decimal_text(found)
}

/// A smile graph representing the change in volatility as the strike price
/// changes for a set of options, each having the same expiry.
#[derive(Debug)]
pub struct SmileGraph {
    options: Vec<OptionInstrument>,
    highest_observed_strike: Quantity,
    lowest_observed_strike: Quantity,
    highest_observed_implied_volatility: Quantity,
    svi_curve_parameters: Option<SVICurveParameters>,
    underlying_forward_price: Option<Quantity>,
}

impl SmileGraph {
    /// The member options, in the order of their insertion.
    pub closed spec fn options(self) -> Seq<OptionInstrument> {
        self.options@
    }

    /// The highest strike among the members.
    pub closed spec fn highest_observed_strike(self) -> Quantity {
        self.highest_observed_strike
    }

    /// The lowest strike among the members.
    pub closed spec fn lowest_observed_strike(self) -> Quantity {
        self.lowest_observed_strike
    }

    /// The highest implied volatility among the members.
    pub closed spec fn highest_observed_implied_volatility(self) -> Quantity {
        self.highest_observed_implied_volatility
    }

    /// The fitted curve, if there is one.
    pub closed spec fn svi_curve_parameters(self) -> Option<SVICurveParameters> {
        self.svi_curve_parameters
    }

    /// Whether a curve was fit: the smile graph holds one.
    pub open spec fn has_been_fit(self) -> bool {
        self.svi_curve_parameters() is Some
    }

    /// The forward price of the underlying, once it was computed.
    pub closed spec fn underlying_forward_price(self) -> Option<Quantity> {
        self.underlying_forward_price
    }

    #[verifier::type_invariant]
    spec fn well_formed(self) -> bool {
        self.wf()
    }

    /// What holds of every smile graph: its members share one expiry, have
    /// time left and a solved implied volatility; its bounds are those of
    /// its members; and it holds a forward price only when it has a member.
    pub open spec fn wf(self) -> bool {
        &&& forall|i: int|
            0 <= i < self.options().len() ==> fit_for_smile(
                #[trigger] self.options()[i],
                self.options()[0].expiration(),
            )
        &&& self.highest_observed_strike() == highest_strike(self.options())
        &&& self.lowest_observed_strike() == lowest_strike(self.options())
        &&& self.highest_observed_implied_volatility() == highest_implied_volatility(
            self.options(),
        )
        &&& self.underlying_forward_price() is Some ==> self.options().len() > 0
    }

    /// Whether the option can join the smile.
    pub open spec fn admits(self, option: OptionInstrument) -> bool {
        can_join(self.options(), option)
    }

    /// The kind of the error with which an option that cannot join is
    /// refused.
    pub open spec fn refusal_kind(self, option: OptionInstrument) -> TSErrorType {
        if option.expired() || option.derived() is Err {
            TSErrorType::UnsolvableError
        } else {
            TSErrorType::RuntimeError
        }
    }

    /// The reason with which an option that cannot join is refused.
    pub open spec fn refusal_reason(self, option: OptionInstrument) -> Seq<char> {
        if option.expired() {
            "Option already expired"@
        } else if let Err(e) = option.derived() {
            "Calculating total implied variance failed: "@ + e.reason@
        } else {
            "Cannot mix options with different expiries"@
        }
    }

    /// A smile graph without options, not yet fit.
    pub fn new() -> (r: SmileGraph)
        ensures
            r.wf(),
            r.options().len() == 0,
            r.svi_curve_parameters() is None,
            r.underlying_forward_price() is None,
    {
        SmileGraph {
            options: Vec::new(),
            svi_curve_parameters: None,
            underlying_forward_price: None,
            highest_observed_implied_volatility: Quantity::smallest_finite(),
            lowest_observed_strike: Quantity::largest_finite(),
            highest_observed_strike: Quantity::smallest_finite(),
        }
    }

    /// The first option, or a runtime error for a smile without options.
    pub fn get_first_option(&self) -> (r: Result<&OptionInstrument, TSError>)
        ensures
            r is Ok <==> self.options().len() > 0,
            r matches Ok(option) ==> *option == self.options()[0],
            r matches Err(e) ==> e.error_type == TSErrorType::RuntimeError && e.reason@
                == "Smile graphs has no options, this should never happen"@,
    {
        if self.options.len() == 0 {
            return Err(
                TSError::new(
                    TSErrorType::RuntimeError,
                    String::from_str("Smile graphs has no options, this should never happen"),
                ),
            );
        }
        Ok(&self.options[0])
    }

    /// Returns true if the smile graph has no options.
    pub fn is_empty(&self) -> (r: bool)
        ensures
            r == (self.options().len() == 0),
    {
        self.options.len() == 0
    }

    /// The expiry that the members share, or a runtime error for a smile
    /// without options.
    pub fn get_expiration(&self) -> (r: Result<i64, TSError>)
        ensures
            r is Ok <==> self.options().len() > 0,
            r matches Ok(expiration) ==> expiration == self.options()[0].expiration(),
            r matches Err(e) ==> e.error_type == TSErrorType::RuntimeError && e.reason@
                == "Smile graphs has no options, this should never happen"@,
    {
        match self.get_first_option() {
            Ok(option) => Ok(option.get_expiration()),
            Err(e) => Err(e),
        }
    }

    /// The milliseconds from the valuation time of the first option to the
    /// expiry, or a runtime error for a smile without options.
    pub fn get_millis_until_expiry(&self) -> (r: Result<i128, TSError>)
        ensures
            r is Ok <==> self.options().len() > 0,
            r matches Ok(millis) ==> millis == self.options()[0].expiration()
                - self.options()[0].valuation_time(),
            r matches Err(e) ==> e.error_type == TSErrorType::RuntimeError && e.reason@
                == "Smile graphs has no options, this should never happen"@,
    {
        match self.get_first_option() {
            Ok(option) => Ok(option.get_millis_until_expiry()),
            Err(e) => Err(e),
        }
    }

    /// The member options, in the order of their insertion.
    pub fn get_options(&self) -> (r: &Vec<OptionInstrument>)
        ensures
            r@ == self.options(),
            self.wf(),
    {
        proof {
            use_type_invariant(self);
        }
        &self.options
    }

    /// The highest strike among the members.
    pub fn get_highest_observed_strike(&self) -> (r: Quantity)
        ensures
            r == self.highest_observed_strike(),
            r == highest_strike(self.options()),
    {
        proof {
            use_type_invariant(self);
        }
        self.highest_observed_strike
    }

    /// The lowest strike among the members.
    pub fn get_lowest_observed_strike(&self) -> (r: Quantity)
        ensures
            r == self.lowest_observed_strike(),
            r == lowest_strike(self.options()),
    {
        proof {
            use_type_invariant(self);
        }
        self.lowest_observed_strike
    }

    /// The highest implied volatility among the members.
    pub fn get_highest_observed_implied_volatility(&self) -> (r: Quantity)
        ensures
            r == self.highest_observed_implied_volatility(),
            r == highest_implied_volatility(self.options()),
    {
        proof {
            use_type_invariant(self);
        }
        self.highest_observed_implied_volatility
    }

    /// The fitted curve, if there is one.
    pub fn get_svi_curve_parameters(&self) -> (r: Option<SVICurveParameters>)
        ensures
            r == self.svi_curve_parameters(),
    {
        self.svi_curve_parameters
    }

    /// The forward price of the underlying, if it was computed already.
    pub fn get_held_forward_price(&self) -> (r: Option<Quantity>)
        ensures
            r == self.underlying_forward_price(),
    {
        self.underlying_forward_price
    }

    /// Whether a curve was fit.
    pub fn get_has_been_fit(&self) -> (r: bool)
        ensures
            r == self.has_been_fit(),
    {
        self.svi_curve_parameters.is_some()
    }

    /// Insert an option into this smile graph. The option must have time
    /// left and a solved implied volatility, and the same expiry as
    /// previous inserted options (if any). An option that is refused
    /// leaves the smile graph as it was.
    pub fn try_insert_option(&mut self, option: OptionInstrument) -> (r: Result<(), TSError>)
        ensures
            old(self).wf(),
            final(self).wf(),
            r is Ok <==> old(self).admits(option),
            r is Ok ==> {
                &&& final(self).options() == old(self).options().push(option)
                &&& final(self).highest_observed_strike() == raised(
                    old(self).highest_observed_strike(),
                    option.quote().strike,
                )
                &&& final(self).lowest_observed_strike() == lowered(
                    old(self).lowest_observed_strike(),
                    option.quote().strike,
                )
                &&& final(self).highest_observed_implied_volatility() == raised(
                    old(self).highest_observed_implied_volatility(),
                    implied_volatility_of(option),
                )
                &&& final(self).svi_curve_parameters() == old(self).svi_curve_parameters()
                &&& final(self).has_been_fit() == old(self).has_been_fit()
                &&& final(self).underlying_forward_price() == old(self).underlying_forward_price()
            },
            r matches Err(e) ==> {
                &&& *final(self) == *old(self)
                &&& e.error_type == old(self).refusal_kind(option)
                &&& e.reason@ == old(self).refusal_reason(option)
            },
    {
        proof {
            use_type_invariant(&*self);
        }
        if option.is_expired() {
            return Err(
                TSError::new(
                    TSErrorType::UnsolvableError,
                    String::from_str("Option already expired"),
                ),
            );
        }
        let implied_volatility = match option.get_implied_volatility() {
            Err(e) => {
                let mut reason = String::from_str("Calculating total implied variance failed: ");
                reason.append(e.reason.as_str());
                return Err(TSError::new(TSErrorType::UnsolvableError, reason));
            },
            Ok(v) => v,
        };
        if self.options.len() > 0 && self.options[0].get_expiration() != option.get_expiration() {
            return Err(
                TSError::new(
                    TSErrorType::RuntimeError,
                    String::from_str("Cannot mix options with different expiries"),
                ),
            );
        }
        let strike = option.get_quote().strike;
        let mut taken = SmileGraph::new();
        core::mem::swap(self, &mut taken);
        let SmileGraph {
            options: mut options,
            highest_observed_strike,
            lowest_observed_strike,
            highest_observed_implied_volatility,
            svi_curve_parameters,
            underlying_forward_price,
        } = taken;
        options.push(option);
        proof {
            assert(options@.drop_last() =~= old(self).options@);
            assert(options@.last() == option);
            assert forall|i: int| 0 <= i < options@.len() implies fit_for_smile(
                #[trigger] options@[i],
                options@[0].expiration(),
            ) by {
                if i < old(self).options@.len() {
                    assert(options@[i] == old(self).options@[i]);
                }
            }
        }
        *self = SmileGraph {
            options,
            highest_observed_strike: if strike.gt(highest_observed_strike) {
                strike
            } else {
                highest_observed_strike
            },
            lowest_observed_strike: if strike.lt(lowest_observed_strike) {
                strike
            } else {
                lowest_observed_strike
            },
            highest_observed_implied_volatility: if implied_volatility.gt(
                highest_observed_implied_volatility,
            ) {
                implied_volatility
            } else {
                highest_observed_implied_volatility
            },
            svi_curve_parameters,
            underlying_forward_price,
        };
        Ok(())
    }

    /// Checks if this smile graph is valid and generally safe for use: it
    /// is when it holds at least `SMILE_MIN_OPTIONS_REQUIRED` options. If
    /// not, a string error is returned with a reason.
    pub fn error_unless_valid(&self) -> (r: Result<(), String>)
        ensures
            r is Ok <==> self.options().len() >= SMILE_MIN_OPTIONS_REQUIRED,
            r matches Err(reason) ==> reason@ == too_few_options_reason(self.options().len()),
    {
        if self.options.len() < 5 {
            let mut reason = String::from_str(
                "The smile graph must contain at least 5 options, found ",
            );
            reason.append(decimal_string(self.options.len() as u64).as_str());
            return Err(reason);
        }
        Ok(())
    }

    /// The lowest and the highest total implied variance among the
    /// members, by the total order of binary64, or a runtime error for a
    /// smile without options.
    pub fn get_total_implied_variance_range(&self) -> (r: Result<(Quantity, Quantity), TSError>)
        ensures
            self.wf(),
            r is Ok <==> self.options().len() > 0,
            r matches Ok((lowest, highest)) ==> {
                &&& exists|i: int|
                    0 <= i < self.options().len() && total_implied_variance_of(
                        #[trigger] self.options()[i],
                    ) == lowest
                &&& exists|i: int|
                    0 <= i < self.options().len() && total_implied_variance_of(
                        #[trigger] self.options()[i],
                    ) == highest
                &&& forall|i: int|
                    0 <= i < self.options().len() ==> lowest.total_at_most(
                        total_implied_variance_of(#[trigger] self.options()[i]),
                    ) && total_implied_variance_of(self.options()[i]).total_at_most(highest)
            },
            r matches Err(e) ==> e.error_type == TSErrorType::RuntimeError && e.reason@
                == "Couldn't find max when calculating highest_total_implied_variance"@,
    {
        proof {
            use_type_invariant(self);
        }
        let mut variances: Vec<Quantity> = Vec::new();
        let mut i: usize = 0;
        while i < self.options.len()
            invariant
                self.wf(),
                i <= self.options@.len(),
                variances@.len() == i,
                forall|j: int|
                    0 <= j < i ==> #[trigger] variances@[j] == total_implied_variance_of(
                        self.options@[j],
                    ),
            decreases self.options@.len() - i,
        {
            assert(fit_for_smile(self.options()[i as int], self.options()[0].expiration()));
            match self.options[i].get_total_implied_variance() {
                Ok(variance) => {
                    variances.push(variance);
                },
                Err(e) => {
                    return Err(e);
                },
            }
            i += 1;
        }
        match lowest_and_highest(&variances) {
            Some((lowest, highest)) => {
                proof {
                    let l = choose|l: int| 0 <= l < variances@.len() && variances@[l] == lowest;
                    let h = choose|h: int| 0 <= h < variances@.len() && variances@[h] == highest;
                    assert(total_implied_variance_of(self.options()[l]) == lowest);
                    assert(total_implied_variance_of(self.options()[h]) == highest);
                    assert forall|i: int| 0 <= i < self.options().len() implies lowest.total_at_most(
                        total_implied_variance_of(#[trigger] self.options()[i]),
                    ) && total_implied_variance_of(self.options()[i]).total_at_most(highest) by {
                        assert(variances@[i] == total_implied_variance_of(self.options()[i]));
                    }
                }
                Ok((lowest, highest))
            },
            None => Err(
                TSError::new(
                    TSErrorType::RuntimeError,
                    String::from_str(
                        "Couldn't find max when calculating highest_total_implied_variance",
                    ),
                ),
            ),
        }
    }

    /// Takes the outcome of the search for the curve that best represents
    /// the options. Where the smile graph is valid and the search has ended
    /// and has found a curve, the smile graph holds that curve from now on
    /// and counts as fit. Otherwise the fit has failed, and the smile graph
    /// stays as it was: a smile graph that is not valid and a search that
    /// has not ended are runtime errors, and a search that has ended
    /// without a curve leaves the smile unsolvable.
    pub fn fit_smile(&mut self, search: &GridSearch) -> (r: Result<(), TSError>)
        ensures
            old(self).wf(),
            final(self).wf(),
            r is Ok <==> old(self).options().len() >= SMILE_MIN_OPTIONS_REQUIRED
                && search@.exhausted && search@.best is Some,
            r is Ok ==> {
                &&& final(self).svi_curve_parameters() == Some(search@.best->0.curve)
                &&& final(self).has_been_fit()
                &&& final(self).options() == old(self).options()
                &&& final(self).highest_observed_strike() == old(self).highest_observed_strike()
                &&& final(self).lowest_observed_strike() == old(self).lowest_observed_strike()
                &&& final(self).highest_observed_implied_volatility() == old(
                    self,
                ).highest_observed_implied_volatility()
                &&& final(self).underlying_forward_price() == old(self).underlying_forward_price()
            },
            r matches Err(e) ==> {
                &&& *final(self) == *old(self)
                &&& e.error_type == (if old(self).options().len() >= SMILE_MIN_OPTIONS_REQUIRED
                    && search@.exhausted {
                    TSErrorType::UnsolvableError
                } else {
                    TSErrorType::RuntimeError
                })
                &&& e.reason@ == (if old(self).options().len() < SMILE_MIN_OPTIONS_REQUIRED {
                    too_few_options_reason(old(self).options().len())
                } else if !search@.exhausted {
                    "The search for a curve has not ended"@
                } else {
                    "No graph could be fit! This is probably a bug!"@
                })
            },
    {
        proof {
            use_type_invariant(&*self);
        }
        match self.error_unless_valid() {
            Err(reason) => {
                return Err(TSError::new(TSErrorType::RuntimeError, reason));
            },
            Ok(_) => {},
        }
        if !search.is_exhausted() {
            return Err(
                TSError::new(
                    TSErrorType::RuntimeError,
                    String::from_str("The search for a curve has not ended"),
                ),
            );
        }
        match search.best() {
            None => Err(
                TSError::new(
                    TSErrorType::UnsolvableError,
                    String::from_str("No graph could be fit! This is probably a bug!"),
                ),
            ),
            Some(best) => {
                self.svi_curve_parameters = Some(best.curve);
                Ok(())
            },
        }
    }

    /// Gives the smile graph a curve that was fit to it before, so that it
    /// need not be fit again. The smile graph counts as fit.
    pub fn restore_curve(&mut self, curve: SVICurveParameters)
        ensures
            old(self).wf(),
            final(self).wf(),
            final(self).svi_curve_parameters() == Some(curve),
            final(self).has_been_fit(),
            final(self).options() == old(self).options(),
            final(self).highest_observed_strike() == old(self).highest_observed_strike(),
            final(self).lowest_observed_strike() == old(self).lowest_observed_strike(),
            final(self).highest_observed_implied_volatility() == old(
                self,
            ).highest_observed_implied_volatility(),
            final(self).underlying_forward_price() == old(self).underlying_forward_price(),
    {
        proof {
            use_type_invariant(&*self);
        }
        self.svi_curve_parameters = Some(curve);
    }

    /// The forward price that best represents all of the options. It is
    /// computed once: `computed` is kept, and returned, only where no
    /// forward price is held yet; from then on the price held is returned.
    /// A smile without options has no forward price.
    pub fn get_underlying_forward_price(&mut self, computed: Quantity) -> (r: Result<
        Quantity,
        TSError,
    >)
        ensures
            old(self).wf(),
            final(self).wf(),
            r is Ok <==> old(self).options().len() > 0,
            r matches Ok(price) ==> {
                &&& price == match old(self).underlying_forward_price() {
                    Some(held) => held,
                    None => computed,
                }
                &&& final(self).underlying_forward_price() == Some(price)
                &&& final(self).options() == old(self).options()
                &&& final(self).highest_observed_strike() == old(self).highest_observed_strike()
                &&& final(self).lowest_observed_strike() == old(self).lowest_observed_strike()
                &&& final(self).highest_observed_implied_volatility() == old(
                    self,
                ).highest_observed_implied_volatility()
                &&& final(self).svi_curve_parameters() == old(self).svi_curve_parameters()
                &&& final(self).has_been_fit() == old(self).has_been_fit()
            },
            r matches Err(e) ==> {
                &&& *final(self) == *old(self)
                &&& e.error_type == TSErrorType::RuntimeError
                &&& e.reason@ == "Smile graphs has no options, this should never happen"@
            },
    {
        proof {
            use_type_invariant(&*self);
        }
        if let Some(price) = self.underlying_forward_price {
            return Ok(price);
        }
        if self.options.len() == 0 {
            return Err(
                TSError::new(
                    TSErrorType::RuntimeError,
                    String::from_str("Smile graphs has no options, this should never happen"),
                ),
            );
        }
        self.underlying_forward_price = Some(computed);
        Ok(computed)
    }
}

/// The options that are admitted one after the other all have time left
/// and a solved implied volatility, and all expire when the first of them
/// does.
pub proof fn lemma_admitted_options_are_fit_for_one_smile(options: Seq<OptionInstrument>, i: int)
    requires
        0 <= i < admitted(options).len(),
    ensures
        fit_for_smile(admitted(options)[i], admitted(options)[0].expiration()),
    decreases options.len(),
{
    let earlier = admitted(options.drop_last());
    if i < earlier.len() {
        lemma_admitted_options_are_fit_for_one_smile(options.drop_last(), i);
    }
}

/// Where every strike is a number, the strike bounds are numbers that
/// enclose the strike of every option.
pub proof fn lemma_strike_bounds_enclose_every_strike(options: Seq<OptionInstrument>, i: int)
    requires
        0 <= i < options.len(),
        forall|j: int| 0 <= j < options.len() ==> !(#[trigger] options[j]).quote().strike.nan(),
    ensures
        options[i].quote().strike.at_most(highest_strike(options)),
        lowest_strike(options).at_most(options[i].quote().strike),
    decreases options.len(),
{
    lemma_strike_bounds_are_numbers(options.drop_last());
    if i < options.len() - 1 {
        lemma_strike_bounds_enclose_every_strike(options.drop_last(), i);
    }
}

/// Where every strike is a number, so are the strike bounds.
pub proof fn lemma_strike_bounds_are_numbers(options: Seq<OptionInstrument>)
    requires
        forall|j: int| 0 <= j < options.len() ==> !(#[trigger] options[j]).quote().strike.nan(),
    ensures
        !highest_strike(options).nan(),
        !lowest_strike(options).nan(),
    decreases options.len(),
{
    if options.len() > 0 {
        lemma_strike_bounds_are_numbers(options.drop_last());
    }
}

/// Where every option was solved to an implied volatility that is a
/// number, the highest implied volatility is a number that none of them
/// exceeds.
pub proof fn lemma_highest_implied_volatility_is_not_exceeded(
    options: Seq<OptionInstrument>,
    i: int,
)
    requires
        0 <= i < options.len(),
        forall|j: int|
            0 <= j < options.len() ==> !implied_volatility_of(#[trigger] options[j]).nan(),
    ensures
        !highest_implied_volatility(options).nan(),
        implied_volatility_of(options[i]).at_most(highest_implied_volatility(options)),
    decreases options.len(),
{
    lemma_highest_implied_volatility_is_a_number(options.drop_last());
    if i < options.len() - 1 {
        lemma_highest_implied_volatility_is_not_exceeded(options.drop_last(), i);
    }
}

proof fn lemma_highest_implied_volatility_is_a_number(options: Seq<OptionInstrument>)
    requires
        forall|j: int|
            0 <= j < options.len() ==> !implied_volatility_of(#[trigger] options[j]).nan(),
    ensures
        !highest_implied_volatility(options).nan(),
    decreases options.len(),
{
    if options.len() > 0 {
        lemma_highest_implied_volatility_is_a_number(options.drop_last());
    }
}

} // verus!
