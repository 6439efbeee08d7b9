//! The search for the volatility at which the pricing model reproduces a
//! quoted price.
//!
//! The caller prices the model and does the arithmetic on the bounds; the
//! search holds the bounds, decides each step on the prices it is shown, and
//! ends after a bounded number of steps.

use vstd::prelude::*;
use vstd::string::*;

use crate::errors::TSError;
use crate::errors::TSErrorType;
use crate::option_instrument::OptionType;
use crate::quantity::Quantity;

verus! {

/// When solving implied volatility, the search goes on until the bounds
/// are this close: the encoding of 0.0001.
pub const IMPLIED_VOLATILITY_SOLVER_ACCURACY_BITS: u64 = 0x3F1A_36E2_EB1C_432D;

/// The number of times the upper bound may be doubled, and the number of
/// times the bounds may be halved.
pub const SOLVER_MAX_ITERATIONS: u64 = 64;

/// The highest price an option of the given kind can have: the spot price
/// for a call, the strike discounted to today for a put.
pub open spec fn price_ceiling(
    option_type: OptionType,
    asset_spot_price: Quantity,
    strike_value_now: Quantity,
) -> Quantity {
    match option_type {
        OptionType::Call => asset_spot_price,
        OptionType::Put => strike_value_now,
    }
}

/// Whether a quantity can be the quoted price of an option: it is a finite
/// number above zero.
pub open spec fn price_is_valid(option_price: Quantity) -> bool {
    option_price.positive() && option_price.finite()
}

/// Whether some volatility may reproduce the price: it is neither below
/// the floor that put-call parity sets nor above the ceiling of its kind.
pub open spec fn price_is_feasible(
    option_type: OptionType,
    option_price: Quantity,
    asset_spot_price: Quantity,
    strike_value_now: Quantity,
    parity_floor: Quantity,
) -> bool {
    &&& !option_price.less_than(parity_floor)
    &&& !price_ceiling(option_type, asset_spot_price, strike_value_now).less_than(option_price)
}

/// The reason for which a price that is not feasible is refused.
pub open spec fn infeasible_price_reason(
    option_type: OptionType,
    option_price: Quantity,
    parity_floor: Quantity,
) -> Seq<char> {
    match option_type {
        OptionType::Call => if option_price.less_than(parity_floor) {
            "Call option price too low"@
        } else {
            "Call option price too high"@
        },
        OptionType::Put => if option_price.less_than(parity_floor) {
            "Put option price too low"@
        } else {
            "Put option price too high"@
        },
    }
}

/// Whether bounds that lie `width` apart are close enough for their
/// midpoint to be the result.
pub open spec fn close_enough(width: Quantity) -> bool {
    width.at_most(Quantity { bits: IMPLIED_VOLATILITY_SOLVER_ACCURACY_BITS })
}

/// The bounds of a search as mathematical values, with the quoted price
/// and what is known of the model's price at either bound.
pub struct Bracket {
    pub option_price: Quantity,
    pub lower: Quantity,
    pub upper: Quantity,
    /// The model's price at the lower bound, once the lower bound was
    /// priced.
    pub price_at_lower: Option<Quantity>,
    /// The model's price at the upper bound.
    pub price_at_upper: Quantity,
}

impl Bracket {
    /// What holds of the bounds while they are halved: the lower bound is
    /// at most the upper bound, the model's price at the upper bound is at
    /// least the quoted price, and the model's price at the lower bound,
    /// where it is known, is not above the quoted price.
    pub open spec fn encloses_the_price(self) -> bool {
        &&& self.lower.at_most(self.upper)
        &&& self.option_price.at_most(self.price_at_upper)
        &&& self.price_at_lower matches Some(price) ==> !self.option_price.less_than(price)
    }

    /// Whether a volatility lies within the bounds.
    pub open spec fn holds(self, volatility: Quantity) -> bool {
        self.lower.at_most(volatility) && volatility.at_most(self.upper)
    }
}

/// The first phase of the search for an implied volatility: the upper
/// bound is doubled until the model's price at it reaches the quoted price.
#[derive(Clone, Copy, Debug)]
pub struct BoundSearch {
    option_price: Quantity,
    lower: Quantity,
    upper: Quantity,
    doublings: u64,
}

/// The second phase: the bounds are halved around the volatility sought.
#[derive(Clone, Copy, Debug)]
pub struct Bisection {
    option_price: Quantity,
    lower: Quantity,
    upper: Quantity,
    price_at_lower: Option<Quantity>,
    price_at_upper: Quantity,
    halvings: u64,
}

/// What to do after the model's price at the upper bound is known.
#[derive(Debug)]
pub enum BoundStep {
    /// The volatility sought lies within the bounds: go on to halve them.
    Bracketed(Bisection),
    /// The upper bound is too low: it was doubled, price again.
    Double(BoundSearch),
    /// The search has failed.
    Failed(TSError),
}

/// What to do after the model's price at the midpoint is known.
#[derive(Debug)]
pub enum BisectionStep {
    /// The search has ended, and this is the implied volatility.
    Converged(Quantity),
    /// The midpoint is too high: it is the upper bound now.
    LowerHalf(Bisection),
    /// The midpoint is not too high: it is the lower bound now.
    UpperHalf(Bisection),
    /// The search has failed.
    Failed(TSError),
}

impl BoundSearch {
    #[verifier::type_invariant]
    spec fn well_formed(self) -> bool {
        &&& self.doublings <= SOLVER_MAX_ITERATIONS
        &&& self.lower.at_most(self.upper)
    }

    /// The quoted price of the option.
    pub closed spec fn option_price(self) -> Quantity {
        self.option_price
    }

    /// The lower bound.
    pub closed spec fn lower(self) -> Quantity {
        self.lower
    }

    /// The upper bound.
    pub closed spec fn upper(self) -> Quantity {
        self.upper
    }

    /// How often the upper bound was doubled so far.
    pub closed spec fn doublings(self) -> nat {
        self.doublings as nat
    }

    /// Starts a search for the volatility that reproduces `option_price`
    /// between the bounds zero and two, unless the price is no valid
    /// price, which is a fault of the caller's value, or is not feasible,
    /// which leaves nothing to solve. `strike_value_now` is the strike
    /// discounted to today; `parity_floor` is the spot price less the
    /// discounted strike for a call, and the reverse for a put.
    pub fn begin(
        option_type: OptionType,
        option_price: Quantity,
        asset_spot_price: Quantity,
        strike_value_now: Quantity,
        parity_floor: Quantity,
    ) -> (r: Result<BoundSearch, TSError>)
        ensures
            r is Ok <==> price_is_valid(option_price) && price_is_feasible(
                option_type,
                option_price,
                asset_spot_price,
                strike_value_now,
                parity_floor,
            ),
            r matches Ok(search) ==> {
                &&& search.option_price() == option_price
                &&& search.lower().bits == 0
                &&& search.upper().bits == 0x4000_0000_0000_0000u64
                &&& search.doublings() == 0
            },
            r matches Err(e) ==> (if !price_is_valid(option_price) {
                e.error_type == TSErrorType::RuntimeError && e.reason@
                    == "option_price must be a finite number > 0"@
            } else {
                e.error_type == TSErrorType::UnsolvableError && e.reason@
                    == infeasible_price_reason(option_type, option_price, parity_floor)
            }),
    {
        if !(option_price.is_positive() && option_price.is_finite()) {
            return Err(
                TSError::new(
                    TSErrorType::RuntimeError,
                    String::from_str("option_price must be a finite number > 0"),
                ),
            );
        }
        let too_low = option_price.lt(parity_floor);
        match option_type {
            OptionType::Call => {
                if too_low {
                    return Err(
                        TSError::new(
                            TSErrorType::UnsolvableError,
                            String::from_str("Call option price too low"),
                        ),
                    );
                }
                if option_price.gt(asset_spot_price) {
                    return Err(
                        TSError::new(
                            TSErrorType::UnsolvableError,
                            String::from_str("Call option price too high"),
                        ),
                    );
                }
            },
            OptionType::Put => {
                if too_low {
                    return Err(
                        TSError::new(
                            TSErrorType::UnsolvableError,
                            String::from_str("Put option price too low"),
                        ),
                    );
                }
                if option_price.gt(strike_value_now) {
                    return Err(
                        TSError::new(
                            TSErrorType::UnsolvableError,
                            String::from_str("Put option price too high"),
                        ),
                    );
                }
            },
        }
        Ok(
            BoundSearch {
                option_price,
                lower: Quantity::zero(),
                upper: Quantity::two(),
                doublings: 0,
            },
        )
    }

    /// The upper bound, at which the model is to be priced next.
    pub fn get_upper_bound(&self) -> (r: Quantity)
        ensures
            r == self.upper(),
    {
        self.upper
    }

    /// The lower bound.
    pub fn get_lower_bound(&self) -> (r: Quantity)
        ensures
            r == self.lower(),
    {
        self.lower
    }

    /// Decides on the model's price at the upper bound; `doubled` is twice
    /// the upper bound. Once the price reaches the quoted price the bounds
    /// enclose the volatility sought. Until then the upper bound is
    /// doubled, `SOLVER_MAX_ITERATIONS` times at most, after which the
    /// search fails as unsolvable. A `doubled` that is not above the upper
    /// bound is a runtime error.
    pub fn observe(self, price_at_upper_bound: Quantity, doubled: Quantity) -> (r: BoundStep)
        ensures
            self.doublings() <= SOLVER_MAX_ITERATIONS,
            self.lower().at_most(self.upper()),
            r is Bracketed <==> self.option_price().at_most(price_at_upper_bound),
            r is Double <==> !self.option_price().at_most(price_at_upper_bound)
                && self.doublings() < SOLVER_MAX_ITERATIONS && self.upper().less_than(doubled),
            r matches BoundStep::Bracketed(bisection) ==> {
                &&& bisection.bracket() == (Bracket {
                    option_price: self.option_price(),
                    lower: self.lower(),
                    upper: self.upper(),
                    price_at_lower: None,
                    price_at_upper: price_at_upper_bound,
                })
                &&& bisection.halvings() == 0
            },
            r matches BoundStep::Double(search) ==> {
                &&& search.option_price() == self.option_price()
                &&& search.lower() == self.lower()
                &&& search.upper() == doubled
                &&& search.doublings() == self.doublings() + 1
            },
            r matches BoundStep::Failed(e) ==> (if self.doublings() == SOLVER_MAX_ITERATIONS {
                e.error_type == TSErrorType::UnsolvableError && e.reason@
                    == "Too many iterations when finding bounds"@
            } else {
                e.error_type == TSErrorType::RuntimeError && e.reason@
                    == "Doubling did not raise the upper bound"@
            }),
    {
        proof {
            use_type_invariant(self);
        }
        if price_at_upper_bound.ge(self.option_price) {
            BoundStep::Bracketed(
                Bisection {
                    option_price: self.option_price,
                    lower: self.lower,
                    upper: self.upper,
                    price_at_lower: None,
                    price_at_upper: price_at_upper_bound,
                    halvings: 0,
                },
            )
        } else if self.doublings >= SOLVER_MAX_ITERATIONS {
            BoundStep::Failed(
                TSError::new(
                    TSErrorType::UnsolvableError,
                    String::from_str("Too many iterations when finding bounds"),
                ),
            )
        } else if !self.upper.lt(doubled) {
            BoundStep::Failed(
                TSError::new(
                    TSErrorType::RuntimeError,
                    String::from_str("Doubling did not raise the upper bound"),
                ),
            )
        } else {
            BoundStep::Double(
                BoundSearch {
                    option_price: self.option_price,
                    lower: self.lower,
                    upper: doubled,
                    doublings: self.doublings + 1,
                },
            )
        }
    }
}

impl Bisection {
    #[verifier::type_invariant]
    spec fn well_formed(self) -> bool {
        &&& self.halvings <= SOLVER_MAX_ITERATIONS
        &&& self.bracket().encloses_the_price()
    }

    /// The bounds, the quoted price and the model's prices at the bounds.
    pub closed spec fn bracket(self) -> Bracket {
        Bracket {
            option_price: self.option_price,
            lower: self.lower,
            upper: self.upper,
            price_at_lower: self.price_at_lower,
            price_at_upper: self.price_at_upper,
        }
    }

    /// How often the bounds were halved so far.
    pub closed spec fn halvings(self) -> nat {
        self.halvings as nat
    }

    /// The distance between the bounds at which the search stops.
    pub fn tolerance() -> (r: Quantity)
        ensures
            r.bits == IMPLIED_VOLATILITY_SOLVER_ACCURACY_BITS,
    {
        Quantity::from_bits(IMPLIED_VOLATILITY_SOLVER_ACCURACY_BITS)
    }

    /// The lower and the upper bound.
    pub fn get_bounds(&self) -> (r: (Quantity, Quantity))
        ensures
            r.0 == self.bracket().lower,
            r.1 == self.bracket().upper,
            self.bracket().encloses_the_price(),
    {
        proof {
            use_type_invariant(self);
        }
        (self.lower, self.upper)
    }

    /// Decides on the midpoint of the bounds, given the distance `width`
    /// between the bounds and the model's price at the midpoint.
    ///
    /// A midpoint that does not lie within the bounds is a runtime error.
    /// The search ends on the midpoint where the bounds are close enough,
    /// or where the price at it equals the quoted price. Else a price above
    /// the quoted price makes the midpoint the upper bound, and any other
    /// price makes it the lower bound; the bounds are halved
    /// `SOLVER_MAX_ITERATIONS` times at most, after which the search fails
    /// as unsolvable.
    pub fn observe(self, midpoint: Quantity, width: Quantity, price_at_midpoint: Quantity) -> (r:
        BisectionStep)
        ensures
            self.halvings() <= SOLVER_MAX_ITERATIONS,
            self.bracket().encloses_the_price(),
            r is Converged <==> self.bracket().holds(midpoint) && (close_enough(width)
                || price_at_midpoint.same_value(self.bracket().option_price)),
            r matches BisectionStep::Converged(volatility) ==> volatility == midpoint,
            r is LowerHalf <==> self.bracket().holds(midpoint) && !close_enough(width)
                && self.halvings() < SOLVER_MAX_ITERATIONS
                && self.bracket().option_price.less_than(price_at_midpoint),
            r is UpperHalf <==> self.bracket().holds(midpoint) && !close_enough(width)
                && self.halvings() < SOLVER_MAX_ITERATIONS && !price_at_midpoint.same_value(
                self.bracket().option_price,
            ) && !self.bracket().option_price.less_than(price_at_midpoint),
            r matches BisectionStep::LowerHalf(next) ==> {
                &&& next.bracket() == (Bracket {
                    upper: midpoint,
                    price_at_upper: price_at_midpoint,
                    ..self.bracket()
                })
                &&& next.halvings() == self.halvings() + 1
            },
            r matches BisectionStep::UpperHalf(next) ==> {
                &&& next.bracket() == (Bracket {
                    lower: midpoint,
                    price_at_lower: Some(price_at_midpoint),
                    ..self.bracket()
                })
                &&& next.halvings() == self.halvings() + 1
            },
            r matches BisectionStep::Failed(e) ==> (if !self.bracket().holds(midpoint) {
                e.error_type == TSErrorType::RuntimeError && e.reason@
                    == "Midpoint outside the bounds"@
            } else {
                e.error_type == TSErrorType::UnsolvableError && e.reason@
                    == "Too many iterations when narrowing bounds"@
            }),
    {
        proof {
            use_type_invariant(self);
        }
        if !(self.lower.le(midpoint) && midpoint.le(self.upper)) {
            BisectionStep::Failed(
                TSError::new(
                    TSErrorType::RuntimeError,
                    String::from_str("Midpoint outside the bounds"),
                ),
            )
        } else if width.le(Bisection::tolerance()) || price_at_midpoint.equals(self.option_price) {
            BisectionStep::Converged(midpoint)
        } else if self.halvings >= SOLVER_MAX_ITERATIONS {
            BisectionStep::Failed(
                TSError::new(
                    TSErrorType::UnsolvableError,
                    String::from_str("Too many iterations when narrowing bounds"),
                ),
            )
        } else if price_at_midpoint.gt(self.option_price) {
            BisectionStep::LowerHalf(
                Bisection {
                    option_price: self.option_price,
                    lower: self.lower,
                    upper: midpoint,
                    price_at_lower: self.price_at_lower,
                    price_at_upper: price_at_midpoint,
                    halvings: self.halvings + 1,
                },
            )
        } else {
            BisectionStep::UpperHalf(
                Bisection {
                    option_price: self.option_price,
                    lower: midpoint,
                    upper: self.upper,
                    price_at_lower: Some(price_at_midpoint),
                    price_at_upper: self.price_at_upper,
                    halvings: self.halvings + 1,
                },
            )
        }
    }
}

/// The bounds only narrow: a volatility within the bounds after a halving
/// was within the bounds before it.
pub proof fn lemma_halving_narrows_the_bounds(
    before: Bracket,
    after: Bracket,
    midpoint: Quantity,
    volatility: Quantity,
)
    requires
        before.holds(midpoint),
        after.lower == before.lower && after.upper == midpoint || after.lower == midpoint
            && after.upper == before.upper,
        after.holds(volatility),
    ensures
        before.holds(volatility),
{
}

/// Whether a pricing function rises with the volatility: of two numbers
/// the lower has the lower price.
pub open spec fn rises_with_volatility(price: spec_fn(Quantity) -> Quantity) -> bool {
    forall|a: Quantity, b: Quantity|
        a.less_than(b) ==> (#[trigger] price(a)).less_than(#[trigger] price(b))
}

/// Whether the prices that a bracket records at its bounds are those of
/// the pricing function.
pub open spec fn priced_by(bracket: Bracket, price: spec_fn(Quantity) -> Quantity) -> bool {
    &&& bracket.price_at_upper == price(bracket.upper)
    &&& bracket.price_at_lower matches Some(at_lower) ==> at_lower == price(bracket.lower)
}

/// Under a price that rises with the volatility, the volatility that
/// reproduces the quoted price lies within the bounds: a bracket that
/// encloses the price holds every volatility whose price is the quoted
/// price, provided that volatility is not below a lower bound that was
/// never priced.
pub proof fn lemma_bracket_holds_the_volatility_sought(
    bracket: Bracket,
    price: spec_fn(Quantity) -> Quantity,
    volatility: Quantity,
)
    requires
        rises_with_volatility(price),
        bracket.encloses_the_price(),
        priced_by(bracket, price),
        !volatility.nan(),
        price(volatility) == bracket.option_price,
        bracket.price_at_lower is None ==> bracket.lower.at_most(volatility),
    ensures
        bracket.holds(volatility),
{
    if bracket.upper.less_than(volatility) {
        assert(price(bracket.upper).less_than(price(volatility)));
    }
    if volatility.less_than(bracket.lower) {
        assert(price(volatility).less_than(price(bracket.lower)));
    }
}

} // verus!
