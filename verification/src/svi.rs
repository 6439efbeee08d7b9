//! The parameters of a stochastic-volatility-inspired total-variance curve,
//! the conditions under which they make a valid curve, and the verdict of
//! a scan for butterfly arbitrage.

use vstd::prelude::*;
use vstd::string::*;

use crate::errors::TSError;
use crate::errors::TSErrorType;
use crate::quantity::Quantity;
use crate::quantity::ONE_BITS;

verus! {

/// The five parameters of a total-variance curve over log-moneyness `x`:
/// `a + b * (p * (x - m) + sqrt((x - m)^2 + o^2))`.
///
/// A value of this type always has its parameters in range, see
/// [`parameters_in_range`], and was made with a valid shape, see
/// [`shape_is_valid`].
#[derive(Clone, Copy, Debug)]
pub struct SVICurveParameters {
    a: Quantity,
    b: Quantity,
    p: Quantity,
    m: Quantity,
    o: Quantity,
}

/// The ranges a curve's parameters lie in: all five are finite numbers,
/// `b >= 0`, `-1 < p < 1` and `o > 0`.
pub open spec fn parameters_in_range(
    a: Quantity,
    b: Quantity,
    p: Quantity,
    m: Quantity,
    o: Quantity,
) -> bool {
    &&& b.finite() && b.ordinal() >= 0
    &&& -(ONE_BITS as int) < p.ordinal() < ONE_BITS
    &&& o.finite() && o.ordinal() > 0
    &&& a.finite()
    &&& m.finite()
}

/// The reason for which parameters out of range are refused: the first of
/// `b`, `p`, `o`, `a`, `m` that is out of its range is named.
pub open spec fn range_violation(
    a: Quantity,
    b: Quantity,
    p: Quantity,
    m: Quantity,
    o: Quantity,
) -> Seq<char> {
    if !(b.finite() && b.ordinal() >= 0) {
        "SVI parameter b must be a finite number >= 0"@
    } else if !(-(ONE_BITS as int) < p.ordinal() < ONE_BITS) {
        "SVI parameter p must lie strictly between -1 and 1"@
    } else if !(o.finite() && o.ordinal() > 0) {
        "SVI parameter o must be a finite number > 0"@
    } else if !a.finite() {
        "SVI parameter a must be a finite number"@
    } else {
        "SVI parameter m must be a finite number"@
    }
}

/// The lowest total variance a curve may take at any point: the encoding of
/// 0.000000001.
pub const MINIMUM_VARIANCE_BITS: u64 = 0x3E11_2E0B_E826_D695;

/// Whether a total variance is a number at or above the floor.
pub open spec fn variance_is_valid(variance: Quantity) -> bool {
    Quantity { bits: MINIMUM_VARIANCE_BITS }.at_most(variance)
}

/// Whether a slope is a number strictly between zero and two.
pub open spec fn slope_is_valid(slope: Quantity) -> bool {
    &&& Quantity { bits: 0 }.less_than(slope)
    &&& slope.less_than(Quantity { bits: 0x4000_0000_0000_0000u64 })
}

/// What the arithmetic on a curve's parameters says of its shape.
#[derive(Clone, Copy, PartialEq, Eq, Debug, Structural)]
pub struct CurveShape {
    /// The lowest total variance the curve takes: `a + b * o * sqrt(1 - p^2)`.
    pub lowest_variance: Quantity,
    /// The slope the curve tends to far to the left, negated: `b * (1 - p)`.
    pub left_slope: Quantity,
    /// The slope the curve tends to far to the right: `b * (1 + p)`.
    pub right_slope: Quantity,
}

/// Whether a shape is that of a valid curve: its lowest variance is at or
/// above the floor, and both its slopes lie strictly between zero and two.
pub open spec fn shape_is_valid(shape: CurveShape) -> bool {
    &&& variance_is_valid(shape.lowest_variance)
    &&& slope_is_valid(shape.left_slope)
    &&& slope_is_valid(shape.right_slope)
}

/// The reason for which a shape is refused.
pub open spec fn invalid_shape_reason(shape: CurveShape) -> Seq<char> {
    if !variance_is_valid(shape.lowest_variance) {
        "The curve's lowest variance is below the floor"@
    } else {
        "The curve's slopes must lie strictly between 0 and 2"@
    }
}

/// The total variance of a curve at a point, unless it is below the floor
/// or no number.
pub fn error_unless_variance_is_valid(variance: Quantity) -> (r: Result<Quantity, TSError>)
    ensures
        r is Ok <==> variance_is_valid(variance),
        r matches Ok(v) ==> v == variance,
        r matches Err(e) ==> e.error_type == TSErrorType::UnsolvableError && e.reason@
            == "The curve's variance is below the floor"@,
{
    if variance.ge(Quantity::from_bits(MINIMUM_VARIANCE_BITS)) {
        Ok(variance)
    } else {
        Err(
            TSError::new(
                TSErrorType::UnsolvableError,
                String::from_str("The curve's variance is below the floor"),
            ),
        )
    }
}

/// Accepts the shape of a valid curve and refuses any other.
pub fn error_unless_shape_is_valid(shape: CurveShape) -> (r: Result<(), TSError>)
    ensures
        r is Ok <==> shape_is_valid(shape),
        r matches Err(e) ==> e.error_type == TSErrorType::UnsolvableError && e.reason@
            == invalid_shape_reason(shape),
{
    let zero = Quantity::zero();
    let two = Quantity::two();
    if !shape.lowest_variance.ge(Quantity::from_bits(MINIMUM_VARIANCE_BITS)) {
        return Err(
            TSError::new(
                TSErrorType::UnsolvableError,
                String::from_str("The curve's lowest variance is below the floor"),
            ),
        );
    }
    if !(zero.lt(shape.left_slope) && shape.left_slope.lt(two) && zero.lt(shape.right_slope)
        && shape.right_slope.lt(two)) {
        return Err(
            TSError::new(
                TSErrorType::UnsolvableError,
                String::from_str("The curve's slopes must lie strictly between 0 and 2"),
            ),
        );
    }
    Ok(())
}

impl SVICurveParameters {
    #[verifier::type_invariant]
    spec fn in_range(self) -> bool {
        parameters_in_range(self.a, self.b, self.p, self.m, self.o)
    }

    /// The vertical offset.
    pub closed spec fn a(self) -> Quantity {
        self.a
    }

    /// The slope scale.
    pub closed spec fn b(self) -> Quantity {
        self.b
    }

    /// The rotation.
    pub closed spec fn p(self) -> Quantity {
        self.p
    }

    /// The horizontal offset.
    pub closed spec fn m(self) -> Quantity {
        self.m
    }

    /// The curvature at the vertex.
    pub closed spec fn o(self) -> Quantity {
        self.o
    }

    /// A curve with the given parameters, or the reason for which they are
    /// refused. `shape` is what the arithmetic on the parameters says of
    /// the curve's shape. Parameters are accepted exactly when they are in
    /// range and the shape is valid; so `b < 0`, `|p| >= 1` and `o <= 0`
    /// are each refused, whatever the shape. The ranges are checked first.
    pub fn new_from_values(
        a: Quantity,
        b: Quantity,
        p: Quantity,
        m: Quantity,
        o: Quantity,
        shape: CurveShape,
    ) -> (r: Result<SVICurveParameters, TSError>)
        ensures
            r is Ok <==> parameters_in_range(a, b, p, m, o) && shape_is_valid(shape),
            r matches Ok(c) ==> c.a() == a && c.b() == b && c.p() == p && c.m() == m && c.o() == o,
            r matches Err(e) ==> e.error_type == TSErrorType::UnsolvableError && e.reason@ == (
            if !parameters_in_range(a, b, p, m, o) {
                range_violation(a, b, p, m, o)
            } else {
                invalid_shape_reason(shape)
            }),
    {
        let zero = Quantity::zero();
        let one = Quantity::one();
        if !(b.is_finite() && zero.le(b)) {
            return Err(
                TSError::new(
                    TSErrorType::UnsolvableError,
                    String::from_str("SVI parameter b must be a finite number >= 0"),
                ),
            );
        }
        if !(one.negated().lt(p) && p.lt(one)) {
            return Err(
                TSError::new(
                    TSErrorType::UnsolvableError,
                    String::from_str("SVI parameter p must lie strictly between -1 and 1"),
                ),
            );
        }
        if !(o.is_finite() && zero.lt(o)) {
            return Err(
                TSError::new(
                    TSErrorType::UnsolvableError,
                    String::from_str("SVI parameter o must be a finite number > 0"),
                ),
            );
        }
        if !a.is_finite() {
            return Err(
                TSError::new(
                    TSErrorType::UnsolvableError,
                    String::from_str("SVI parameter a must be a finite number"),
                ),
            );
        }
        if !m.is_finite() {
            return Err(
                TSError::new(
                    TSErrorType::UnsolvableError,
                    String::from_str("SVI parameter m must be a finite number"),
                ),
            );
        }
        match error_unless_shape_is_valid(shape) {
            Err(e) => Err(e),
            Ok(_) => Ok(SVICurveParameters { a, b, p, m, o }),
        }
    }

    /// The vertical offset.
    pub fn get_a(&self) -> (r: Quantity)
        ensures
            r == self.a(),
            r.finite(),
    {
        proof {
            use_type_invariant(self);
        }
        self.a
    }

    /// The slope scale.
    pub fn get_b(&self) -> (r: Quantity)
        ensures
            r == self.b(),
            r.finite(),
            r.ordinal() >= 0,
    {
        proof {
            use_type_invariant(self);
        }
        self.b
    }

    /// The rotation.
    pub fn get_p(&self) -> (r: Quantity)
        ensures
            r == self.p(),
            -(ONE_BITS as int) < r.ordinal() < ONE_BITS,
    {
        proof {
            use_type_invariant(self);
        }
        self.p
    }

    /// The horizontal offset.
    pub fn get_m(&self) -> (r: Quantity)
        ensures
            r == self.m(),
            r.finite(),
    {
        proof {
            use_type_invariant(self);
        }
        self.m
    }

    /// The curvature at the vertex.
    pub fn get_o(&self) -> (r: Quantity)
        ensures
            r == self.o(),
            r.finite(),
            r.ordinal() > 0,
    {
        proof {
            use_type_invariant(self);
        }
        self.o
    }
}

/// Parameters with `b` below zero, with `p` at or beyond one in absolute
/// value, or with `o` at or below zero are out of range, and so is any
/// parameter that is not a number.
pub proof fn lemma_out_of_range_parameters(
    a: Quantity,
    b: Quantity,
    p: Quantity,
    m: Quantity,
    o: Quantity,
)
    requires
        ({
            ||| b.less_than(Quantity { bits: 0 })
            ||| Quantity { bits: ONE_BITS }.at_most(p)
            ||| p.at_most(Quantity { bits: 0xBFF0_0000_0000_0000u64 })
            ||| o.at_most(Quantity { bits: 0 })
            ||| a.nan() || b.nan() || p.nan() || m.nan() || o.nan()
        }),
    ensures
        !parameters_in_range(a, b, p, m, o),
{
}

/// Whether the density that a curve implies is negative at a point, given
/// the value `g` of the butterfly condition there.
pub open spec fn shows_arbitrage(g: Quantity) -> bool {
    g.less_than(Quantity { bits: 0 })
}

/// What a scan over the given points comes to. Each point holds the value
/// of the butterfly condition there, or the failure to evaluate the curve
/// there. The first point that fails or shows arbitrage decides: a failure
/// ends the scan with that failure, arbitrage ends it with `true`. A scan
/// in which no point does either comes to `false`.
pub open spec fn scan_verdict(points: Seq<Result<Quantity, TSError>>) -> Result<bool, TSError>
    decreases points.len(),
{
    if points.len() == 0 {
        Ok(false)
    } else {
        match points[0] {
            Err(e) => Err(e),
            Ok(g) => if shows_arbitrage(g) {
                Ok(true)
            } else {
                scan_verdict(points.drop_first())
            },
        }
    }
}

/// Says whether a scan of a curve found butterfly arbitrage.
pub fn has_butterfly_arbitrage(points: &Vec<Result<Quantity, TSError>>) -> (r: Result<
    bool,
    TSError,
>)
    ensures
        r == scan_verdict(points@),
{
    let mut i: usize = 0;
    proof {
        assert(points@.skip(0) =~= points@);
    }
    while i < points.len()
        invariant
            i <= points@.len(),
            scan_verdict(points@) == scan_verdict(points@.skip(i as int)),
        decreases points@.len() - i,
    {
        proof {
            assert(points@.skip(i as int)[0] == points@[i as int]);
            assert(points@.skip(i as int).drop_first() =~= points@.skip(i + 1));
        }
        match &points[i] {
            Err(e) => {
                return Err(e.clone());
            },
            Ok(g) => {
                if g.lt(Quantity::zero()) {
                    return Ok(true);
                }
            },
        }
        i += 1;
    }
    Ok(false)
}

/// A scan finds arbitrage exactly when some point shows it and no point
/// before that one fails or shows it; and it comes to `false` exactly when
/// every point was evaluated and none shows arbitrage.
pub proof fn lemma_scan_finds_the_first_violation(points: Seq<Result<Quantity, TSError>>)
    ensures
        scan_verdict(points) == Ok::<bool, TSError>(false) <==> forall|i: int|
            0 <= i < points.len() ==> (#[trigger] points[i] matches Ok(g) && !shows_arbitrage(g)),
        scan_verdict(points) == Ok::<bool, TSError>(true) <==> exists|i: int|
            0 <= i < points.len() && (#[trigger] points[i] matches Ok(g) && shows_arbitrage(g))
                && forall|j: int|
                0 <= j < i ==> (#[trigger] points[j] matches Ok(h) && !shows_arbitrage(h)),
    decreases points.len(),
{
    if points.len() > 0 {
        let rest = points.drop_first();
        lemma_scan_finds_the_first_violation(rest);
        assert forall|i: int| 0 <= i < rest.len() implies #[trigger] rest[i] == points[i + 1] by {}
        match points[0] {
            Err(e) => {
                assert(!(points[0] matches Ok(g) && !shows_arbitrage(g)));
                assert forall|i: int|
                    0 <= i < points.len() && (#[trigger] points[i] matches Ok(g) && shows_arbitrage(
                        g,
                    )) implies !(forall|j: int|
                    0 <= j < i ==> (#[trigger] points[j] matches Ok(h) && !shows_arbitrage(h))) by {
                    assert(!(points[0] matches Ok(h) && !shows_arbitrage(h)));
                }
            },
            Ok(g0) => {
                if shows_arbitrage(g0) {
                    assert(points[0] matches Ok(g) && shows_arbitrage(g));
                    assert(!(points[0] matches Ok(g) && !shows_arbitrage(g)));
                } else {
                    if scan_verdict(rest) == Ok::<bool, TSError>(false) {
                        assert forall|i: int| 0 <= i < points.len() implies (#[trigger] points[i] matches Ok(
                            g,
                        ) && !shows_arbitrage(g)) by {
                            if i > 0 {
                                assert(rest[i - 1] == points[i]);
                            }
                        }
                    }
                    if forall|i: int|
                        0 <= i < points.len() ==> (#[trigger] points[i] matches Ok(g)
                            && !shows_arbitrage(g)) {
                        assert forall|i: int| 0 <= i < rest.len() implies (#[trigger] rest[i] matches Ok(
                            g,
                        ) && !shows_arbitrage(g)) by {
                            assert(rest[i] == points[i + 1]);
                        }
                    }
                    if scan_verdict(rest) == Ok::<bool, TSError>(true) {
                        let k = choose|k: int|
                            0 <= k < rest.len() && (#[trigger] rest[k] matches Ok(g)
                                && shows_arbitrage(g)) && forall|j: int|
                                0 <= j < k ==> (#[trigger] rest[j] matches Ok(h)
                                    && !shows_arbitrage(h));
                        assert(points[k + 1] == rest[k]);
                        assert forall|j: int| 0 <= j < k + 1 implies (#[trigger] points[j] matches Ok(
                            h,
                        ) && !shows_arbitrage(h)) by {
                            if j > 0 {
                                assert(rest[j - 1] == points[j]);
                            }
                        }
                    }
                    if exists|i: int|
                        0 <= i < points.len() && (#[trigger] points[i] matches Ok(g)
                            && shows_arbitrage(g)) && forall|j: int|
                            0 <= j < i ==> (#[trigger] points[j] matches Ok(h) && !shows_arbitrage(
                                h,
                            )) {
                        let i = choose|i: int|
                            0 <= i < points.len() && (#[trigger] points[i] matches Ok(g)
                                && shows_arbitrage(g)) && forall|j: int|
                                0 <= j < i ==> (#[trigger] points[j] matches Ok(h)
                                    && !shows_arbitrage(h));
                        assert(i > 0);
                        assert(rest[i - 1] == points[i]);
                        assert forall|j: int| 0 <= j < i - 1 implies (#[trigger] rest[j] matches Ok(h)
                            && !shows_arbitrage(h)) by {
                            assert(rest[j] == points[j + 1]);
                        }
                    }
                }
            },
        }
    }
}

} // verus!
