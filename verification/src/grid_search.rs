//! The search over a four-dimensional grid of curve parameters.
//!
//! Positions and strides are whole numbers of ten-thousandths of a base
//! step, so that a stride that grows by two fifths stays exact. The caller
//! turns a position into parameter values, refines the candidate there and
//! reports what came of it; the search decides where to go next, keeps the
//! best curve, and ends after a bounded number of candidates.

use vstd::prelude::*;

use crate::errors::TSError;
use crate::quantity::Quantity;
use crate::quantity::LARGEST_FINITE_BITS;
use crate::svi::SVICurveParameters;

verus! {

/// One base step along an axis, in the units in which offsets and strides
/// are counted: a stride of `STRIDE_UNIT` moves by exactly one step.
pub const STRIDE_UNIT: u64 = 10_000;

/// The longest stride impatience may reach: five base steps.
pub const SVI_FITTING_MAX_IMPATIENCE: u64 = 50_000;

/// Each candidate that brings no improvement lengthens the stride by this
/// many tenths of itself.
pub const SVI_FITTING_IMPATIENCE_TENTHS: u64 = 14;

/// A search planned over fewer candidates than this keeps a fixed stride.
pub const DISABLE_IMPATIENCE_BELOW_ITERATIONS: u64 = 2000;

/// One dimension of the search, as a mathematical value.
pub struct AxisState {
    /// The last offset that is still in range.
    pub extent: nat,
    /// The current offset from the start of the range.
    pub offset: nat,
    /// The length of the next move.
    pub stride: nat,
}

/// The stride that follows `stride` after a candidate without improvement.
pub open spec fn grown_stride(stride: nat, accelerate: bool) -> nat {
    if accelerate {
        let longer = stride * SVI_FITTING_IMPATIENCE_TENTHS as nat / 10;
        if longer < SVI_FITTING_MAX_IMPATIENCE {
            longer
        } else {
            SVI_FITTING_MAX_IMPATIENCE as nat
        }
    } else {
        stride
    }
}

/// The strides that growing from the base stride arrives at: 1, 1.4, 1.96,
/// 2.744, 3.8416 and 5 base steps.
#[verifier::opaque]
pub open spec fn stride_is_reachable(stride: nat) -> bool {
    ||| stride == 10_000
    ||| stride == 14_000
    ||| stride == 19_600
    ||| stride == 27_440
    ||| stride == 38_416
    ||| stride == 50_000
}

impl AxisState {
    /// What holds of every axis: the offset lies within the range, and the
    /// stride is one that growing arrives at.
    pub open spec fn wf(self) -> bool {
        &&& self.offset <= self.extent
        &&& stride_is_reachable(self.stride)
    }

    /// The axis at the start of its range, with the base stride.
    pub open spec fn start(extent: nat) -> AxisState {
        AxisState { extent, offset: 0, stride: STRIDE_UNIT as nat }
    }

    /// The same place with the base stride.
    pub open spec fn patient(self) -> AxisState {
        AxisState { stride: STRIDE_UNIT as nat, ..self }
    }

    /// The same place with the stride grown once.
    pub open spec fn lengthened(self, accelerate: bool) -> AxisState {
        AxisState { stride: grown_stride(self.stride, accelerate), ..self }
    }

    /// Whether one more move stays in range.
    pub open spec fn fits(self) -> bool {
        self.offset + self.stride <= self.extent
    }

    /// The axis after one move.
    pub open spec fn forward(self) -> AxisState {
        AxisState { offset: self.offset + self.stride, ..self }
    }

    /// The axis back at the start of its range; the stride stays.
    pub open spec fn rewound(self) -> AxisState {
        AxisState { offset: 0, ..self }
    }

    /// How far the offset is from the end of the range.
    pub open spec fn left(self) -> nat {
        (self.extent - self.offset) as nat
    }
}

/// A point of the grid: for each of `b`, `p`, `m`, `o` its offset from the
/// start of that parameter's range, in units of one `STRIDE_UNIT`-th of the
/// parameter's base step.
#[derive(Clone, Copy, PartialEq, Eq, Debug, Structural)]
pub struct GridPoint {
    pub b: u64,
    pub p: u64,
    pub m: u64,
    pub o: u64,
}

/// A valid curve that a local refinement arrived at, with its error: the
/// sum of the squared differences between the curve and the options.
#[derive(Clone, Copy, Debug)]
pub struct RefinedCurve {
    pub curve: SVICurveParameters,
    pub error: Quantity,
}

/// What the evaluation of one candidate came to.
#[derive(Clone, Copy, Debug)]
pub enum Evaluation {
    /// The candidate is no valid curve: its parameters are refused, it
    /// admits arbitrage, or its refinement did not converge.
    Rejected,
    /// The refined candidate is valid, and not better than the best so far
    /// by the required margin.
    Unimproved,
    /// The refined candidate is valid and better than the best so far by
    /// the required margin; it becomes the best.
    Improved(RefinedCurve),
}

/// The search as a mathematical value.
pub struct GridState {
    pub b: AxisState,
    pub p: AxisState,
    pub m: AxisState,
    pub o: AxisState,
    /// Whether strides grow at all.
    pub accelerate: bool,
    /// Whether every axis has run past its end.
    pub exhausted: bool,
    /// The last candidate that was an improvement.
    pub best: Option<RefinedCurve>,
}

/// The number of base steps in a range, or zero for a range that is empty.
pub open spec fn planned_steps(extent: Option<u64>) -> nat {
    match extent {
        Some(e) => (e / STRIDE_UNIT) as nat,
        None => 0,
    }
}

/// The number of candidates a search is planned over: the product of the
/// number of base steps of the four ranges.
pub open spec fn planned_iterations(
    b_extent: Option<u64>,
    p_extent: Option<u64>,
    m_extent: Option<u64>,
    o_extent: Option<u64>,
) -> nat {
    planned_steps(o_extent) * planned_steps(m_extent) * planned_steps(p_extent) * planned_steps(
        b_extent,
    )
}

/// The extent of a range, or zero for a range that is empty.
pub open spec fn extent_or_zero(extent: Option<u64>) -> nat {
    match extent {
        Some(e) => e as nat,
        None => 0,
    }
}

impl GridState {
    /// What holds of every search: its axes are well formed, strides stay
    /// at the base stride where they do not grow, and the error of the
    /// best curve is a number.
    pub open spec fn wf(self) -> bool {
        &&& self.b.wf()
        &&& self.p.wf()
        &&& self.m.wf()
        &&& self.o.wf()
        &&& !self.accelerate ==> {
            &&& self.b.stride == STRIDE_UNIT
            &&& self.p.stride == STRIDE_UNIT
            &&& self.m.stride == STRIDE_UNIT
            &&& self.o.stride == STRIDE_UNIT
        }
        &&& !self.best_error().nan()
    }

    /// What the refinement of the current candidate counts as. Where it
    /// yielded no curve the candidate is rejected. It is an improvement
    /// where the error of its curve is at most `required`, the error that
    /// the required margin leaves of the error of the best curve so far,
    /// and `required` itself is at most that error. Otherwise it is no
    /// improvement.
    pub open spec fn judged(self, refined: Result<RefinedCurve, TSError>, required: Quantity)
        -> Evaluation {
        match refined {
            Err(_) => Evaluation::Rejected,
            Ok(curve) => if curve.error.at_most(required) && required.at_most(self.best_error()) {
                Evaluation::Improved(curve)
            } else {
                Evaluation::Unimproved
            },
        }
    }

    /// Whether an evaluation is one that the search may be told of: an
    /// improvement has an error at most that of the best curve so far.
    pub open spec fn accepts(self, evaluation: Evaluation) -> bool {
        evaluation matches Evaluation::Improved(curve) ==> curve.error.at_most(self.best_error())
    }

    /// The search before its first candidate. A range given as `None` is
    /// empty (its end lies before its start): the search is then exhausted
    /// from the beginning. Strides grow only where the planned number of
    /// candidates reaches `DISABLE_IMPATIENCE_BELOW_ITERATIONS`.
    pub open spec fn initial(
        b_extent: Option<u64>,
        p_extent: Option<u64>,
        m_extent: Option<u64>,
        o_extent: Option<u64>,
    ) -> GridState {
        GridState {
            b: AxisState::start(extent_or_zero(b_extent)),
            p: AxisState::start(extent_or_zero(p_extent)),
            m: AxisState::start(extent_or_zero(m_extent)),
            o: AxisState::start(extent_or_zero(o_extent)),
            accelerate: planned_iterations(b_extent, p_extent, m_extent, o_extent)
                >= DISABLE_IMPATIENCE_BELOW_ITERATIONS,
            exhausted: b_extent is None || p_extent is None || m_extent is None
                || o_extent is None,
            best: None,
        }
    }

    /// The state with every stride back at the base stride.
    pub open spec fn patient(self) -> GridState {
        GridState {
            b: self.b.patient(),
            p: self.p.patient(),
            m: self.m.patient(),
            o: self.o.patient(),
            ..self
        }
    }

    /// The state once the evaluation is taken note of, before any move: an
    /// improvement becomes the best curve and brings all strides back to
    /// the base stride; then, unless the candidate was rejected, the stride
    /// of `o` grows.
    pub open spec fn noted(self, evaluation: Evaluation) -> GridState {
        match evaluation {
            Evaluation::Rejected => self,
            Evaluation::Unimproved => GridState {
                o: self.o.lengthened(self.accelerate),
                ..self
            },
            Evaluation::Improved(curve) => GridState {
                o: self.o.patient().lengthened(self.accelerate),
                best: Some(curve),
                ..self.patient()
            },
        }
    }

    /// The state after one move: `o` moves on; where it runs past its end
    /// it starts over and `m` moves on with a grown stride, and so on
    /// through `p` to `b`; when `b` runs past its end the search is
    /// exhausted.
    pub open spec fn moved(self) -> GridState {
        if self.o.fits() {
            GridState { o: self.o.forward(), ..self }
        } else {
            let m = self.m.lengthened(self.accelerate);
            if m.fits() {
                GridState { o: self.o.rewound(), m: m.forward(), ..self }
            } else {
                let p = self.p.lengthened(self.accelerate);
                if p.fits() {
                    GridState { o: self.o.rewound(), m: m.rewound(), p: p.forward(), ..self }
                } else {
                    let b = self.b.lengthened(self.accelerate);
                    if b.fits() {
                        GridState {
                            o: self.o.rewound(),
                            m: m.rewound(),
                            p: p.rewound(),
                            b: b.forward(),
                            ..self
                        }
                    } else {
                        GridState {
                            o: self.o.rewound(),
                            m: m.rewound(),
                            p: p.rewound(),
                            b,
                            exhausted: true,
                            ..self
                        }
                    }
                }
            }
        }
    }

    /// The state that follows the evaluation of the current candidate. An
    /// exhausted search stays as it is.
    pub open spec fn next(self, evaluation: Evaluation) -> GridState {
        if self.exhausted {
            self
        } else {
            self.noted(evaluation).moved()
        }
    }

    /// The candidate to evaluate, if the search is not exhausted.
    pub open spec fn candidate(self) -> Option<GridPoint> {
        if self.exhausted {
            None
        } else {
            Some(
                GridPoint {
                    b: self.b.offset as u64,
                    p: self.p.offset as u64,
                    m: self.m.offset as u64,
                    o: self.o.offset as u64,
                },
            )
        }
    }

    /// The error that the next improvement has to undercut by the required
    /// margin: that of the best curve, and before there is one the largest
    /// finite quantity.
    pub open spec fn best_error(self) -> Quantity {
        match self.best {
            Some(refined) => refined.error,
            None => Quantity { bits: LARGEST_FINITE_BITS },
        }
    }

    /// The state after the evaluations of as many candidates, one after
    /// the other.
    pub open spec fn after(self, evaluations: Seq<Evaluation>) -> GridState
        decreases evaluations.len(),
    {
        if evaluations.len() == 0 {
            self
        } else {
            self.next(evaluations[0]).after(evaluations.drop_first())
        }
    }

    /// Whether the search may be told of the evaluations, one after the
    /// other.
    pub open spec fn accepts_all(self, evaluations: Seq<Evaluation>) -> bool
        decreases evaluations.len(),
    {
        evaluations.len() > 0 ==> self.accepts(evaluations[0]) && self.next(
            evaluations[0],
        ).accepts_all(evaluations.drop_first())
    }

    /// A bound on the number of candidates still to come: zero for an
    /// exhausted search, and else one more than the number of offsets that
    /// lie after the current point in the order of the search.
    pub open spec fn remaining(self) -> nat {
        if self.exhausted {
            0
        } else {
            1 + self.o.left() + (self.o.extent + 1) * (self.m.left() + (self.m.extent + 1) * (
            self.p.left() + (self.p.extent + 1) * self.b.left()))
        }
    }
}

/// The smaller of `n` and `DISABLE_IMPATIENCE_BELOW_ITERATIONS`.
spec fn capped(n: nat) -> nat {
    if n < DISABLE_IMPATIENCE_BELOW_ITERATIONS {
        n
    } else {
        DISABLE_IMPATIENCE_BELOW_ITERATIONS as nat
    }
}

proof fn lemma_capped_product(x: nat, y: nat)
    requires
        y >= 1,
    ensures
        capped(capped(x) * y) == capped(x * y),
{
    if x >= DISABLE_IMPATIENCE_BELOW_ITERATIONS {
        assert(x * y >= x) by (nonlinear_arith)
            requires
                y >= 1,
        ;
        assert(capped(x) * y >= capped(x)) by (nonlinear_arith)
            requires
                y >= 1,
        ;
    }
}

/// The product of a capped count and a further count, capped again.
fn capped_times(acc: u64, count: u64) -> (r: u64)
    requires
        acc <= DISABLE_IMPATIENCE_BELOW_ITERATIONS,
    ensures
        r == capped((acc * count) as nat),
{
    if acc == 0 || count == 0 {
        assert(acc * count == 0) by (nonlinear_arith)
            requires
                acc == 0 || count == 0,
        ;
        0
    } else if count >= DISABLE_IMPATIENCE_BELOW_ITERATIONS {
        assert(acc * count >= DISABLE_IMPATIENCE_BELOW_ITERATIONS) by (nonlinear_arith)
            requires
                acc >= 1,
                count >= DISABLE_IMPATIENCE_BELOW_ITERATIONS,
        ;
        DISABLE_IMPATIENCE_BELOW_ITERATIONS
    } else {
        assert(acc * count <= 2000 * 2000) by (nonlinear_arith)
            requires
                acc <= 2000,
                count <= 2000,
        ;
        let product: u64 = acc * count;
        if product < DISABLE_IMPATIENCE_BELOW_ITERATIONS {
            product
        } else {
            DISABLE_IMPATIENCE_BELOW_ITERATIONS
        }
    }
}

fn steps_of(extent: Option<u64>) -> (r: u64)
    ensures
        r == planned_steps(extent),
{
    match extent {
        Some(e) => e / STRIDE_UNIT,
        None => 0,
    }
}

/// Whether a search over the given ranges is planned over enough
/// candidates for strides to grow.
fn plans_enough_iterations(
    b_extent: Option<u64>,
    p_extent: Option<u64>,
    m_extent: Option<u64>,
    o_extent: Option<u64>,
) -> (r: bool)
    ensures
        r == (planned_iterations(b_extent, p_extent, m_extent, o_extent)
            >= DISABLE_IMPATIENCE_BELOW_ITERATIONS),
{
    let b: u64 = steps_of(b_extent);
    let p: u64 = steps_of(p_extent);
    let m: u64 = steps_of(m_extent);
    let o: u64 = steps_of(o_extent);
    let ghost total = planned_iterations(b_extent, p_extent, m_extent, o_extent);
    if b == 0 || p == 0 || m == 0 || o == 0 {
        assert(total == 0) by (nonlinear_arith)
            requires
                total == o as nat * m as nat * p as nat * b as nat,
                b == 0 || p == 0 || m == 0 || o == 0,
        ;
        return false;
    }
    let first: u64 = capped_times(1, o);
    let second: u64 = capped_times(first, m);
    let third: u64 = capped_times(second, p);
    let fourth: u64 = capped_times(third, b);
    proof {
        assert(first == capped(o as nat));
        lemma_capped_product(o as nat, m as nat);
        assert(second == capped(o as nat * m as nat));
        lemma_capped_product(o as nat * m as nat, p as nat);
        assert(third == capped(o as nat * m as nat * p as nat));
        lemma_capped_product(o as nat * m as nat * p as nat, b as nat);
        assert(fourth == capped(total));
    }
    fourth >= DISABLE_IMPATIENCE_BELOW_ITERATIONS
}

/// One dimension of the search.
#[derive(Clone, Copy, Debug)]
struct Axis {
    extent: u64,
    offset: u64,
    stride: u64,
}

impl View for Axis {
    type V = AxisState;

    closed spec fn view(&self) -> AxisState {
        AxisState {
            extent: self.extent as nat,
            offset: self.offset as nat,
            stride: self.stride as nat,
        }
    }
}

impl Axis {
    fn start(extent: u64) -> (r: Axis)
        ensures
            r@ == AxisState::start(extent as nat),
            r@.wf(),
    {
        proof {
            lemma_base_stride_is_reachable();
        }
        Axis { extent, offset: 0, stride: STRIDE_UNIT }
    }

    fn patient(self) -> (r: Axis)
        requires
            self@.wf(),
        ensures
            r@ == self@.patient(),
            r@.wf(),
    {
        proof {
            lemma_base_stride_is_reachable();
        }
        Axis { extent: self.extent, offset: self.offset, stride: STRIDE_UNIT }
    }

    fn lengthened(self, accelerate: bool) -> (r: Axis)
        requires
            self@.wf(),
        ensures
            r@ == self@.lengthened(accelerate),
            r@.wf(),
    {
        proof {
            lemma_grown_stride_in_range(self@.stride, accelerate);
        }
        if accelerate {
            let longer: u64 = self.stride * SVI_FITTING_IMPATIENCE_TENTHS / 10;
            if longer < SVI_FITTING_MAX_IMPATIENCE {
                Axis { extent: self.extent, offset: self.offset, stride: longer }
            } else {
                Axis {
                    extent: self.extent,
                    offset: self.offset,
                    stride: SVI_FITTING_MAX_IMPATIENCE,
                }
            }
        } else {
            self
        }
    }

    fn fits(self) -> (r: bool)
        requires
            self@.wf(),
        ensures
            r == self@.fits(),
    {
        self.extent - self.offset >= self.stride
    }

    fn forward(self) -> (r: Axis)
        requires
            self@.wf(),
            self@.fits(),
        ensures
            r@ == self@.forward(),
            r@.wf(),
    {
        Axis { extent: self.extent, offset: self.offset + self.stride, stride: self.stride }
    }

    fn rewound(self) -> (r: Axis)
        requires
            self@.wf(),
        ensures
            r@ == self@.rewound(),
            r@.wf(),
    {
        Axis { extent: self.extent, offset: 0, stride: self.stride }
    }
}

/// A stride that grows stays between the base stride and the longest one,
/// and does not shrink. Growing is exact: the grown stride is seven fifths
/// of the stride, unless that is beyond the longest stride.
pub proof fn lemma_grown_stride_in_range(stride: nat, accelerate: bool)
    requires
        stride_is_reachable(stride),
    ensures
        stride_is_reachable(grown_stride(stride, accelerate)),
        stride <= grown_stride(stride, accelerate) <= SVI_FITTING_MAX_IMPATIENCE,
        STRIDE_UNIT <= stride,
        !accelerate ==> grown_stride(stride, accelerate) == stride,
        accelerate ==> 5 * grown_stride(stride, accelerate) == 7 * stride || (grown_stride(
            stride,
            accelerate,
        ) == SVI_FITTING_MAX_IMPATIENCE && 7 * stride >= 5 * SVI_FITTING_MAX_IMPATIENCE),
{
    reveal(stride_is_reachable);
}

/// The base stride is among the strides that growing arrives at.
pub proof fn lemma_base_stride_is_reachable()
    ensures
        stride_is_reachable(STRIDE_UNIT as nat),
{
    reveal(stride_is_reachable);
}

/// A four-dimensional search over a grid of curve parameters whose strides
/// grow while candidates bring no improvement.
///
/// The caller evaluates the candidate that [`GridSearch::candidate`] names
/// and reports what came of it to [`GridSearch::advance`], until no
/// candidate is left; [`GridSearch::best`] is then the result.
#[derive(Clone, Copy, Debug)]
pub struct GridSearch {
    b: Axis,
    p: Axis,
    m: Axis,
    o: Axis,
    accelerate: bool,
    exhausted: bool,
    best: Option<RefinedCurve>,
}

impl View for GridSearch {
    type V = GridState;

    closed spec fn view(&self) -> GridState {
        GridState {
            b: self.b@,
            p: self.p@,
            m: self.m@,
            o: self.o@,
            accelerate: self.accelerate,
            exhausted: self.exhausted,
            best: self.best,
        }
    }
}

impl GridSearch {
    #[verifier::type_invariant]
    spec fn well_formed(self) -> bool {
        self@.wf()
    }

    /// A search over the given ranges, before its first candidate. Each
    /// range is given by its extent: the distance from its start to its
    /// end in units of one `STRIDE_UNIT`-th of the parameter's base step,
    /// or `None` where the end lies before the start.
    pub fn new(
        b_extent: Option<u64>,
        p_extent: Option<u64>,
        m_extent: Option<u64>,
        o_extent: Option<u64>,
    ) -> (r: GridSearch)
        ensures
            r@ == GridState::initial(b_extent, p_extent, m_extent, o_extent),
            r@.wf(),
    {
        let accelerate = plans_enough_iterations(b_extent, p_extent, m_extent, o_extent);
        let exhausted = b_extent.is_none() || p_extent.is_none() || m_extent.is_none()
            || o_extent.is_none();
        GridSearch {
            b: Axis::start(b_extent.unwrap_or(0)),
            p: Axis::start(p_extent.unwrap_or(0)),
            m: Axis::start(m_extent.unwrap_or(0)),
            o: Axis::start(o_extent.unwrap_or(0)),
            accelerate,
            exhausted,
            best: None,
        }
    }

    /// The candidate to evaluate next, or `None` once the search is
    /// exhausted.
    pub fn candidate(&self) -> (r: Option<GridPoint>)
        ensures
            r == self@.candidate(),
            self@.wf(),
    {
        proof {
            use_type_invariant(self);
        }
        if self.exhausted {
            None
        } else {
            Some(
                GridPoint {
                    b: self.b.offset,
                    p: self.p.offset,
                    m: self.m.offset,
                    o: self.o.offset,
                },
            )
        }
    }

    /// Whether no candidate is left.
    pub fn is_exhausted(&self) -> (r: bool)
        ensures
            r == self@.exhausted,
    {
        self.exhausted
    }

    /// Whether strides grow in this search.
    pub fn is_impatient(&self) -> (r: bool)
        ensures
            r == self@.accelerate,
    {
        self.accelerate
    }

    /// The best curve so far: the last improvement reported.
    pub fn best(&self) -> (r: Option<RefinedCurve>)
        ensures
            r == self@.best,
    {
        self.best
    }

    /// The error that the next improvement has to undercut by the required
    /// margin.
    pub fn best_error(&self) -> (r: Quantity)
        ensures
            r == self@.best_error(),
    {
        match self.best {
            Some(refined) => refined.error,
            None => Quantity::largest_finite(),
        }
    }

    /// What the refinement of the current candidate counts as, given the
    /// error `required` that an improvement may have at most.
    pub fn judge(&self, refined: &Result<RefinedCurve, TSError>, required: Quantity) -> (r:
        Evaluation)
        ensures
            r == self@.judged(*refined, required),
            self@.accepts(r),
    {
        match refined {
            Err(_) => Evaluation::Rejected,
            Ok(curve) => {
                if curve.error.le(required) && required.le(self.best_error()) {
                    Evaluation::Improved(*curve)
                } else {
                    Evaluation::Unimproved
                }
            },
        }
    }

    /// Judges the refinement of the current candidate, takes note of it and
    /// moves to the next candidate. Returns what the refinement counted
    /// as.
    pub fn advance(&mut self, refined: Result<RefinedCurve, TSError>, required: Quantity) -> (r:
        Evaluation)
        ensures
            r == old(self)@.judged(refined, required),
            final(self)@ == old(self)@.next(r),
            final(self)@.wf(),
            !old(self)@.exhausted ==> final(self)@.remaining() < old(self)@.remaining(),
            final(self)@.best_error().at_most(old(self)@.best_error()),
    {
        let evaluation = self.judge(&refined, required);
        proof {
            use_type_invariant(&*self);
            lemma_next_keeps_well_formed(self@, evaluation);
            lemma_best_error_never_rises(self@, evaluation);
            if !self@.exhausted {
                lemma_next_comes_closer_to_the_end(self@, evaluation);
            }
        }
        if self.exhausted {
            return evaluation;
        }
        let accelerate = self.accelerate;
        let mut b = self.b;
        let mut p = self.p;
        let mut m = self.m;
        let mut o = self.o;
        let mut best = self.best;
        match evaluation {
            Evaluation::Rejected => {},
            Evaluation::Unimproved => {
                o = o.lengthened(accelerate);
            },
            Evaluation::Improved(curve) => {
                b = b.patient();
                p = p.patient();
                m = m.patient();
                o = o.patient().lengthened(accelerate);
                best = Some(curve);
            },
        }
        let mut exhausted = false;
        if o.fits() {
            o = o.forward();
        } else {
            o = o.rewound();
            m = m.lengthened(accelerate);
            if m.fits() {
                m = m.forward();
            } else {
                m = m.rewound();
                p = p.lengthened(accelerate);
                if p.fits() {
                    p = p.forward();
                } else {
                    p = p.rewound();
                    b = b.lengthened(accelerate);
                    if b.fits() {
                        b = b.forward();
                    } else {
                        exhausted = true;
                    }
                }
            }
        }
        *self = GridSearch { b, p, m, o, accelerate, exhausted, best };
        evaluation
    }
}

/// The error of the best curve never rises.
pub proof fn lemma_best_error_never_rises(s: GridState, evaluation: Evaluation)
    requires
        s.wf(),
        s.accepts(evaluation),
    ensures
        s.next(evaluation).best_error().at_most(s.best_error()),
{
}

/// A well-formed search stays well formed.
pub proof fn lemma_next_keeps_well_formed(s: GridState, evaluation: Evaluation)
    requires
        s.wf(),
        s.accepts(evaluation),
    ensures
        s.next(evaluation).wf(),
{
    lemma_grown_stride_in_range(s.o.stride, s.accelerate);
    lemma_grown_stride_in_range(s.m.stride, s.accelerate);
    lemma_grown_stride_in_range(s.p.stride, s.accelerate);
    lemma_grown_stride_in_range(s.b.stride, s.accelerate);
    lemma_base_stride_is_reachable();
    lemma_grown_stride_in_range(STRIDE_UNIT as nat, s.accelerate);
}

/// Every evaluation brings the search strictly closer to its end: the
/// search terminates, whatever the evaluations are.
pub proof fn lemma_next_comes_closer_to_the_end(s: GridState, evaluation: Evaluation)
    requires
        s.wf(),
        s.accepts(evaluation),
        !s.exhausted,
    ensures
        s.next(evaluation).remaining() < s.remaining(),
{
    lemma_grown_stride_in_range(s.o.stride, s.accelerate);
    lemma_grown_stride_in_range(s.m.stride, s.accelerate);
    lemma_grown_stride_in_range(s.p.stride, s.accelerate);
    lemma_grown_stride_in_range(s.b.stride, s.accelerate);
    lemma_base_stride_is_reachable();
    lemma_grown_stride_in_range(STRIDE_UNIT as nat, s.accelerate);
    let n = s.noted(evaluation);
    let t = n.moved();
    assert(n.remaining() == s.remaining());
    lemma_move_comes_closer_to_the_end(n);
}

/// An exhausted search stays exhausted.
pub proof fn lemma_exhausted_search_stays_exhausted(s: GridState, evaluations: Seq<Evaluation>)
    requires
        s.exhausted,
    ensures
        s.after(evaluations) == s,
    decreases evaluations.len(),
{
    if evaluations.len() > 0 {
        lemma_exhausted_search_stays_exhausted(s, evaluations.drop_first());
    }
}

/// The search ends: once as many candidates were evaluated as the bound
/// `remaining` says, it is exhausted, whatever the evaluations were.
pub proof fn lemma_search_ends(s: GridState, evaluations: Seq<Evaluation>)
    requires
        s.wf(),
        s.accepts_all(evaluations),
        evaluations.len() >= s.remaining(),
    ensures
        s.after(evaluations).exhausted,
    decreases evaluations.len(),
{
    if s.exhausted {
        lemma_exhausted_search_stays_exhausted(s, evaluations);
    } else {
        lemma_next_keeps_well_formed(s, evaluations[0]);
        lemma_next_comes_closer_to_the_end(s, evaluations[0]);
        lemma_search_ends(s.next(evaluations[0]), evaluations.drop_first());
    }
}

/// At its start a search that is not exhausted has as many offsets before
/// it as the four ranges have between them.
pub proof fn lemma_remaining_at_the_start(
    b_extent: Option<u64>,
    p_extent: Option<u64>,
    m_extent: Option<u64>,
    o_extent: Option<u64>,
)
    ensures
        GridState::initial(b_extent, p_extent, m_extent, o_extent).wf(),
        !GridState::initial(b_extent, p_extent, m_extent, o_extent).exhausted
            ==> GridState::initial(b_extent, p_extent, m_extent, o_extent).remaining() == (
        extent_or_zero(o_extent) + 1) * (extent_or_zero(m_extent) + 1) * (extent_or_zero(p_extent)
            + 1) * (extent_or_zero(b_extent) + 1),
{
    lemma_base_stride_is_reachable();
    let b = extent_or_zero(b_extent);
    let p = extent_or_zero(p_extent);
    let m = extent_or_zero(m_extent);
    let o = extent_or_zero(o_extent);
    assert(1 + o + (o + 1) * (m + (m + 1) * (p + (p + 1) * b)) == (o + 1) * (m + 1) * (p + 1) * (b
        + 1)) by (nonlinear_arith);
}

proof fn lemma_move_comes_closer_to_the_end(n: GridState)
    requires
        n.wf(),
        !n.exhausted,
    ensures
        n.moved().remaining() < n.remaining(),
{
    lemma_grown_stride_in_range(n.o.stride, n.accelerate);
    lemma_grown_stride_in_range(n.m.stride, n.accelerate);
    lemma_grown_stride_in_range(n.p.stride, n.accelerate);
    lemma_grown_stride_in_range(n.b.stride, n.accelerate);
    let t = n.moved();
    let width_o = n.o.extent + 1;
    let width_m = n.m.extent + 1;
    let width_p = n.p.extent + 1;
    let in_p = n.p.left() + width_p * n.b.left();
    let in_m = n.m.left() + width_m * in_p;
    let after_p = t.p.left() + width_p * t.b.left();
    let after_m = t.m.left() + width_m * after_p;
    if n.o.fits() {
        assert(after_m == in_m);
    } else if n.m.lengthened(n.accelerate).fits() {
        assert(after_p == in_p);
        lemma_carry(width_o, n.o.left(), t.o.left(), in_m, after_m);
    } else if n.p.lengthened(n.accelerate).fits() {
        lemma_carry(width_m, n.m.left(), t.m.left(), in_p, after_p);
        lemma_carry(width_o, n.o.left(), t.o.left(), in_m, after_m);
    } else if n.b.lengthened(n.accelerate).fits() {
        lemma_carry(width_p, n.p.left(), t.p.left(), n.b.left(), t.b.left());
        lemma_carry(width_m, n.m.left(), t.m.left(), in_p, after_p);
        lemma_carry(width_o, n.o.left(), t.o.left(), in_m, after_m);
    }
}

/// Moving a more significant place down by at least one outweighs putting
/// a less significant place back to its start.
proof fn lemma_carry(width: nat, low_before: nat, low_after: nat, high_before: nat, high_after: nat)
    requires
        high_after < high_before,
        low_after < width,
    ensures
        low_after + width * high_after < low_before + width * high_before,
{
    assert(width * high_after + width <= width * high_before) by (nonlinear_arith)
        requires
            high_after + 1 <= high_before,
    ;
}

} // verus!

