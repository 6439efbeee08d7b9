use levenberg_marquardt::LeastSquaresProblem;
use levenberg_marquardt::LevenbergMarquardt;
use nalgebra::Dyn;
use nalgebra::Matrix;
use nalgebra::OMatrix;
use nalgebra::Owned;
use nalgebra::Vector4;
use nalgebra::U1;
use nalgebra::U4;

use vol_surface::errors::TSError;
use vol_surface::fitting::refined_curve;
use vol_surface::fitting::Refinement;
use vol_surface::grid_search::Evaluation;
use vol_surface::grid_search::GridSearch;
use vol_surface::grid_search::RefinedCurve;
use vol_surface::grid_search::STRIDE_UNIT;
use vol_surface::option_instrument::DerivedValues;
use vol_surface::option_instrument::OptionInstrument;
use vol_surface::option_instrument::OptionType;
use vol_surface::quantity::lowest_and_highest;
use vol_surface::quantity::Quantity;
use vol_surface::smile_graph::SmileGraph;
use vol_surface::svi;
use vol_surface::svi::error_unless_variance_is_valid;
use vol_surface::svi::CurveShape;
use vol_surface::svi::SVICurveParameters;

const NOW: i64 = 1_767_225_600_000;
const EXPIRY: i64 = NOW + 31_536_000_000;
const RATE: f64 = 0.06;
const SPOT: f64 = 100.0;

fn q(x: f64) -> Quantity {
    Quantity::from_bits(x.to_bits())
}

fn f(x: Quantity) -> f64 {
    f64::from_bits(x.to_bits())
}

fn new_curve(a: f64, b: f64, p: f64, m: f64, o: f64) -> Result<SVICurveParameters, TSError> {
    let shape = CurveShape {
        lowest_variance: q(a + b * o * (1.0 - p * p).sqrt()),
        left_slope: q(b * (1.0 - p)),
        right_slope: q(b * (1.0 + p)),
    };
    SVICurveParameters::new_from_values(q(a), q(b), q(p), q(m), q(o), shape)
}

fn values(curve: &SVICurveParameters) -> (f64, f64, f64, f64, f64) {
    (f(curve.get_a()), f(curve.get_b()), f(curve.get_p()), f(curve.get_m()), f(curve.get_o()))
}

fn variance(curve: &SVICurveParameters, x: f64) -> Result<f64, TSError> {
    let (a, b, p, m, o) = values(curve);
    error_unless_variance_is_valid(q(a + b * (p * (x - m) + ((x - m).powf(2.0) + o.powf(2.0)).sqrt()))).map(f)
}

fn butterfly_condition(curve: &SVICurveParameters, x: f64) -> Result<f64, TSError> {
    let (_, b, p, m, o) = values(curve);
    let d = x - m;
    let w = variance(curve, x)?;
    let slope = b * (p + d / (d * d + o * o).sqrt());
    let curvature = b * o * o / (d * d + o * o).powf(1.5);
    Ok((1.0 - (x * slope) / (2.0 * w)).powf(2.0) - ((slope * slope) / 4.0) * (1.0 / w + 0.25) + curvature / 2.0)
}

fn has_butterfly_arbitrage(curve: &SVICurveParameters, strike_high: u64, forward: f64) -> Result<bool, TSError> {
    let mut points = Vec::new();
    for i in 0..=150u64 {
        let strike = 1.0 + (strike_high - 1) as f64 * (i as f64 / 150.0);
        points.push(butterfly_condition(curve, (strike / forward).ln()).map(q));
    }
    svi::has_butterfly_arbitrage(&points)
}

/// The fit of the four free parameters to the observations, with `a` set to cancel the mean residual.
struct Problem<'a> {
    p: Vector4<f64>,
    observations: &'a [(f64, f64)],
    strike_high: u64,
    forward: f64,
    curve: Option<SVICurveParameters>,
    curve_valid: bool,
    has_arbitrage: bool,
    residuals_buffer: Vec<f64>,
}

impl LeastSquaresProblem<f64, Dyn, U4> for Problem<'_> {
    type ParameterStorage = Owned<f64, U4>;
    type ResidualStorage = Owned<f64, Dyn>;
    type JacobianStorage = Owned<f64, Dyn, U4>;

    fn set_params(&mut self, p: &Vector4<f64>) {
        self.p.copy_from(p);
        self.has_arbitrage = false;
        self.curve_valid = false;
        self.curve = None;
        let flat = match new_curve(0.0, self.p.x, self.p.y, self.p.z, self.p.w) {
            Ok(curve) => curve,
            Err(_) => return,
        };
        let mut total = 0.0;
        for (x, observed) in self.observations {
            match variance(&flat, *x) {
                Ok(w) => total += w - observed,
                Err(_) => return,
            }
        }
        let a = -total / self.observations.len() as f64;
        let curve = match new_curve(a, self.p.x, self.p.y, self.p.z, self.p.w) {
            Ok(curve) => curve,
            Err(_) => return,
        };
        self.curve = Some(curve);
        for (n, (x, observed)) in self.observations.iter().enumerate() {
            match variance(&curve, *x) {
                Ok(w) => self.residuals_buffer[n] = w - observed,
                Err(_) => return,
            }
        }
        match has_butterfly_arbitrage(&curve, self.strike_high, self.forward) {
            Ok(false) => self.curve_valid = true,
            Ok(true) => self.has_arbitrage = true,
            Err(_) => {}
        }
    }

    fn params(&self) -> Vector4<f64> {
        self.p
    }

    fn residuals(&self) -> Option<Matrix<f64, Dyn, U1, Self::ResidualStorage>> {
        let count = self.observations.len();
        let residuals = if self.curve_valid && !self.has_arbitrage {
            self.residuals_buffer.clone()
        } else {
            vec![999.0; count]
        };
        Some(Matrix::from_vec_generic(Dyn(count), U1, residuals))
    }

    fn jacobian(&self) -> Option<Matrix<f64, Dyn, U4, Self::JacobianStorage>> {
        let [b, p, m, o] = [self.p.x, self.p.y, self.p.z, self.p.w];
        let count = self.observations.len();
        let mut result = OMatrix::<f64, Dyn, U4>::zeros(count);
        if self.curve_valid && !self.has_arbitrage {
            for n in 0..count {
                let d = self.observations[n].0 - m;
                let s = ((d * d) + (o * o)).sqrt();
                result[(n, 0)] = p * d + s;
                result[(n, 1)] = b * d;
                result[(n, 2)] = b * (-p - (d / s));
                result[(n, 3)] = b * (o / s);
            }
        }
        for column in 0..4 {
            let mut mean = 0.0;
            for n in 0..count {
                mean += result[(n, column)];
            }
            mean /= count as f64;
            for n in 0..count {
                result[(n, column)] -= mean;
            }
        }
        Some(result)
    }
}

fn refine(start: SVICurveParameters, observations: &[(f64, f64)], strike_high: u64, forward: f64) -> Result<RefinedCurve, TSError> {
    let (_, b, p, m, o) = values(&start);
    let mut problem = Problem {
        p: Vector4::new(b, p, m, o),
        observations,
        strike_high,
        forward,
        curve: None,
        curve_valid: false,
        has_arbitrage: false,
        residuals_buffer: vec![0.0; observations.len()],
    };
    let initial = problem.p;
    problem.set_params(&initial);
    let (result, report) = LevenbergMarquardt::new().with_patience(100).minimize(problem);
    refined_curve(Refinement {
        converged: report.termination.was_successful(),
        termination: format!("{:?}", report.termination),
        curve_valid: result.curve_valid,
        has_arbitrage: result.has_arbitrage,
        curve: result.curve,
        objective: q(report.objective_function.abs()),
    })
}

fn extent(start: f64, end: f64, step: f64) -> Option<u64> {
    if !(start <= end) {
        return None;
    }
    Some((((end - start) / step) * STRIDE_UNIT as f64) as u64)
}

fn at(start: f64, step: f64, offset: u64) -> f64 {
    start + step * (offset as f64 / STRIDE_UNIT as f64)
}

/// A smile whose options lie on the given curve.
fn smile_on(curve: &SVICurveParameters, strikes: &[f64], forward: f64) -> SmileGraph {
    let mut smile = SmileGraph::new();
    for (n, strike) in strikes.iter().enumerate() {
        let total_implied_variance = variance(curve, (strike / forward).ln()).unwrap();
        let option = OptionInstrument::new(
            q(5.0),
            EXPIRY,
            q(*strike),
            n.to_string(),
            OptionType::Call,
            q(SPOT),
            q(forward),
            q(4.9),
            q(5.1),
            NOW,
            Ok(DerivedValues {
                implied_volatility: q(total_implied_variance.sqrt()),
                total_implied_variance: q(total_implied_variance),
            }),
        );
        smile.try_insert_option(option).unwrap();
    }
    smile
}

#[test]
fn fit_recovers_a_curve_that_the_options_lie_on() {
    let truth = new_curve(0.04, 0.4, -0.4, 0.05, 0.2).unwrap();
    let forward = SPOT * std::f64::consts::E.powf(RATE * 1.0);
    let strikes = [70.0, 80.0, 90.0, 100.0, 110.0, 120.0, 130.0];
    let mut smile = smile_on(&truth, &strikes, forward);
    assert_eq!(smile.error_unless_valid(), Ok(()));
    assert!(!has_butterfly_arbitrage(&truth, 195, forward).unwrap());

    assert_eq!(smile.get_underlying_forward_price(q(forward)), Ok(q(forward)));
    let observations: Vec<(f64, f64)> = smile
        .get_options()
        .iter()
        .map(|o| ((f(o.get_quote().strike) / forward).ln(), f(o.get_total_implied_variance().unwrap())))
        .collect();
    let (lowest, highest) = smile.get_total_implied_variance_range().unwrap();
    assert!(f(lowest) < f(highest));
    let log_moneynesses: Vec<Quantity> = observations.iter().map(|o| q(o.0)).collect();
    let (lowest_x, highest_x) = lowest_and_highest(&log_moneynesses).unwrap();
    assert_eq!(f(lowest_x), (70.0f64 / forward).ln());
    assert_eq!(f(highest_x), (130.0f64 / forward).ln());
    let strike_high = (f(smile.get_highest_observed_strike()) * 1.5).ceil() as u64;
    assert_eq!(strike_high, 195);

    let (b_start, p_start, m_start, o_start) = (0.3, -0.6, -0.1, 0.1);
    let (b_step, p_step, m_step, o_step) = (0.05, 0.1, 0.1, 0.05);
    let mut search = GridSearch::new(
        extent(b_start, 0.5, b_step),
        extent(p_start, -0.2, p_step),
        extent(m_start, 0.1, m_step),
        extent(o_start, 0.3, o_step),
    );
    let mut candidates = 0;
    let mut improvements = 0;
    while let Some(point) = search.candidate() {
        let b = at(b_start, b_step, point.b);
        let p = at(p_start, p_step, point.p);
        let m = at(m_start, m_step, point.m);
        let o = at(o_start, o_step, point.o);
        let refined = new_curve(0.0, b, p, m, o).and_then(|start| refine(start, &observations, strike_high, forward));
        let best = f(search.best_error());
        let before = search.best_error();
        if let Evaluation::Improved(found) = search.advance(refined, q(best - best * 0.01)) {
            improvements += 1;
            assert!(f(found.error) <= 0.99 * f(before));
            assert_eq!(search.best_error(), found.error);
        }
        candidates += 1;
        assert!(candidates <= 5 * 5 * 3 * 5);
    }
    assert!(improvements >= 1);

    assert_eq!(smile.fit_smile(&search), Ok(()));
    assert!(smile.get_has_been_fit());
    let best = search.best().unwrap();
    assert!(f(best.error) < 1e-12, "the error {} is not near zero", f(best.error));
    let fitted = smile.get_svi_curve_parameters().unwrap();
    for (x, observed) in &observations {
        assert!((variance(&fitted, *x).unwrap() - observed).abs() < 1e-5);
    }
    assert!(!has_butterfly_arbitrage(&fitted, strike_high, forward).unwrap());
}

#[test]
fn fit_fails_where_every_candidate_is_rejected() {
    let truth = new_curve(0.04, 0.4, -0.4, 0.05, 0.2).unwrap();
    let forward = SPOT * std::f64::consts::E.powf(RATE * 1.0);
    let mut smile = smile_on(&truth, &[70.0, 80.0, 90.0, 100.0, 110.0], forward);

    let mut search = GridSearch::new(extent(2.5, 3.0, 0.1), extent(0.5, 0.9, 0.1), Some(0), Some(0));
    let mut candidates = 0;
    while let Some(point) = search.candidate() {
        let b = at(2.5, 0.1, point.b);
        let p = at(0.5, 0.1, point.p);
        let refined = new_curve(0.0, b, p, 0.0, 0.2);
        assert!(refined.is_err());
        let evaluation = search.advance(refined.map(|curve| RefinedCurve { curve, error: q(0.0) }), q(1.0));
        assert!(matches!(evaluation, Evaluation::Rejected));
        candidates += 1;
    }
    assert_eq!(candidates, 6 * 5);

    let e = smile.fit_smile(&search).unwrap_err();
    assert_eq!(e.reason, "No graph could be fit! This is probably a bug!");
    assert!(!smile.get_has_been_fit());
}

#[test]
fn scan_finds_arbitrage_in_a_curve_beyond_the_slope_bound() {
    let (a, b, p, m, o) = (0.04, 1.6, 0.5, 0.0, 0.2);
    assert!(b * (1.0 + p) >= 2.0);
    assert!(new_curve(a, b, p, m, o).is_err());
    // Only a shape that misstates the slope lets such parameters through.
    let misstated = CurveShape { lowest_variance: q(0.3), left_slope: q(0.8), right_slope: q(1.9) };
    let steep = SVICurveParameters::new_from_values(q(a), q(b), q(p), q(m), q(o), misstated).unwrap();
    let forward = SPOT * std::f64::consts::E.powf(RATE * 1.0);
    assert_eq!(has_butterfly_arbitrage(&steep, 195, forward), Ok(true));
}
