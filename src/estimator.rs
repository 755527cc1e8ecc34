use vstd::prelude::*;
use crate::MILLI;

verus! {

/// Largest coordinate magnitude accepted, in thousandths of a pixel: the
/// range of a 32-bit screen coordinate.
pub const MAX_COORD: i64 = 2_147_483_648_000;

/// Largest covariance or noise variance an estimator accepts, in thousandths.
pub const MAX_NOISE: i64 = 1_000_000_000_000;

/// `d * num / den` rounded up.
pub open spec fn ceil_part(d: int, num: int, den: int) -> int {
    (d * num + den - 1) / den
}

/// `from` moved toward `to` by the fraction `num / den` of the distance
/// between them, rounded toward `to`.
pub open spec fn approach(from: int, to: int, num: int, den: int) -> int {
    if to >= from {
        from + ceil_part(to - from, num, den)
    } else {
        from - ceil_part(from - to, num, den)
    }
}

/// `from` moved toward `to` by the fraction `gain / 1000`, rounded toward `from`.
pub open spec fn toward(from: int, to: int, gain: int) -> int {
    if to >= from {
        from + (to - from) * gain / 1000
    } else {
        from - (from - to) * gain / 1000
    }
}

/// Distance between two integers.
pub open spec fn distance(a: int, b: int) -> int {
    if a >= b { a - b } else { b - a }
}

/// Recursive minimum-variance estimator of one coordinate axis. All four
/// parameters are in thousandths: the state estimate of a pixel, the error
/// covariance and the two noise variances of a squared pixel.
#[derive(Clone, Copy, Debug, PartialEq, Eq, Structural)]
pub struct KalmanFilter {
    pub x: i64,
    pub p: i64,
    pub q: i64,
    pub r: i64,
}

impl KalmanFilter {
    /// The parameters are in range: a coordinate for the state, a positive
    /// measurement noise, and a non-negative process noise and covariance.
    pub open spec fn wf(&self) -> bool {
        &&& -MAX_COORD <= self.x <= MAX_COORD
        &&& 0 < self.r <= MAX_NOISE
        &&& 0 <= self.q <= MAX_NOISE
        &&& 0 <= self.p <= MAX_NOISE
    }

    /// Predicted covariance: the covariance grown by the process noise.
    pub open spec fn predicted(&self) -> int {
        self.p + self.q
    }

    /// The estimator after one measurement. With the gain
    /// `k = predicted / (predicted + r)`, the state moves toward the
    /// measurement by `k` of the distance (rounded toward the measurement),
    /// and the covariance becomes `(1 - k) * predicted = predicted * r /
    /// (predicted + r)` (rounded down).
    pub open spec fn after(&self, measurement: int) -> KalmanFilter {
        let pp = self.predicted();
        KalmanFilter {
            x: approach(self.x as int, measurement, pp, pp + self.r) as i64,
            p: (pp * self.r / (pp + self.r)) as i64,
            q: self.q,
            r: self.r,
        }
    }

    /// An estimator with the given state, covariance and noise variances.
    pub fn new(x: i64, p: i64, q: i64, r: i64) -> (res: Self)
        requires
            (KalmanFilter { x, p, q, r }).wf(),
        ensures
            res == (KalmanFilter { x, p, q, r }),
    {
        KalmanFilter { x, p, q, r }
    }

    /// Feeds one measurement and returns the new state estimate.
    pub fn update(&mut self, measurement: i64) -> (res: i64)
        requires
            old(self).wf(),
            -MAX_COORD <= measurement <= MAX_COORD,
        ensures
            *final(self) == old(self).after(measurement as int),
            final(self).wf(),
            res == final(self).x,
    {
        proof {
            lemma_after_wf(*self, measurement as int);
        }
        let pp: i128 = (self.p + self.q) as i128;
        let den: i128 = pp + self.r as i128;
        let x_new: i64 = if measurement >= self.x {
            let d: i128 = (measurement - self.x) as i128;
            assert(0 <= d * pp <= 0x10_0000_0000_0000_0000_0000_0000int) by (nonlinear_arith)
                requires 0 <= d <= 2 * MAX_COORD, 0 <= pp <= 2 * MAX_NOISE;
            let c: i128 = (d * pp + den - 1) / den;
            proof {
                lemma_ceil_part(d as int, pp as int, den as int);
            }
            self.x + c as i64
        } else {
            let d: i128 = (self.x - measurement) as i128;
            assert(0 <= d * pp <= 0x10_0000_0000_0000_0000_0000_0000int) by (nonlinear_arith)
                requires 0 <= d <= 2 * MAX_COORD, 0 <= pp <= 2 * MAX_NOISE;
            let c: i128 = (d * pp + den - 1) / den;
            proof {
                lemma_ceil_part(d as int, pp as int, den as int);
            }
            self.x - c as i64
        };
        assert(0 <= pp * (self.r as i128) <= 0x10_0000_0000_0000_0000_0000_0000int) by (nonlinear_arith)
            requires 0 <= pp <= 2 * MAX_NOISE, 0 < self.r <= MAX_NOISE;
        assert(0 <= (pp as int) * (self.r as int) / (den as int) < self.r) by (nonlinear_arith)
            requires 0 <= pp, 0 < self.r, den == pp + self.r;
        let p_new: i64 = (pp * (self.r as i128) / den) as i64;
        self.x = x_new;
        self.p = p_new;
        self.x
    }
}

/// Interpolates between a raw coordinate and an estimate:
/// `input + (estimate - input) * factor / 1000`, rounded toward the input.
/// A factor of 0 gives the input, 1000 the estimate.
pub fn blend(input: i64, estimate: i64, factor: i64) -> (r: i64)
    requires
        -MAX_COORD <= input <= MAX_COORD,
        -MAX_COORD <= estimate <= MAX_COORD,
        0 <= factor <= 1000,
    ensures
        r == toward(input as int, estimate as int, factor as int),
        -MAX_COORD <= r <= MAX_COORD,
{
    if estimate >= input {
        let d: i64 = estimate - input;
        assert(0 <= d * factor <= d * 1000) by (nonlinear_arith)
            requires 0 <= d, 0 <= factor <= 1000;
        let step: i64 = d * factor / MILLI;
        assert(step <= d) by (nonlinear_arith)
            requires 0 <= d, step == d * factor / 1000, d * factor <= d * 1000;
        input + step
    } else {
        let d: i64 = input - estimate;
        assert(0 <= d * factor <= d * 1000) by (nonlinear_arith)
            requires 0 <= d, 0 <= factor <= 1000;
        let step: i64 = d * factor / MILLI;
        assert(step <= d) by (nonlinear_arith)
            requires 0 <= d, step == d * factor / 1000, d * factor <= d * 1000;
        input - step
    }
}

/// Blending with factor 0 returns the raw input unchanged, and blending with
/// factor 1000 (the whole unit) returns exactly the estimate.
pub proof fn lemma_blend_identity(input: int, estimate: int)
    ensures
        toward(input, estimate, 0) == input,
        toward(input, estimate, 1000) == estimate,
{
    vstd::arithmetic::div_mod::lemma_div_multiples_vanish(estimate - input, 1000);
    vstd::arithmetic::div_mod::lemma_div_multiples_vanish(input - estimate, 1000);
}

/// Rounding a part `num / den` of a distance `d` up: with `0 <= num < den`
/// the part never exceeds the distance, is at least the exact fraction, and
/// is positive when both the distance and `num` are.
proof fn lemma_ceil_part(d: int, num: int, den: int)
    requires
        0 <= d,
        0 <= num < den,
    ensures
        0 <= ceil_part(d, num, den) <= d,
        ceil_part(d, num, den) * den >= d * num,
        d >= 1 && num >= 1 ==> ceil_part(d, num, den) >= 1,
{
    let a = d * num + den - 1;
    let c = a / den;
    vstd::arithmetic::div_mod::lemma_fundamental_div_mod(a, den);
    let m = a % den;
    assert(0 <= m < den);
    assert(a == den * c + m);
    assert(d * num <= d * den) by (nonlinear_arith)
        requires 0 <= d, num < den;
    assert(0 <= d * num) by (nonlinear_arith)
        requires 0 <= d, 0 <= num;
    assert(c >= 0) by (nonlinear_arith)
        requires a == den * c + m, 0 <= m < den, a >= 0, den > 0;
    assert(c <= d) by (nonlinear_arith)
        requires a == den * c + m, 0 <= m, a < d * den + den, den > 0;
    assert(c * den >= d * num) by (nonlinear_arith)
        requires a == den * c + m, m < den, a == d * num + den - 1;
    if d >= 1 && num >= 1 {
        assert(d * num >= 1) by (nonlinear_arith)
            requires d >= 1, num >= 1;
        assert(c >= 1) by (nonlinear_arith)
            requires a == den * c + m, m < den, a >= den, den > 0;
    }
}

/// The estimator after a measurement in range is again in range, and its
/// covariance stays below the measurement noise.
pub proof fn lemma_after_wf(e: KalmanFilter, v: int)
    requires
        e.wf(),
        -MAX_COORD <= v <= MAX_COORD,
    ensures
        e.after(v).wf(),
        e.after(v).p < e.r,
        e.x <= v ==> e.x <= e.after(v).x <= v,
        v <= e.x ==> v <= e.after(v).x <= e.x,
{
    let pp = e.predicted();
    let r = e.r as int;
    if v >= e.x {
        lemma_ceil_part(v - e.x, pp, pp + r);
    } else {
        lemma_ceil_part(e.x - v, pp, pp + r);
    }
    assert(0 <= pp * r / (pp + r) < r) by (nonlinear_arith)
        requires 0 <= pp, 0 < r;
}

/// One measurement `v` shrinks the distance of the estimate to `v` at least by
/// the factor `r / (p + q + r)`: the new estimate lies between the old one and
/// `v`, and is strictly closer to `v` whenever it was not there yet and the
/// gain is positive (`p + q > 0`). The covariance does not depend on the
/// measurement, and it strictly decreases whenever `(p + q) * r < p * (p + q + r)`.
pub proof fn lemma_constant_measurement_converges(e: KalmanFilter, v: int)
    requires
        e.wf(),
        -MAX_COORD <= v <= MAX_COORD,
    ensures
        e.after(v).wf(),
        e.x <= v ==> e.x <= e.after(v).x <= v,
        v <= e.x ==> v <= e.after(v).x <= e.x,
        (e.predicted() + e.r) * distance(e.after(v).x as int, v) <= e.r * distance(e.x as int, v),
        e.x != v && e.predicted() > 0 ==> distance(e.after(v).x as int, v) < distance(e.x as int, v),
        forall|w: int| #[trigger] e.after(w).p == e.after(v).p,
        e.predicted() * e.r < e.p * (e.predicted() + e.r) ==> e.after(v).p < e.p,
{
    let pp = e.predicted();
    let r = e.r as int;
    lemma_after_wf(e, v);
    let d = distance(e.x as int, v);
    lemma_ceil_part(d, pp, pp + r);
    let c = ceil_part(d, pp, pp + r);
    assert(distance(e.after(v).x as int, v) == d - c);
    assert((pp + r) * (d - c) <= r * d) by (nonlinear_arith)
        requires c * (pp + r) >= d * pp;
    if pp * r < e.p * (pp + r) {
        assert(pp * r / (pp + r) < e.p) by (nonlinear_arith)
            requires pp * r < e.p * (pp + r), pp + r > 0, pp * r >= 0;
    }
}

/// The estimator after `n` measurements that all equal `v`.
pub open spec fn after_n(e: KalmanFilter, v: int, n: nat) -> KalmanFilter
    decreases n,
{
    if n == 0 {
        e
    } else {
        after_n(e, v, (n - 1) as nat).after(v)
    }
}

/// Feeding the same measurement `v` for `n` steps brings the estimate within
/// `(r / (q + r))^n` of its starting distance to `v`; with positive process
/// noise that bound goes to 0, so the estimate converges to `v`.
pub proof fn lemma_repeated_measurement_converges(e: KalmanFilter, v: int, n: nat)
    requires
        e.wf(),
        -MAX_COORD <= v <= MAX_COORD,
    ensures
        after_n(e, v, n).wf(),
        after_n(e, v, n).q == e.q,
        after_n(e, v, n).r == e.r,
        vstd::arithmetic::power::pow(e.q + e.r, n) * distance(after_n(e, v, n).x as int, v)
            <= vstd::arithmetic::power::pow(e.r as int, n) * distance(e.x as int, v),
    decreases n,
{
    reveal(vstd::arithmetic::power::pow);
    if n > 0 {
        let m = (n - 1) as nat;
        lemma_repeated_measurement_converges(e, v, m);
        let prev = after_n(e, v, m);
        lemma_constant_measurement_converges(prev, v);
        let a = vstd::arithmetic::power::pow(e.q + e.r, m);
        let b = vstd::arithmetic::power::pow(e.r as int, m);
        let d0 = distance(e.x as int, v);
        let d1 = distance(prev.x as int, v);
        let d2 = distance(prev.after(v).x as int, v);
        let q = e.q as int;
        let r = e.r as int;
        vstd::arithmetic::power::lemma_pow_positive(q + r, m);
        assert((q + r) * d2 <= r * d1) by (nonlinear_arith)
            requires (prev.predicted() + r) * d2 <= r * d1, prev.predicted() >= q, d2 >= 0;
        assert(a * ((q + r) * d2) <= a * (r * d1)) by (nonlinear_arith)
            requires (q + r) * d2 <= r * d1, a > 0;
        assert(r * (a * d1) <= r * (b * d0)) by (nonlinear_arith)
            requires a * d1 <= b * d0, r > 0;
        assert(vstd::arithmetic::power::pow(q + r, n) == (q + r) * a);
        assert(vstd::arithmetic::power::pow(r, n) == r * b);
        assert(((q + r) * a) * d2 <= (r * b) * d0) by (nonlinear_arith)
            requires a * ((q + r) * d2) <= a * (r * d1), r * (a * d1) <= r * (b * d0);
        assert(after_n(e, v, n) == prev.after(v));
    }
}

} // verus!
