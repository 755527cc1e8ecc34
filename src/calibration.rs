use vstd::prelude::*;
use crate::arith::{floor_root, isqrt};

verus! {

/// Largest number of samples one calibration accepts.
pub const MAX_CALIBRATION_SAMPLES: usize = 100_000;

/// Fewest samples from which a calibration can be computed.
pub const MIN_CALIBRATION_SAMPLES: usize = 2;

/// Baseline tremor of one user, measured once at the start of a session.
///
/// All three values are in thousandths: the frequency of Hz, the amplitude of
/// a pixel, the stability of the unit score.
#[derive(Clone, Copy, Debug, PartialEq, Eq, Structural)]
pub struct CalibrationData {
    pub tremor_frequency: i64,
    pub tremor_amplitude: i64,
    pub baseline_stability: i64,
}

/// Why a calibration could not produce a profile.
#[derive(Clone, Copy, Debug, PartialEq, Eq, Structural)]
pub enum CalibrationError {
    /// The window yielded fewer than two samples.
    InsufficientSamples,
}

/// Squared length of the step into sample `i` (pixels squared).
pub open spec fn step_sq(s: Seq<(i32, i32)>, i: int) -> int {
    let dx = s[i].0 - s[i - 1].0;
    let dy = s[i].1 - s[i - 1].1;
    dx * dx + dy * dy
}

/// Length of the step into sample `i`, in thousandths of a pixel, rounded down.
pub open spec fn step_length(s: Seq<(i32, i32)>, i: int) -> int {
    floor_root(1_000_000 * step_sq(s, i))
}

/// Sum of the lengths of the steps into samples `1 .. k`.
pub open spec fn total_step_length(s: Seq<(i32, i32)>, k: int) -> int
    decreases k,
{
    if k <= 1 {
        0
    } else {
        total_step_length(s, k - 1) + step_length(s, k - 1)
    }
}

/// A step is significant when it is longer than a tenth of a pixel.
pub open spec fn is_significant(s: Seq<(i32, i32)>, i: int) -> bool {
    100 * step_sq(s, i) > 1
}

/// Number of significant steps into samples `1 .. k`.
pub open spec fn significant_steps(s: Seq<(i32, i32)>, k: int) -> int
    decreases k,
{
    if k <= 1 {
        0
    } else {
        significant_steps(s, k - 1) + if is_significant(s, k - 1) { 1int } else { 0int }
    }
}

/// Mean step length, in thousandths of a pixel, rounded down.
pub open spec fn amplitude_of(s: Seq<(i32, i32)>) -> int {
    total_step_length(s, s.len() as int) / (s.len() - 1)
}

/// Significant steps per second of the window, in thousandths of Hz, rounded down.
pub open spec fn frequency_of(s: Seq<(i32, i32)>, window_ms: int) -> int {
    significant_steps(s, s.len() as int) * 1_000_000 / window_ms
}

/// Sum of the first coordinates of samples `0 .. k`.
pub open spec fn sum_x(s: Seq<(i32, i32)>, k: int) -> int
    decreases k,
{
    if k <= 0 {
        0
    } else {
        sum_x(s, k - 1) + s[k - 1].0
    }
}

/// Sum of the second coordinates of samples `0 .. k`.
pub open spec fn sum_y(s: Seq<(i32, i32)>, k: int) -> int
    decreases k,
{
    if k <= 0 {
        0
    } else {
        sum_y(s, k - 1) + s[k - 1].1
    }
}

/// Squared distance of sample `i` from the centroid, scaled by `n * n`:
/// `|n * p_i - sum of all p|^2`, where `n` is the number of samples.
pub open spec fn scaled_deviation(s: Seq<(i32, i32)>, i: int) -> int {
    let n = s.len() as int;
    let dx = n * s[i].0 - sum_x(s, n);
    let dy = n * s[i].1 - sum_y(s, n);
    dx * dx + dy * dy
}

/// Sum of `scaled_deviation` over samples `0 .. k`. Over all samples this is
/// `n^3` times the variance: the mean squared distance from the centroid.
pub open spec fn spread(s: Seq<(i32, i32)>, k: int) -> int
    decreases k,
{
    if k <= 0 {
        0
    } else {
        spread(s, k - 1) + scaled_deviation(s, k - 1)
    }
}

/// `a / b` rounded up.
pub open spec fn ceil_div(a: int, b: int) -> int {
    (a + b - 1) / b
}

/// `1 / (1 + variance)` in thousandths, rounded up:
/// `n^3 / (n^3 + spread)` with `spread = n^3 * variance`.
pub open spec fn stability_of(s: Seq<(i32, i32)>) -> int {
    let n = s.len() as int;
    let c = n * n * n;
    ceil_div(1000 * c, c + spread(s, s.len() as int))
}

/// The profile that a sample sequence yields over a window of `window_ms`
/// milliseconds.
pub open spec fn profile_of(s: Seq<(i32, i32)>, window_ms: int) -> CalibrationData {
    CalibrationData {
        tremor_frequency: frequency_of(s, window_ms) as i64,
        tremor_amplitude: amplitude_of(s) as i64,
        baseline_stability: stability_of(s) as i64,
    }
}

/// The spread is a sum of squares, so it is never negative.
proof fn lemma_spread_nonneg(s: Seq<(i32, i32)>, k: int)
    ensures
        spread(s, k) >= 0,
    decreases k,
{
    if k > 0 {
        lemma_spread_nonneg(s, k - 1);
        let n = s.len() as int;
        let dx = n * s[k - 1].0 - sum_x(s, n);
        let dy = n * s[k - 1].1 - sum_y(s, n);
        assert(dx * dx + dy * dy >= 0) by (nonlinear_arith);
    }
}

/// When every sample equals the first, the coordinate sums are multiples of it.
proof fn lemma_sums_of_constant(s: Seq<(i32, i32)>, k: int)
    requires
        0 <= k <= s.len(),
        forall|i: int| 0 <= i < s.len() ==> #[trigger] s[i] == s[0],
    ensures
        sum_x(s, k) == k * s[0].0,
        sum_y(s, k) == k * s[0].1,
    decreases k,
{
    if k > 0 {
        lemma_sums_of_constant(s, k - 1);
        assert(s[k - 1] == s[0]);
        assert(sum_x(s, k) == (k - 1) * s[0].0 + s[0].0);
        assert(sum_y(s, k) == (k - 1) * s[0].1 + s[0].1);
        assert((k - 1) * s[0].0 + s[0].0 == k * s[0].0) by (nonlinear_arith);
        assert((k - 1) * s[0].1 + s[0].1 == k * s[0].1) by (nonlinear_arith);
    }
}

/// When every sample equals the first, no sample deviates from the centroid.
proof fn lemma_spread_of_constant(s: Seq<(i32, i32)>, k: int)
    requires
        0 <= k <= s.len(),
        forall|i: int| 0 <= i < s.len() ==> #[trigger] s[i] == s[0],
    ensures
        spread(s, k) == 0,
    decreases k,
{
    if k > 0 {
        lemma_spread_of_constant(s, k - 1);
        lemma_sums_of_constant(s, s.len() as int);
        assert(s[k - 1] == s[0]);
    }
}

/// For any non-empty sample sequence the stability score lies in `(0, 1]`
/// (in thousandths: 1 to 1000), and it is exactly 1 when all samples coincide.
pub proof fn lemma_stability_bounds(s: Seq<(i32, i32)>)
    requires
        s.len() >= 1,
    ensures
        0 < stability_of(s) <= 1000,
        (forall|i: int| 0 <= i < s.len() ==> #[trigger] s[i] == s[0]) ==> stability_of(s) == 1000,
{
    let n = s.len() as int;
    let c = n * n * n;
    assert(c >= 1) by (nonlinear_arith)
        requires n >= 1, c == n * n * n;
    lemma_spread_nonneg(s, n);
    let d = c + spread(s, n);
    assert(0 < (1000 * c + d - 1) / d <= 1000) by (nonlinear_arith)
        requires d >= c, c >= 1;
    if forall|i: int| 0 <= i < s.len() ==> #[trigger] s[i] == s[0] {
        lemma_spread_of_constant(s, n);
        assert((1000 * c + c - 1) / c == 1000) by (nonlinear_arith)
            requires c >= 1;
    }
}

/// A calibration is a function of its samples and window alone: equal sample
/// sequences over equal windows give equal profiles.
pub proof fn lemma_calibration_deterministic(a: Seq<(i32, i32)>, b: Seq<(i32, i32)>, window_ms: int)
    requires
        a == b,
    ensures
        profile_of(a, window_ms) == profile_of(b, window_ms),
{
}

/// Length of the step into sample `i`, in thousandths of a pixel.
fn step_length_at(samples: &[(i32, i32)], i: usize) -> (r: u128)
    requires
        1 <= i < samples@.len(),
    ensures
        r == step_length(samples@, i as int),
        r <= 7_000_000_000_000,
        (r > 0) == is_significant(samples@, i as int),
{
    let dx: i128 = samples[i].0 as i128 - samples[i - 1].0 as i128;
    let dy: i128 = samples[i].1 as i128 - samples[i - 1].1 as i128;
    assert(0 <= dx * dx <= 0x1_0000_0000_0000_0000int && 0 <= dy * dy <= 0x1_0000_0000_0000_0000int)
        by (nonlinear_arith)
        requires -0x1_0000_0000int <= dx <= 0x1_0000_0000int, -0x1_0000_0000int <= dy <= 0x1_0000_0000int;
    let sq: u128 = (dx * dx + dy * dy) as u128;
    let r = isqrt(1_000_000 * sq);
    assert(r <= 7_000_000_000_000) by (nonlinear_arith)
        requires r * r <= 1_000_000 * sq, sq <= 0x2_0000_0000_0000_0000int, r >= 0;
    assert((r > 0) == (100 * sq > 1)) by (nonlinear_arith)
        requires r * r <= 1_000_000 * sq, 1_000_000 * sq < (r + 1) * (r + 1), r >= 0, sq >= 0;
    r
}

/// Tremor frequency and amplitude of a sample sequence collected over
/// `window_ms` milliseconds: significant steps per second, and mean step length.
pub fn analyze_tremor(samples: &[(i32, i32)], window_ms: u64) -> (r: (i64, i64))
    requires
        MIN_CALIBRATION_SAMPLES <= samples@.len() <= MAX_CALIBRATION_SAMPLES,
        window_ms > 0,
    ensures
        r.0 == frequency_of(samples@, window_ms as int),
        r.1 == amplitude_of(samples@),
        r.0 >= 0,
        r.1 >= 0,
{
    let n = samples.len();
    let mut total: u128 = 0;
    let mut significant: u64 = 0;
    let mut i: usize = 1;
    while i < n
        invariant
            n == samples@.len(),
            MIN_CALIBRATION_SAMPLES <= n <= MAX_CALIBRATION_SAMPLES,
            1 <= i <= n,
            total == total_step_length(samples@, i as int),
            total <= i * 7_000_000_000_000,
            significant == significant_steps(samples@, i as int),
            significant <= i,
        decreases n - i,
    {
        let len = step_length_at(samples, i);
        total = total + len;
        if len > 0 {
            significant = significant + 1;
        }
        i = i + 1;
    }
    let steps: u128 = (n - 1) as u128;
    let amplitude: u128 = total / steps;
    assert(amplitude <= 7_000_000_000_000 * MAX_CALIBRATION_SAMPLES) by (nonlinear_arith)
        requires amplitude == total / steps, steps >= 1, total <= n * 7_000_000_000_000,
            n <= MAX_CALIBRATION_SAMPLES;
    let frequency: u64 = significant * 1_000_000 / window_ms;
    (frequency as i64, amplitude as i64)
}

/// Baseline stability of a sample sequence: `1 / (1 + variance)` in
/// thousandths, rounded up, where the variance is the mean squared distance of
/// the samples from their centroid.
pub fn calculate_stability(samples: &[(i32, i32)]) -> (r: i64)
    requires
        1 <= samples@.len() <= MAX_CALIBRATION_SAMPLES,
    ensures
        r == stability_of(samples@),
        0 < r <= 1000,
{
    let n = samples.len();
    let mut sx: i128 = 0;
    let mut sy: i128 = 0;
    let mut i: usize = 0;
    while i < n
        invariant
            n == samples@.len(),
            1 <= n <= MAX_CALIBRATION_SAMPLES,
            0 <= i <= n,
            sx == sum_x(samples@, i as int),
            sy == sum_y(samples@, i as int),
            -i * 0x8000_0000int <= sx <= i * 0x8000_0000int,
            -i * 0x8000_0000int <= sy <= i * 0x8000_0000int,
        decreases n - i,
    {
        sx = sx + samples[i].0 as i128;
        sy = sy + samples[i].1 as i128;
        i = i + 1;
    }
    let nn: i128 = n as i128;
    let mut total: u128 = 0;
    let mut j: usize = 0;
    while j < n
        invariant
            n == samples@.len(),
            nn == n,
            1 <= n <= MAX_CALIBRATION_SAMPLES,
            0 <= j <= n,
            sx == sum_x(samples@, n as int),
            sy == sum_y(samples@, n as int),
            -n * 0x8000_0000int <= sx <= n * 0x8000_0000int,
            -n * 0x8000_0000int <= sy <= n * 0x8000_0000int,
            total == spread(samples@, j as int),
            total <= j * 0x20_0000_0000_0000_0000_0000_0000int,
        decreases n - j,
    {
        let px: i128 = samples[j].0 as i128;
        let py: i128 = samples[j].1 as i128;
        assert(-n * 0x8000_0000int <= nn * px <= n * 0x8000_0000int) by (nonlinear_arith)
            requires nn == n, n >= 0, -0x8000_0000int <= px <= 0x8000_0000int;
        assert(-n * 0x8000_0000int <= nn * py <= n * 0x8000_0000int) by (nonlinear_arith)
            requires nn == n, n >= 0, -0x8000_0000int <= py <= 0x8000_0000int;
        let dx: i128 = nn * px - sx;
        let dy: i128 = nn * py - sy;
        assert(0 <= dx * dx <= 0x10_0000_0000_0000_0000_0000_0000int
            && 0 <= dy * dy <= 0x10_0000_0000_0000_0000_0000_0000int) by (nonlinear_arith)
            requires -0x4_0000_0000_0000int <= dx <= 0x4_0000_0000_0000int,
                -0x4_0000_0000_0000int <= dy <= 0x4_0000_0000_0000int;
        let term: u128 = (dx * dx + dy * dy) as u128;
        total = total + term;
        j = j + 1;
    }
    let un: u128 = n as u128;
    assert(un * un * un <= 1_000_000_000_000_000 && un * un <= 10_000_000_000 && un * un * un >= 1)
        by (nonlinear_arith)
        requires 1 <= un <= 100_000;
    let c: u128 = un * un * un;
    let d: u128 = c + total;
    let r: u128 = (1000 * c + d - 1) / d;
    assert(0 < r <= 1000) by (nonlinear_arith)
        requires r == (1000 * c + d - 1) / (d as int), d == c + total, c >= 1, total >= 0;
    r as i64
}

/// Computes a calibration profile from the samples of one window of
/// `window_ms` milliseconds. Fails with `InsufficientSamples` when fewer than
/// two samples were collected.
pub fn perform_calibration(samples: &[(i32, i32)], window_ms: u64)
    -> (r: Result<CalibrationData, CalibrationError>)
    requires
        samples@.len() <= MAX_CALIBRATION_SAMPLES,
        window_ms > 0,
    ensures
        samples@.len() < MIN_CALIBRATION_SAMPLES ==> r == Err::<CalibrationData, CalibrationError>(
            CalibrationError::InsufficientSamples,
        ),
        samples@.len() >= MIN_CALIBRATION_SAMPLES ==> r == Ok::<CalibrationData, CalibrationError>(
            profile_of(samples@, window_ms as int),
        ),
        r matches Ok(d) ==> d.tremor_frequency >= 0 && d.tremor_amplitude >= 0 && 0
            < d.baseline_stability <= 1000,
{
    if samples.len() < MIN_CALIBRATION_SAMPLES {
        return Err(CalibrationError::InsufficientSamples);
    }
    let (frequency, amplitude) = analyze_tremor(samples, window_ms);
    let stability = calculate_stability(samples);
    Ok(CalibrationData {
        tremor_frequency: frequency,
        tremor_amplitude: amplitude,
        baseline_stability: stability,
    })
}

} // verus!
