use vstd::prelude::*;
use crate::arith::{floor_root, isqrt};
use crate::calibration::CalibrationData;
use crate::classification::{
    TremorType, classification_of, classify, smoothing_factor_for, smoothing_factor_of,
};
use crate::estimator::{KalmanFilter, MAX_COORD, blend, toward};
use crate::history::{History, pushed};

verus! {

/// Capacity of the raw and filtered position histories.
pub const POSITION_HISTORY: usize = 100;

/// Capacity of the rolling amplitude and frequency histories.
pub const METRIC_HISTORY: usize = 50;

/// Fewest buffered positions from which the filter reclassifies.
pub const MIN_CLASSIFY_SAMPLES: usize = 10;

/// Largest distance from the origin of an accepted position, in thousandths
/// of a pixel, rounded up.
pub const MAX_MAGNITUDE: i64 = 3_100_000_000_000;

/// Distance of a position from the origin, in thousandths of a pixel, rounded down.
pub open spec fn magnitude(p: (i64, i64)) -> int {
    floor_root(p.0 * p.0 + p.1 * p.1)
}

/// Sum of the magnitudes of positions `0 .. k`.
pub open spec fn total_magnitude(h: Seq<(i64, i64)>, k: int) -> int
    decreases k,
{
    if k <= 0 {
        0
    } else {
        total_magnitude(h, k - 1) + magnitude(h[k - 1])
    }
}

/// The magnitude turns at position `i`: it rises into `i` after falling into
/// `i - 1`, or falls after rising, so consecutive deltas change sign.
pub open spec fn is_reversal(h: Seq<(i64, i64)>, i: int) -> bool {
    let a = magnitude(h[i - 2]);
    let b = magnitude(h[i - 1]);
    let c = magnitude(h[i]);
    (b < a && c > b) || (b > a && c < b)
}

/// Number of reversals at positions `2 .. k`.
pub open spec fn reversals(h: Seq<(i64, i64)>, k: int) -> int
    decreases k,
{
    if k <= 2 {
        0
    } else {
        reversals(h, k - 1) + if is_reversal(h, k - 1) { 1int } else { 0int }
    }
}

/// Rolling amplitude: mean magnitude of the buffered positions, in thousandths.
pub open spec fn rolling_amplitude(h: Seq<(i64, i64)>) -> int {
    if h.len() == 0 {
        0
    } else {
        total_magnitude(h, h.len() as int) / (h.len() as int)
    }
}

/// Rolling frequency: reversals per buffered position, in thousandths.
pub open spec fn rolling_frequency(h: Seq<(i64, i64)>) -> int {
    if h.len() == 0 {
        0
    } else {
        reversals(h, h.len() as int) * 1000 / (h.len() as int)
    }
}

/// Sum of entries `0 .. k`.
pub open spec fn sum_of(s: Seq<i64>, k: int) -> int
    decreases k,
{
    if k <= 0 {
        0
    } else {
        sum_of(s, k - 1) + s[k - 1]
    }
}

/// Mean of the entries, rounded down; 0 when there are none.
pub open spec fn mean_of(s: Seq<i64>) -> int {
    if s.len() == 0 {
        0
    } else {
        sum_of(s, s.len() as int) / (s.len() as int)
    }
}

/// Both coordinates lie in the accepted range.
pub open spec fn in_range(p: (i64, i64)) -> bool {
    -MAX_COORD <= p.0 <= MAX_COORD && -MAX_COORD <= p.1 <= MAX_COORD
}

/// The estimator each axis starts from.
pub open spec fn initial_estimator() -> KalmanFilter {
    KalmanFilter { x: 0, p: 1000, q: 100, r: 5000 }
}

/// Adaptive two-axis tremor filter: one estimator per axis, a blending
/// factor chosen by the current tremor classification, and bounded histories
/// of raw and filtered positions and of rolling metrics.
pub struct TremorFilter {
    kalman_x: KalmanFilter,
    kalman_y: KalmanFilter,
    smoothing_factor: i64,
    tremor_type: TremorType,
    movement_history: History<(i64, i64)>,
    filtered_history: History<(i64, i64)>,
    frequency_history: History<i64>,
    amplitude_history: History<i64>,
}

impl TremorFilter {
    /// Estimator of the first axis.
    pub closed spec fn estimator_x(&self) -> KalmanFilter {
        self.kalman_x
    }

    /// Estimator of the second axis.
    pub closed spec fn estimator_y(&self) -> KalmanFilter {
        self.kalman_y
    }

    /// Current smoothing factor, in thousandths.
    pub closed spec fn factor(&self) -> int {
        self.smoothing_factor as int
    }

    /// Current tremor classification.
    pub closed spec fn classification(&self) -> TremorType {
        self.tremor_type
    }

    /// Buffered raw positions, oldest first.
    pub closed spec fn raw_positions(&self) -> Seq<(i64, i64)> {
        self.movement_history@
    }

    /// Buffered filtered positions, oldest first.
    pub closed spec fn filtered_positions(&self) -> Seq<(i64, i64)> {
        self.filtered_history@
    }

    /// Rolling frequencies, oldest first.
    pub closed spec fn frequencies(&self) -> Seq<i64> {
        self.frequency_history@
    }

    /// Rolling amplitudes, oldest first.
    pub closed spec fn amplitudes(&self) -> Seq<i64> {
        self.amplitude_history@
    }

    /// The filter's state is consistent: the histories have their fixed
    /// capacities, the estimators are in range, the buffered values are in
    /// range, and the smoothing factor is the one its classification selects.
    pub closed spec fn wf(&self) -> bool {
        &&& self.kalman_x.wf()
        &&& self.kalman_y.wf()
        &&& self.smoothing_factor == smoothing_factor_of(self.tremor_type)
        &&& self.movement_history.wf()
        &&& self.movement_history.cap() == POSITION_HISTORY
        &&& self.filtered_history.wf()
        &&& self.filtered_history.cap() == POSITION_HISTORY
        &&& self.frequency_history.wf()
        &&& self.frequency_history.cap() == METRIC_HISTORY
        &&& self.amplitude_history.wf()
        &&& self.amplitude_history.cap() == METRIC_HISTORY
        &&& forall|i: int|
            0 <= i < self.movement_history@.len() ==> in_range(#[trigger] self.movement_history@[i])
        &&& forall|i: int|
            0 <= i < self.frequency_history@.len() ==> 0 <= #[trigger] self.frequency_history@[i] <= 1000
        &&& forall|i: int|
            0 <= i < self.amplitude_history@.len() ==> 0 <= #[trigger] self.amplitude_history@[i]
                <= MAX_MAGNITUDE
    }

    /// A filter that starts from the calibration: both axes begin at state 0
    /// with covariance 1, process noise 0.1 and measurement noise 5, the
    /// classification is `Mixed`, and all histories are empty. The
    /// profile's values do not tune the estimators.
    pub fn new(calibration: CalibrationData) -> (r: Self)
        ensures
            r.wf(),
            r.estimator_x() == initial_estimator(),
            r.estimator_y() == initial_estimator(),
            r.classification() == TremorType::Mixed,
            r.factor() == smoothing_factor_of(r.classification()),
            r.raw_positions() == Seq::<(i64, i64)>::empty(),
            r.filtered_positions() == Seq::<(i64, i64)>::empty(),
            r.frequencies() == Seq::<i64>::empty(),
            r.amplitudes() == Seq::<i64>::empty(),
    {
        let kalman_x = KalmanFilter::new(0, 1000, 100, 5000);
        let kalman_y = KalmanFilter::new(0, 1000, 100, 5000);
        let tremor_type = TremorType::Mixed;
        TremorFilter {
            kalman_x,
            kalman_y,
            smoothing_factor: smoothing_factor_for(tremor_type),
            tremor_type,
            movement_history: History::new(POSITION_HISTORY),
            filtered_history: History::new(POSITION_HISTORY),
            frequency_history: History::new(METRIC_HISTORY),
            amplitude_history: History::new(METRIC_HISTORY),
        }
    }

    /// Filters one raw position. Both axes are fed to their estimators, and
    /// each output coordinate is the raw one blended toward the estimate by
    /// the current smoothing factor. The raw and the output position join
    /// their histories; then, once at least ten positions are buffered, the
    /// rolling metrics are recomputed and recorded, and the classification
    /// and smoothing factor follow them.
    pub fn process_movement(&mut self, x: i64, y: i64) -> (r: (i64, i64))
        requires
            old(self).wf(),
            in_range((x, y)),
        ensures
            final(self).wf(),
            final(self).estimator_x() == old(self).estimator_x().after(x as int),
            final(self).estimator_y() == old(self).estimator_y().after(y as int),
            r.0 == toward(x as int, final(self).estimator_x().x as int, old(self).factor()),
            r.1 == toward(y as int, final(self).estimator_y().x as int, old(self).factor()),
            final(self).raw_positions() == pushed(
                old(self).raw_positions(),
                (x, y),
                POSITION_HISTORY as nat,
            ),
            final(self).filtered_positions() == pushed(
                old(self).filtered_positions(),
                r,
                POSITION_HISTORY as nat,
            ),
            reclassified(*old(self), *final(self)),
            final(self).factor() == smoothing_factor_of(final(self).classification()),
    {
        self.movement_history.push((x, y));
        let filtered_x = self.kalman_x.update(x);
        let filtered_y = self.kalman_y.update(y);
        let smoothed_x = blend(x, filtered_x, self.smoothing_factor);
        let smoothed_y = blend(y, filtered_y, self.smoothing_factor);
        self.filtered_history.push((smoothed_x, smoothed_y));
        self.adjust_filter_parameters();
        (smoothed_x, smoothed_y)
    }

    /// Recomputes the rolling metrics and the classification when at least
    /// ten positions are buffered; does nothing otherwise.
    fn adjust_filter_parameters(&mut self)
        requires
            old(self).wf(),
        ensures
            final(self).wf(),
            final(self).estimator_x() == old(self).estimator_x(),
            final(self).estimator_y() == old(self).estimator_y(),
            final(self).raw_positions() == old(self).raw_positions(),
            final(self).filtered_positions() == old(self).filtered_positions(),
            reclassified(*old(self), *final(self)),
    {
        if self.movement_history.len() < MIN_CLASSIFY_SAMPLES {
            return;
        }
        let (amplitude, frequency) = self.calculate_tremor_metrics();
        self.amplitude_history.push(amplitude);
        self.frequency_history.push(frequency);
        self.tremor_type = classify(amplitude, frequency);
        self.smoothing_factor = smoothing_factor_for(self.tremor_type);
    }

    /// Rolling amplitude and frequency of the buffered raw positions.
    fn calculate_tremor_metrics(&self) -> (r: (i64, i64))
        requires
            self.wf(),
        ensures
            r.0 == rolling_amplitude(self.raw_positions()),
            r.1 == rolling_frequency(self.raw_positions()),
            0 <= r.0 <= MAX_MAGNITUDE,
            0 <= r.1 <= 1000,
    {
        let n = self.movement_history.len();
        if n == 0 {
            return (0, 0);
        }
        let ghost h = self.movement_history@;
        let mut total: i64 = 0;
        let mut turns: i64 = 0;
        let mut prev: i64 = 0;
        let mut prev2: i64 = 0;
        let mut i: usize = 0;
        while i < n
            invariant
                self.wf(),
                h == self.movement_history@,
                n == h.len(),
                1 <= n <= POSITION_HISTORY,
                0 <= i <= n,
                total == total_magnitude(h, i as int),
                0 <= total <= i * MAX_MAGNITUDE,
                turns == reversals(h, i as int),
                0 <= turns <= i,
                i >= 1 ==> prev == magnitude(h[i - 1]),
                i >= 2 ==> prev2 == magnitude(h[i - 2]),
            decreases n - i,
        {
            let p = self.movement_history.get(i);
            let m = position_magnitude(p);
            if i >= 2 && ((prev < prev2 && m > prev) || (prev > prev2 && m < prev)) {
                turns = turns + 1;
            }
            total = total + m;
            prev2 = prev;
            prev = m;
            i = i + 1;
        }
        let len: i64 = n as i64;
        let amplitude: i64 = total / len;
        assert(amplitude <= MAX_MAGNITUDE) by (nonlinear_arith)
            requires amplitude == (total as int) / (len as int), 0 <= total <= len * MAX_MAGNITUDE, len >= 1;
        let frequency: i64 = turns * 1000 / len;
        assert(0 <= frequency <= 1000) by (nonlinear_arith)
            requires frequency == (turns as int) * 1000 / (len as int), 0 <= turns <= len, len >= 1;
        (amplitude, frequency)
    }

    /// Rolling averages of the recorded frequencies and amplitudes (0 when
    /// none are recorded yet), with the current classification.
    pub fn get_tremor_metrics(&self) -> (r: (i64, i64, TremorType))
        requires
            self.wf(),
        ensures
            r.0 == mean_of(self.frequencies()),
            r.1 == mean_of(self.amplitudes()),
            r.2 == self.classification(),
    {
        let avg_frequency = mean_of_history(&self.frequency_history);
        let avg_amplitude = mean_of_history(&self.amplitude_history);
        (avg_frequency, avg_amplitude, self.tremor_type)
    }

    /// Current smoothing factor, in thousandths.
    pub fn smoothing_factor(&self) -> (r: i64)
        requires
            self.wf(),
        ensures
            r == self.factor(),
            r == smoothing_factor_of(self.classification()),
    {
        self.smoothing_factor
    }

    /// Current tremor classification.
    pub fn tremor_type(&self) -> (r: TremorType)
        ensures
            r == self.classification(),
    {
        self.tremor_type
    }

    /// Buffered raw positions, oldest first.
    pub fn raw_history(&self) -> (r: Vec<(i64, i64)>)
        requires
            self.wf(),
        ensures
            r@ == self.raw_positions(),
    {
        self.movement_history.to_vec()
    }

    /// Buffered filtered positions, oldest first.
    pub fn filtered_history(&self) -> (r: Vec<(i64, i64)>)
        requires
            self.wf(),
        ensures
            r@ == self.filtered_positions(),
    {
        self.filtered_history.to_vec()
    }
}

/// What one step does to the classification state: below ten buffered
/// positions nothing changes; from ten on, the rolling amplitude and
/// frequency of the buffered positions are recorded and classified.
pub open spec fn reclassified(before: TremorFilter, after: TremorFilter) -> bool {
    let h = after.raw_positions();
    if h.len() < MIN_CLASSIFY_SAMPLES {
        &&& after.classification() == before.classification()
        &&& after.amplitudes() == before.amplitudes()
        &&& after.frequencies() == before.frequencies()
    } else {
        &&& after.amplitudes() == pushed(
            before.amplitudes(),
            rolling_amplitude(h) as i64,
            METRIC_HISTORY as nat,
        )
        &&& after.frequencies() == pushed(
            before.frequencies(),
            rolling_frequency(h) as i64,
            METRIC_HISTORY as nat,
        )
        &&& after.classification() == classification_of(rolling_amplitude(h), rolling_frequency(h))
    }
}

/// Distance of a position from the origin, in thousandths of a pixel.
fn position_magnitude(p: (i64, i64)) -> (r: i64)
    requires
        in_range(p),
    ensures
        r == magnitude(p),
        0 <= r <= MAX_MAGNITUDE,
{
    let x: i128 = p.0 as i128;
    let y: i128 = p.1 as i128;
    assert(0 <= x * x <= 4_611_686_018_427_387_904_000_000int
        && 0 <= y * y <= 4_611_686_018_427_387_904_000_000int) by (nonlinear_arith)
        requires -MAX_COORD <= x <= MAX_COORD, -MAX_COORD <= y <= MAX_COORD;
    let sq: u128 = (x * x + y * y) as u128;
    let r = isqrt(sq);
    assert(r <= MAX_MAGNITUDE) by (nonlinear_arith)
        requires r * r <= sq, sq <= 9_223_372_036_854_775_808_000_000int, r >= 0;
    r as i64
}

/// Mean of a metric history, rounded down; 0 when it is empty.
fn mean_of_history(h: &History<i64>) -> (r: i64)
    requires
        h.wf(),
        h.cap() == METRIC_HISTORY,
        forall|i: int| 0 <= i < h@.len() ==> 0 <= #[trigger] h@[i] <= MAX_MAGNITUDE,
    ensures
        r == mean_of(h@),
{
    let n = h.len();
    if n == 0 {
        return 0;
    }
    let mut sum: i64 = 0;
    let mut i: usize = 0;
    while i < n
        invariant
            h.wf(),
            n == h@.len(),
            1 <= n <= METRIC_HISTORY,
            forall|j: int| 0 <= j < h@.len() ==> 0 <= #[trigger] h@[j] <= MAX_MAGNITUDE,
            0 <= i <= n,
            sum == sum_of(h@, i as int),
            0 <= sum <= i * MAX_MAGNITUDE,
        decreases n - i,
    {
        sum = sum + h.get(i);
        i = i + 1;
    }
    sum / (n as i64)
}

} // verus!
