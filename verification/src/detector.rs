//! The two anomaly rules. Each compares a fresh sample with the baseline of
//! the samples that came before it; the sample itself is not part of that
//! baseline.

use crate::history::{
    lemma_total_bound, lemma_window_holds_most_recent, mean_of, pushed_all, total, HistoryWindow,
};
use vstd::prelude::*;

verus! {

/// Parameters of the rules. Factors and the floor are decimal quantities in
/// hundredths: a factor of 2.0 is 200, a floor of 5 percent is 500.
#[derive(Clone, Copy, Debug, PartialEq, Eq, Structural)]
pub struct BaselineConfig {
    /// Samples a window must hold before a rule can flag anything.
    pub baseline_samples: usize,
    /// Factor, in hundredths, of the CPU baseline that a spike must exceed.
    pub spike_multiplier: u32,
    /// Factor, in hundredths, of the memory baseline that a leak must exceed.
    pub leak_growth_factor: u32,
    /// CPU baseline, in hundredths of a percent, that must be exceeded for
    /// spikes to count at all.
    pub spike_floor: u64,
}

impl BaselineConfig {
    /// Ten samples of baseline, spikes above twice a baseline of more than
    /// 5 percent, leaks above 1.2 times the baseline.
    pub open spec fn standard() -> BaselineConfig {
        BaselineConfig {
            baseline_samples: 10,
            spike_multiplier: 200,
            leak_growth_factor: 120,
            spike_floor: 500,
        }
    }
}

impl Default for BaselineConfig {
    fn default() -> (config: BaselineConfig)
        ensures
            config == BaselineConfig::standard(),
    {
        BaselineConfig {
            baseline_samples: 10,
            spike_multiplier: 200,
            leak_growth_factor: 120,
            spike_floor: 500,
        }
    }
}

/// Whether `history` gives a baseline: it holds the configured number of
/// samples, and at least one.
pub open spec fn warmed_up(history: Seq<u64>, config: BaselineConfig) -> bool {
    history.len() >= config.baseline_samples && history.len() > 0
}

/// The CPU spike rule: with a baseline at hand, `current` exceeds the mean of
/// `history` times the spike multiplier, and that mean exceeds the floor.
///
/// The mean is the exact quotient `total / len`, so both comparisons are
/// stated multiplied through by the length (and the first by 100, the scale
/// of the multiplier).
pub open spec fn spike_flagged(history: Seq<u64>, current: u64, config: BaselineConfig) -> bool {
    &&& warmed_up(history, config)
    &&& current * history.len() * 100 > total(history) * config.spike_multiplier
    &&& total(history) > config.spike_floor * history.len()
}

/// What a memory sample must exceed, besides the baseline itself: the mean of
/// `history` rounded down, times the growth factor, rounded down again.
pub open spec fn leak_threshold(history: Seq<u64>, config: BaselineConfig) -> int {
    mean_of(history) * config.leak_growth_factor / 100
}

/// The memory leak rule: with a baseline at hand, `current` exceeds both the
/// leak threshold and the rounded-down mean of `history`.
pub open spec fn leak_flagged(history: Seq<u64>, current: u64, config: BaselineConfig) -> bool {
    &&& warmed_up(history, config)
    &&& current > leak_threshold(history, config)
    &&& current > mean_of(history)
}

/// Evaluates the CPU spike rule for `current`, in hundredths of a percent,
/// against the samples of `history`.
pub fn detect_cpu_spike(history: &HistoryWindow, current: u64, config: &BaselineConfig) -> (spike:
    bool)
    ensures
        spike == spike_flagged(history@, current, *config),
{
    let n: usize = history.length();
    if n < config.baseline_samples || n == 0 {
        return false;
    }
    let sum: u128 = history.sum();
    proof {
        lemma_total_bound(history@);
        let len = n as int;
        let cur = current as int;
        let tot = sum as int;
        let mult = config.spike_multiplier as int;
        let floor = config.spike_floor as int;
        assert(0 <= cur * len * 100 <= u64::MAX * 30 * 100 && 0 <= tot * mult <= (30 * u64::MAX)
            * u32::MAX && 0 <= floor * len <= u64::MAX * 30) by (nonlinear_arith)
            requires
                0 < len <= 30,
                0 <= cur <= u64::MAX,
                0 <= tot <= len * u64::MAX,
                0 <= mult <= u32::MAX,
                0 <= floor <= u64::MAX,
        ;
    }
    let scaled_sample: u128 = current as u128 * n as u128 * 100;
    let scaled_baseline: u128 = sum * config.spike_multiplier as u128;
    let scaled_floor: u128 = config.spike_floor as u128 * n as u128;
    scaled_sample > scaled_baseline && sum > scaled_floor
}

/// Evaluates the memory leak rule for `current`, in megabytes, against the
/// samples of `history`.
pub fn detect_memory_leak(history: &HistoryWindow, current: u64, config: &BaselineConfig) -> (leak:
    bool)
    ensures
        leak == leak_flagged(history@, current, *config),
{
    if history.length() < config.baseline_samples {
        return false;
    }
    match history.mean() {
        None => false,
        Some(mean) => {
            proof {
                let m = mean as int;
                let g = config.leak_growth_factor as int;
                assert(0 <= m * g <= u64::MAX * u32::MAX) by (nonlinear_arith)
                    requires
                        0 <= m <= u64::MAX,
                        0 <= g <= u32::MAX,
                ;
            }
            let threshold: u128 = mean as u128 * config.leak_growth_factor as u128 / 100;
            current as u128 > threshold && current > mean
        },
    }
}

/// A window still short of the configured baseline flags nothing, whatever
/// the sample.
pub proof fn lemma_silent_before_baseline(history: Seq<u64>, current: u64, config: BaselineConfig)
    requires
        history.len() < config.baseline_samples,
    ensures
        !spike_flagged(history, current, config),
        !leak_flagged(history, current, config),
{
}

/// A new window that has taken fewer pushes than the configured baseline
/// flags nothing, whatever was pushed and whatever the sample.
pub proof fn lemma_silent_while_warming_up(pushes: Seq<u64>, current: u64, config: BaselineConfig)
    requires
        pushes.len() < config.baseline_samples,
    ensures
        !spike_flagged(pushed_all(Seq::empty(), pushes), current, config),
        !leak_flagged(pushed_all(Seq::empty(), pushes), current, config),
{
    lemma_window_holds_most_recent(Seq::empty(), pushes);
}

/// A baseline at or below the floor flags no spike, however large the
/// sample.
pub proof fn lemma_idle_baseline_never_spikes(
    history: Seq<u64>,
    current: u64,
    config: BaselineConfig,
)
    requires
        total(history) <= config.spike_floor * history.len(),
    ensures
        !spike_flagged(history, current, config),
{
}

} // verus!
