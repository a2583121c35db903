//! The state-of-charge estimator: a Coulomb-counting integrator whose value
//! is always kept within the configured SoC limits.

use crate::fixed::{clamp, clamp_wide, floor_div};
use vstd::prelude::*;

verus! {

/// One percent of charge, in SoC units (millionths of a percent).
pub const PERCENT: i64 = 1_000_000;

/// A full pack, in SoC units.
pub const FULL_SOC: i64 = 100_000_000;

/// Milliseconds in one hour.
pub const MS_PER_HOUR: i64 = 3_600_000;

/// Nominal capacity of the reference pack: 100 Ah.
pub const NOMINAL_CAPACITY: u64 = 100_000;

/// State of charge a pack starts with: fully charged.
pub const INITIAL_SOC: i64 = FULL_SOC;

/// Lowest state of charge of the reference configuration.
pub const MIN_SOC: i64 = 0;

/// Highest state of charge of the reference configuration.
pub const MAX_SOC: i64 = FULL_SOC;

/// Temperature coefficient of the reference configuration: 0.05 % per
/// degree Celsius, in SoC units per thousandth of a degree.
pub const TEMPERATURE_COEFFICIENT: i64 = 50;

/// Pack-level settings, fixed for the life of an estimator.
#[derive(Clone, Copy, Debug)]
pub struct SocConfig {
    /// Nominal capacity in milliampere-hours.
    pub nominal_capacity: u64,
    /// Lowest state of charge the estimator reports.
    pub min_soc: i64,
    /// Highest state of charge the estimator reports.
    pub max_soc: i64,
    /// SoC units added per thousandth of a degree above the reference
    /// temperature.
    pub temperature_coefficient: i64,
}

/// The settings of the reference pack.
pub open spec fn reference_config() -> SocConfig {
    SocConfig {
        nominal_capacity: NOMINAL_CAPACITY,
        min_soc: MIN_SOC,
        max_soc: MAX_SOC,
        temperature_coefficient: TEMPERATURE_COEFFICIENT,
    }
}

impl SocConfig {
    /// A usable configuration: a positive capacity and a non-empty SoC range.
    pub open spec fn wf(&self) -> bool {
        self.nominal_capacity > 0 && self.min_soc <= self.max_soc
    }

    /// The settings of the reference pack.
    pub fn reference() -> (r: SocConfig)
        ensures
            r == reference_config(),
            r.wf(),
    {
        SocConfig {
            nominal_capacity: NOMINAL_CAPACITY,
            min_soc: MIN_SOC,
            max_soc: MAX_SOC,
            temperature_coefficient: TEMPERATURE_COEFFICIENT,
        }
    }
}

/// Change of charge, in SoC units, when `current` mA flows for `delta_time`
/// ms into a pack of `capacity` mAh: `current * delta_time / capacity * 100 %`,
/// rounded toward negative infinity.
pub open spec fn coulomb_delta(current: int, delta_time: int, capacity: int) -> int {
    (current * delta_time * FULL_SOC) / (capacity * MS_PER_HOUR)
}

/// What an estimator holds: its settings and its current state of charge.
pub struct SocState {
    pub config: SocConfig,
    pub soc: int,
}

impl SocState {
    /// The settings are usable and the charge lies within their limits.
    pub open spec fn wf(&self) -> bool {
        &&& self.config.wf()
        &&& self.config.min_soc <= self.soc <= self.config.max_soc
    }
}

/// `x` limited to the SoC range of `config`.
pub open spec fn clamp_soc(config: SocConfig, x: int) -> int {
    clamp(x, config.min_soc as int, config.max_soc as int)
}

/// The state after a Coulomb-counting step.
pub open spec fn after_update(s: SocState, current: int, delta_time: int) -> SocState {
    SocState {
        config: s.config,
        soc: clamp_soc(
            s.config,
            s.soc + coulomb_delta(current, delta_time, s.config.nominal_capacity as int),
        ),
    }
}

/// The state after the charge is overwritten with `x`.
pub open spec fn after_set(s: SocState, x: int) -> SocState {
    SocState { config: s.config, soc: clamp_soc(s.config, x) }
}

/// Estimates the state of charge of one pack.
///
/// Inputs are integers, so the infinities and NaNs that a floating-point
/// estimator would let through cannot arise; a zero capacity is ruled out by
/// the configuration's well-formedness.
pub struct SocCalculator {
    config: SocConfig,
    current_soc: i64,
}

impl View for SocCalculator {
    type V = SocState;

    closed spec fn view(&self) -> SocState {
        SocState { config: self.config, soc: self.current_soc as int }
    }
}

impl SocCalculator {
    /// An estimator for the reference pack, starting at `initial_soc`
    /// limited to the SoC range.
    pub fn new(initial_soc: i64) -> (r: SocCalculator)
        ensures
            r@.wf(),
            r@.config == reference_config(),
            r@.soc == clamp_soc(reference_config(), initial_soc as int),
    {
        SocCalculator::with_config(SocConfig::reference(), initial_soc)
    }

    /// An estimator with the given settings, starting at `initial_soc`
    /// limited to the SoC range.
    pub fn with_config(config: SocConfig, initial_soc: i64) -> (r: SocCalculator)
        requires
            config.wf(),
        ensures
            r@.wf(),
            r@.config == config,
            r@.soc == clamp_soc(config, initial_soc as int),
    {
        SocCalculator {
            config,
            current_soc: clamp_wide(initial_soc as i128, config.min_soc, config.max_soc),
        }
    }

    /// Coulomb counting: adds the charge carried by `current` mA over
    /// `delta_time` ms, then limits the result to the SoC range.
    pub fn update_soc(&mut self, current: i64, delta_time: u32)
        requires
            old(self)@.wf(),
        ensures
            final(self)@.wf(),
            final(self)@ == after_update(old(self)@, current as int, delta_time as int),
    {
        let c: i128 = current as i128;
        let t: i128 = delta_time as i128;
        assert(-0x8000_0000_0000_0000_0000_0000 <= c * t <= 0x8000_0000_0000_0000_0000_0000)
            by (nonlinear_arith)
            requires
                -0x8000_0000_0000_0000 <= c <= 0x8000_0000_0000_0000,
                0 <= t <= 0x1_0000_0000,
        ;
        let charge: i128 = c * t;
        assert(-0x1000_0000_0000_0000_0000_0000_0000_0000 <= charge * 100_000_000
            <= 0x1000_0000_0000_0000_0000_0000_0000_0000) by (nonlinear_arith)
            requires
                -0x8000_0000_0000_0000_0000_0000 <= charge <= 0x8000_0000_0000_0000_0000_0000,
        ;
        let numerator: i128 = charge * FULL_SOC as i128;
        let cap: i128 = self.config.nominal_capacity as i128;
        assert(0 < cap * 3_600_000 <= 0x1_0000_0000_0000_0000_0000_0000) by (nonlinear_arith)
            requires
                0 < cap <= 0x1_0000_0000_0000_0000,
        ;
        let denominator: i128 = cap * MS_PER_HOUR as i128;
        let delta: i128 = floor_div(numerator, denominator);
        assert(-numerator <= delta <= numerator || numerator <= delta <= -numerator) by {
            lemma_div_bounded(numerator as int, denominator as int);
        }
        self.current_soc = clamp_wide(
            self.current_soc as i128 + delta,
            self.config.min_soc,
            self.config.max_soc,
        );
    }

    /// Overwrites the charge with `soc` limited to the SoC range.
    pub fn set_soc(&mut self, soc: i64)
        requires
            old(self)@.wf(),
        ensures
            final(self)@.wf(),
            final(self)@ == after_set(old(self)@, soc as int),
    {
        self.current_soc = clamp_wide(soc as i128, self.config.min_soc, self.config.max_soc);
    }

    /// The current state of charge.
    pub fn get_soc(&self) -> (r: i64)
        ensures
            r == self@.soc,
    {
        self.current_soc
    }

    /// The settings this estimator was built with.
    pub fn config(&self) -> (r: SocConfig)
        ensures
            r == self@.config,
    {
        self.config
    }
}

/// One operation on an estimator.
pub enum SocOp {
    /// Coulomb counting of `current` mA over `delta_time` ms.
    Update { current: int, delta_time: int },
    /// Overwrite with `value`.
    Overwrite { value: int },
}

/// The state after applying `ops` in order to `s`.
pub open spec fn apply_ops(s: SocState, ops: Seq<SocOp>) -> SocState
    decreases ops.len(),
{
    if ops.len() == 0 {
        s
    } else {
        let next = match ops[0] {
            SocOp::Update { current, delta_time } => after_update(s, current, delta_time),
            SocOp::Overwrite { value } => after_set(s, value),
        };
        apply_ops(next, ops.skip(1))
    }
}

/// Overwriting the charge twice with the same value leaves the estimator
/// as overwriting it once does.
pub proof fn lemma_set_idempotent(s: SocState, x: int)
    ensures
        after_set(after_set(s, x), x) == after_set(s, x),
{
}

/// After any sequence of updates and overwrites, an estimator whose limits
/// lie within 0 % and 100 % reports a charge between 0 % and 100 %.
pub proof fn lemma_soc_stays_in_range(s: SocState, ops: Seq<SocOp>)
    requires
        s.wf(),
        0 <= s.config.min_soc,
        s.config.max_soc <= FULL_SOC,
    ensures
        apply_ops(s, ops).wf(),
        apply_ops(s, ops).config == s.config,
        0 <= apply_ops(s, ops).soc <= FULL_SOC,
    decreases ops.len(),
{
    if ops.len() > 0 {
        let next = match ops[0] {
            SocOp::Update { current, delta_time } => after_update(s, current, delta_time),
            SocOp::Overwrite { value } => after_set(s, value),
        };
        lemma_soc_stays_in_range(next, ops.skip(1));
    }
}

/// A quotient by a positive divisor is no larger in magnitude than the
/// dividend.
proof fn lemma_div_bounded(n: int, d: int)
    requires
        d > 0,
    ensures
        n >= 0 ==> 0 <= n / d <= n,
        n < 0 ==> n <= n / d <= 0,
{
    vstd::arithmetic::div_mod::lemma_fundamental_div_mod(n, d);
    let q = n / d;
    let r = n % d;
    assert(n >= 0 ==> 0 <= q <= n) by (nonlinear_arith)
        requires
            n == d * q + r,
            0 <= r < d,
            d > 0,
    ;
    assert(n < 0 ==> n <= q <= 0) by (nonlinear_arith)
        requires
            n == d * q + r,
            0 <= r < d,
            d > 0,
    ;
}

} // verus!
