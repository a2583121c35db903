//! The per-tick estimation pipeline: Coulomb counting, temperature
//! compensation and open-circuit-voltage correction.

use crate::fixed::{clamp_wide, floor_div};
use crate::soc_calculator::{
    after_set, after_update, clamp_soc, SocCalculator, SocState, FULL_SOC, INITIAL_SOC,
    TEMPERATURE_COEFFICIENT,
};
use vstd::prelude::*;

verus! {

/// Voltage of an empty pack on the linear open-circuit-voltage mapping (mV).
pub const OCV_OFFSET: i64 = 3_000;

/// Voltage gained from empty to full on the linear mapping (mV).
pub const OCV_SPAN: i64 = 1_200;

/// Temperature at which no compensation applies: 25 °C.
pub const REFERENCE_TEMPERATURE: i64 = 25_000;

/// The latest readings of one pack.
#[derive(Clone, Copy, Debug)]
pub struct Battery {
    /// Voltage in millivolts.
    pub voltage: i64,
    /// Current in milliamperes; negative while discharging.
    pub current: i64,
    /// Temperature in thousandths of a degree Celsius.
    pub temperature: i64,
    /// Cached state of charge, in SoC units.
    pub soc: i64,
}

impl Battery {
    /// A pack with the given readings, fully charged.
    pub fn new(voltage: i64, current: i64, temperature: i64) -> (r: Battery)
        ensures
            r.voltage == voltage,
            r.current == current,
            r.temperature == temperature,
            r.soc == INITIAL_SOC,
    {
        Battery { voltage, current, temperature, soc: INITIAL_SOC }
    }
}

/// State of charge that the linear placeholder mapping gives for `voltage`
/// mV, before limiting: `(voltage - 3.0 V) / 1.2 V * 100 %`, rounded toward
/// negative infinity.
pub open spec fn ocv_soc(voltage: int) -> int {
    ((voltage - OCV_OFFSET) * FULL_SOC) / (OCV_SPAN as int)
}

/// `soc` adjusted for a deviation of `temperature` from the reference
/// temperature, with `coefficient` SoC units per thousandth of a degree.
pub open spec fn compensated(soc: int, temperature: int, coefficient: int) -> int {
    soc + coefficient * (temperature - REFERENCE_TEMPERATURE)
}

/// Open-circuit voltage (mV) of the piecewise-linear placeholder curve at
/// `soc`; 3.0 V outside the range from empty to full.
pub open spec fn curve_voltage(soc: int) -> int {
    let quarter = FULL_SOC / 4;
    if 0 <= soc <= quarter {
        3_000 + soc * 400 / quarter
    } else if quarter < soc <= 2 * quarter {
        3_400 + (soc - quarter) * 300 / quarter
    } else if 2 * quarter < soc <= 3 * quarter {
        3_700 + (soc - 2 * quarter) * 300 / quarter
    } else if 3 * quarter < soc <= FULL_SOC {
        4_000 + (soc - 3 * quarter) * 200 / quarter
    } else {
        3_000
    }
}

/// Voltage correction depends on the voltage alone: two estimators with the
/// same settings end a correction at the same state, whatever each held
/// before, and in particular a tick ends at the voltage-derived value
/// whatever the Coulomb count gave.
pub proof fn lemma_correction_depends_on_voltage_only(
    s1: SocState,
    s2: SocState,
    current: int,
    delta_time: int,
    voltage: int,
)
    requires
        s1.config == s2.config,
    ensures
        after_set(s1, ocv_soc(voltage)) == after_set(s2, ocv_soc(voltage)),
        after_set(after_update(s1, current, delta_time), ocv_soc(voltage)) == after_set(
            s1,
            ocv_soc(voltage),
        ),
        after_set(s1, ocv_soc(voltage)).soc == clamp_soc(s1.config, ocv_soc(voltage)),
{
}

/// Coulomb counting on `calculator` for `current` mA over `delta_time` ms.
pub fn coulomb_counting(calculator: &mut SocCalculator, current: i64, delta_time: u32)
    requires
        old(calculator)@.wf(),
    ensures
        final(calculator)@.wf(),
        final(calculator)@ == after_update(old(calculator)@, current as int, delta_time as int),
{
    calculator.update_soc(current, delta_time);
}

/// Counts the battery's current over `delta_time` ms, then copies the new
/// estimate into the battery's cached state of charge.
pub fn estimate_soc(battery: &mut Battery, calculator: &mut SocCalculator, delta_time: u32)
    requires
        old(calculator)@.wf(),
    ensures
        final(calculator)@.wf(),
        final(calculator)@ == after_update(
            old(calculator)@,
            old(battery).current as int,
            delta_time as int,
        ),
        *final(battery) == (Battery { soc: final(calculator)@.soc as i64, ..*old(battery) }),
{
    coulomb_counting(calculator, battery.current, delta_time);
    battery.soc = calculator.get_soc();
}

/// Overwrites the estimate with the state of charge read off the battery's
/// voltage by the linear placeholder mapping, limited to the SoC range.
///
/// A real open-circuit-voltage curve, keyed by chemistry and temperature,
/// replaces this function as a whole.
pub fn voltage_correction(battery: &Battery, calculator: &mut SocCalculator)
    requires
        old(calculator)@.wf(),
    ensures
        final(calculator)@.wf(),
        final(calculator)@ == after_set(old(calculator)@, ocv_soc(battery.voltage as int)),
{
    let config = calculator.config();
    let above_empty: i128 = battery.voltage as i128 - OCV_OFFSET as i128;
    assert(-0x1000_0000_0000_0000_0000_0000_0000 <= above_empty * 100_000_000
        <= 0x1000_0000_0000_0000_0000_0000_0000) by (nonlinear_arith)
        requires
            -0x8000_0000_0000_1000 <= above_empty <= 0x8000_0000_0000_0000,
    ;
    let soc_from_voltage: i128 = floor_div(above_empty * FULL_SOC as i128, OCV_SPAN as i128);
    let soc_clamped: i64 = clamp_wide(soc_from_voltage, config.min_soc, config.max_soc);
    calculator.set_soc(soc_clamped);
}

/// `soc` compensated for `temperature` with the reference coefficient; the
/// result is not limited to the SoC range.
pub fn compensate_temperature(soc: i64, temperature: i64) -> (r: i128)
    ensures
        r == compensated(soc as int, temperature as int, TEMPERATURE_COEFFICIENT as int),
{
    compensate_with(soc, temperature, TEMPERATURE_COEFFICIENT)
}

/// `soc` compensated for `temperature` with `coefficient` SoC units per
/// thousandth of a degree; the result is not limited to the SoC range.
pub fn compensate_with(soc: i64, temperature: i64, coefficient: i64) -> (r: i128)
    ensures
        r == compensated(soc as int, temperature as int, coefficient as int),
{
    let deviation: i128 = temperature as i128 - REFERENCE_TEMPERATURE as i128;
    let k: i128 = coefficient as i128;
    assert(-0x7000_0000_0000_0000_0000_0000_0000_0000 <= k * deviation
        <= 0x7000_0000_0000_0000_0000_0000_0000_0000) by (nonlinear_arith)
        requires
            -0x8000_0000_0000_0000 <= k <= 0x8000_0000_0000_0000,
            -0x8000_0000_0000_0000 - 25_000 <= deviation <= 0x8000_0000_0000_0000,
    ;
    soc as i128 + k * deviation
}

/// Steps after the voltage is refreshed: compensates the cached state of
/// charge for temperature and stores it limited to the SoC range, then
/// overwrites the estimate by voltage correction and caches that.
///
/// The compensated value is returned, but the voltage correction replaces
/// it as the battery's final state of charge for the tick; whether the
/// compensation should survive the tick is left open.
pub fn apply_corrections(battery: &mut Battery, calculator: &mut SocCalculator) -> (r: i64)
    requires
        old(calculator)@.wf(),
    ensures
        r == clamp_soc(
            old(calculator)@.config,
            compensated(
                old(battery).soc as int,
                old(battery).temperature as int,
                old(calculator)@.config.temperature_coefficient as int,
            ),
        ),
        final(calculator)@.wf(),
        final(calculator)@ == after_set(old(calculator)@, ocv_soc(old(battery).voltage as int)),
        *final(battery) == (Battery { soc: final(calculator)@.soc as i64, ..*old(battery) }),
{
    let config = calculator.config();
    let compensated_soc = compensate_with(
        battery.soc,
        battery.temperature,
        config.temperature_coefficient,
    );
    battery.soc = clamp_wide(compensated_soc, config.min_soc, config.max_soc);
    let compensated_clamped = battery.soc;
    voltage_correction(battery, calculator);
    battery.soc = calculator.get_soc();
    compensated_clamped
}

/// Open-circuit voltage (mV) at `soc` on the piecewise-linear placeholder
/// curve: 3.0 V at empty, 3.4 V at a quarter, 3.7 V at half, 4.0 V at three
/// quarters and 4.2 V at full; 3.0 V outside that range.
pub fn voltage_curve(soc: i64) -> (r: i64)
    ensures
        r == curve_voltage(soc as int),
{
    let quarter: i64 = FULL_SOC / 4;
    if 0 <= soc && soc <= quarter {
        3_000 + soc * 400 / quarter
    } else if quarter < soc && soc <= 2 * quarter {
        3_400 + (soc - quarter) * 300 / quarter
    } else if 2 * quarter < soc && soc <= 3 * quarter {
        3_700 + (soc - 2 * quarter) * 300 / quarter
    } else if 3 * quarter < soc && soc <= FULL_SOC {
        4_000 + (soc - 3 * quarter) * 200 / quarter
    } else {
        3_000
    }
}

} // verus!
