use battery_control::estimation::{
    apply_corrections, compensate_temperature, compensate_with, coulomb_counting, estimate_soc,
    voltage_correction, voltage_curve, Battery,
};
use battery_control::soc_calculator::{
    SocCalculator, SocConfig, FULL_SOC, INITIAL_SOC, NOMINAL_CAPACITY, PERCENT,
    TEMPERATURE_COEFFICIENT,
};

const HOUR_MS: u32 = 3_600_000;

#[test]
fn discharge_for_one_hour_at_five_amperes() {
    let mut calc = SocCalculator::new(100 * PERCENT);
    calc.update_soc(-5_000, HOUR_MS);
    assert_eq!(calc.get_soc(), 95 * PERCENT);
}

#[test]
fn update_matches_coulomb_formula() {
    let mut calc = SocCalculator::new(50 * PERCENT);
    // 10 A for one minute into 100 Ah: 10 * (1/60) / 100 * 100 % = 1/6 %.
    calc.update_soc(10_000, 60_000);
    assert_eq!(calc.get_soc(), 50 * PERCENT + 166_666);
}

#[test]
fn update_rounds_toward_negative_infinity() {
    let mut calc = SocCalculator::new(50 * PERCENT);
    calc.update_soc(-1, 1);
    assert_eq!(calc.get_soc(), 50 * PERCENT - 1);
    calc.update_soc(1, 1);
    assert_eq!(calc.get_soc(), 50 * PERCENT - 1);
}

#[test]
fn update_clamps_at_both_ends() {
    let mut calc = SocCalculator::new(99 * PERCENT);
    calc.update_soc(10_000, HOUR_MS);
    assert_eq!(calc.get_soc(), FULL_SOC);
    let mut low = SocCalculator::new(PERCENT);
    low.update_soc(-10_000, HOUR_MS);
    assert_eq!(low.get_soc(), 0);
    low.update_soc(i64::MIN, u32::MAX);
    assert_eq!(low.get_soc(), 0);
}

#[test]
fn new_clamps_initial_soc() {
    assert_eq!(SocCalculator::new(150 * PERCENT).get_soc(), FULL_SOC);
    assert_eq!(SocCalculator::new(-PERCENT).get_soc(), 0);
    assert_eq!(SocCalculator::new(INITIAL_SOC).get_soc(), FULL_SOC);
}

#[test]
fn custom_config_is_kept() {
    let config = SocConfig {
        nominal_capacity: 50_000,
        min_soc: 10 * PERCENT,
        max_soc: 90 * PERCENT,
        temperature_coefficient: 20,
    };
    let mut calc = SocCalculator::with_config(config, 95 * PERCENT);
    assert_eq!(calc.get_soc(), 90 * PERCENT);
    // 5 A for one hour out of 50 Ah is 10 %.
    calc.update_soc(-5_000, HOUR_MS);
    assert_eq!(calc.get_soc(), 80 * PERCENT);
    calc.set_soc(0);
    assert_eq!(calc.get_soc(), 10 * PERCENT);
    assert_eq!(calc.config().nominal_capacity, 50_000);
    assert_eq!(SocConfig::reference().nominal_capacity, NOMINAL_CAPACITY);
}

#[test]
fn set_twice_equals_set_once() {
    let mut once = SocCalculator::new(20 * PERCENT);
    once.set_soc(70 * PERCENT);
    let mut twice = SocCalculator::new(20 * PERCENT);
    twice.set_soc(70 * PERCENT);
    twice.set_soc(70 * PERCENT);
    assert_eq!(once.get_soc(), twice.get_soc());
    assert_eq!(twice.get_soc(), 70 * PERCENT);
}

#[test]
fn soc_stays_in_range_over_mixed_calls() {
    let mut calc = SocCalculator::new(INITIAL_SOC);
    let steps: [(i64, u32, i64); 5] = [
        (-50_000, HOUR_MS, 300 * PERCENT),
        (80_000, HOUR_MS, -20 * PERCENT),
        (-1_000_000, HOUR_MS, 40 * PERCENT),
        (3, 7, i64::MAX),
        (i64::MAX, u32::MAX, i64::MIN),
    ];
    for (current, dt, value) in steps {
        calc.update_soc(current, dt);
        assert!(calc.get_soc() >= 0 && calc.get_soc() <= FULL_SOC);
        calc.set_soc(value);
        assert!(calc.get_soc() >= 0 && calc.get_soc() <= FULL_SOC);
    }
}

#[test]
fn voltage_correction_reference_points() {
    let mut calc = SocCalculator::new(50 * PERCENT);
    voltage_correction(&Battery::new(3_000, 0, 25_000), &mut calc);
    assert_eq!(calc.get_soc(), 0);
    voltage_correction(&Battery::new(4_200, 0, 25_000), &mut calc);
    assert_eq!(calc.get_soc(), FULL_SOC);
    voltage_correction(&Battery::new(3_600, 0, 25_000), &mut calc);
    assert_eq!(calc.get_soc(), 50 * PERCENT);
    voltage_correction(&Battery::new(3_001, 0, 25_000), &mut calc);
    assert_eq!(calc.get_soc(), 83_333);
}

#[test]
fn voltage_correction_clamps() {
    let mut calc = SocCalculator::new(50 * PERCENT);
    voltage_correction(&Battery::new(5_000, 0, 25_000), &mut calc);
    assert_eq!(calc.get_soc(), FULL_SOC);
    voltage_correction(&Battery::new(-7, 0, 25_000), &mut calc);
    assert_eq!(calc.get_soc(), 0);
}

#[test]
fn compensation_at_reference_temperature_is_identity() {
    assert_eq!(compensate_temperature(95 * PERCENT, 25_000), (95 * PERCENT) as i128);
}

#[test]
fn compensation_ten_degrees_warmer() {
    let expected = (95 * PERCENT + TEMPERATURE_COEFFICIENT * 10_000) as i128;
    assert_eq!(compensate_temperature(95 * PERCENT, 35_000), expected);
    assert_eq!(expected, (95 * PERCENT + PERCENT / 2) as i128);
}

#[test]
fn compensation_is_not_clamped() {
    assert_eq!(compensate_temperature(FULL_SOC, 45_000), (FULL_SOC + PERCENT) as i128);
    assert_eq!(compensate_temperature(0, 5_000), -(PERCENT as i128));
    assert_eq!(compensate_with(10, 24_000, 3), 10 - 3_000);
}

#[test]
fn coulomb_counting_updates_calculator() {
    let mut calc = SocCalculator::new(INITIAL_SOC);
    coulomb_counting(&mut calc, -5_000, HOUR_MS);
    assert_eq!(calc.get_soc(), 95 * PERCENT);
}

#[test]
fn estimate_soc_syncs_battery() {
    let mut battery = Battery::new(4_200, -5_000, 25_000);
    let mut calc = SocCalculator::new(INITIAL_SOC);
    estimate_soc(&mut battery, &mut calc, HOUR_MS);
    assert_eq!(calc.get_soc(), 95 * PERCENT);
    assert_eq!(battery.soc, 95 * PERCENT);
    assert_eq!(battery.voltage, 4_200);
    assert_eq!(battery.current, -5_000);
    assert_eq!(battery.temperature, 25_000);
}

#[test]
fn corrections_keep_voltage_value() {
    let mut battery = Battery::new(3_600, -5_000, 35_000);
    battery.soc = 95 * PERCENT;
    let mut calc = SocCalculator::new(95 * PERCENT);
    let compensated = apply_corrections(&mut battery, &mut calc);
    assert_eq!(compensated, 95 * PERCENT + PERCENT / 2);
    assert_eq!(calc.get_soc(), 50 * PERCENT);
    assert_eq!(battery.soc, 50 * PERCENT);
}

#[test]
fn corrections_clamp_compensated_value() {
    let mut battery = Battery::new(4_200, 0, 45_000);
    let mut calc = SocCalculator::new(INITIAL_SOC);
    assert_eq!(apply_corrections(&mut battery, &mut calc), FULL_SOC);
    assert_eq!(battery.soc, FULL_SOC);
}

#[test]
fn voltage_curve_breakpoints() {
    assert_eq!(voltage_curve(0), 3_000);
    assert_eq!(voltage_curve(25 * PERCENT), 3_400);
    assert_eq!(voltage_curve(50 * PERCENT), 3_700);
    assert_eq!(voltage_curve(75 * PERCENT), 4_000);
    assert_eq!(voltage_curve(FULL_SOC), 4_200);
    assert_eq!(voltage_curve(12 * PERCENT + PERCENT / 2), 3_200);
    assert_eq!(voltage_curve(90 * PERCENT), 4_120);
}

#[test]
fn voltage_curve_outside_range() {
    assert_eq!(voltage_curve(-1), 3_000);
    assert_eq!(voltage_curve(FULL_SOC + 1), 3_000);
}

#[test]
fn battery_new_starts_full() {
    let b = Battery::new(4_200, -5_000, 25_000);
    assert_eq!(b.soc, INITIAL_SOC);
    assert_eq!(b.voltage, 4_200);
}
