use irrigation::config::{ConfigError, CycleSchedule, DoseConfig, Thresholds, SENSORS_ON_MS};

#[test]
fn pump_time_is_truncated() {
    // 0.0475 ml per ms, written as 475 ml per 10 s.
    let ml_per_ms: f32 = 0.0475;
    let dose = DoseConfig { water_to_plant_ml: 300, flow_ml: 475, flow_ms: 10_000 };
    assert!((dose.flow_ml as f32 / dose.flow_ms as f32 - ml_per_ms).abs() < 1e-6);
    assert_eq!(dose.pump_on_duration_ms(), Ok(6315));
    assert_eq!(DoseConfig::standard().pump_on_duration_ms(), Ok(6315));
}

#[test]
fn schedule_of_standard_dose() {
    let dose = DoseConfig { water_to_plant_ml: 300, flow_ml: 475, flow_ms: 10_000 };
    let s = CycleSchedule::new(&dose, 3000).unwrap();
    assert_eq!(s.sensors_on_duration_ms, 3000);
    assert_eq!(s.pump_on_duration_ms, 6315);
    assert_eq!(s.next_check_delay_ms, 86_396_685);
    assert_eq!(s.next_check_minutes, 1439);
    assert_eq!(s.next_check_remainder_ms, 56685);
}

#[test]
fn pump_equal_to_sensing_waits_a_full_day() {
    let dose = DoseConfig { water_to_plant_ml: 3, flow_ml: 1, flow_ms: 1000 };
    let s = CycleSchedule::new(&dose, SENSORS_ON_MS).unwrap();
    assert_eq!(s.pump_on_duration_ms, 3000);
    assert_eq!(s.next_check_delay_ms, 86_400_000);
    assert_eq!(s.next_check_minutes, 1440);
    assert_eq!(s.next_check_remainder_ms, 0);
}

#[test]
fn zero_flow_rate_is_refused() {
    let dose = DoseConfig { water_to_plant_ml: 300, flow_ml: 0, flow_ms: 20_000 };
    assert_eq!(dose.pump_on_duration_ms(), Err(ConfigError::ZeroFlowRate));
    assert_eq!(CycleSchedule::new(&dose, 3000), Err(ConfigError::ZeroFlowRate));
    let dose = DoseConfig { water_to_plant_ml: 300, flow_ml: 950, flow_ms: 0 };
    assert_eq!(CycleSchedule::new(&dose, 3000), Err(ConfigError::ZeroFlowRate));
}

#[test]
fn short_pump_is_refused() {
    // 100 ml at 950 ml per 20 s takes 2105 ms, less than the sensing time.
    let dose = DoseConfig { water_to_plant_ml: 100, flow_ml: 950, flow_ms: 20_000 };
    assert_eq!(dose.pump_on_duration_ms(), Ok(2105));
    assert_eq!(CycleSchedule::new(&dose, 3000), Err(ConfigError::PumpShorterThanSensing));
}

#[test]
fn pumping_longer_than_a_day_is_refused() {
    let dose = DoseConfig { water_to_plant_ml: 100_000, flow_ml: 1, flow_ms: 1000 };
    assert_eq!(CycleSchedule::new(&dose, 3000), Err(ConfigError::CycleTooLong));
    let dose = DoseConfig { water_to_plant_ml: u32::MAX, flow_ml: 1, flow_ms: u32::MAX };
    assert_eq!(dose.pump_on_duration_ms(), Ok(u32::MAX as u64 * u32::MAX as u64));
    assert_eq!(CycleSchedule::new(&dose, 3000), Err(ConfigError::CycleTooLong));
}

#[test]
fn thresholds_must_be_ordered() {
    assert_eq!(Thresholds::new(100, 500, 500), Err(ConfigError::ThresholdOrder));
    assert_eq!(Thresholds::new(100, 600, 500), Err(ConfigError::ThresholdOrder));
    let t = Thresholds::new(100, 20, 500).unwrap();
    assert_eq!(t, Thresholds::default());
    assert_eq!(t.water_sensor_limit, 100);
    assert_eq!(t.moisture_sensor_lower_limit, 20);
    assert_eq!(t.moisture_sensor_dry_soil_limit, 500);
}
