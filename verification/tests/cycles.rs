use cubesat_telemetry::freshness::{file_age, plan_cycle, CycleStep};
use cubesat_telemetry::state::{Status, SystemInfo, Telemetry};

fn lines(v: &[&str]) -> Vec<String> {
    v.iter().map(|s| s.to_string()).collect()
}

#[test]
fn file_age_is_saturating_and_fail_open() {
    assert_eq!(file_age(1000, Some(879)), 121);
    assert_eq!(file_age(1000, Some(880)), 120);
    assert_eq!(file_age(1000, Some(1000)), 0);
    assert_eq!(file_age(1000, Some(2000)), 0);
    assert_eq!(file_age(1000, None), 1);
}

#[test]
fn plan_is_stale_beyond_threshold_only() {
    assert_eq!(plan_cycle(true, 1000, Some(879)), CycleStep::ReportStale);
    assert_eq!(plan_cycle(true, 1000, Some(880)), CycleStep::ReadFile);
    assert_eq!(plan_cycle(true, 1000, None), CycleStep::ReadFile);
    assert_eq!(plan_cycle(true, 1000, Some(2000)), CycleStep::ReadFile);
}

#[test]
fn missing_file_is_reported_every_cycle() {
    assert_eq!(plan_cycle(false, 1000, Some(999)), CycleStep::ReportNoFile);
    assert_eq!(plan_cycle(false, 0, None), CycleStep::ReportNoFile);
}

#[test]
fn initial_state_is_zeroed() {
    let t = Telemetry::new();
    assert_eq!(t.status, Status::Unknown);
    assert_eq!(t.status.label(), "");
    assert!(t.timestamp.is_none());
    assert_eq!(t.ms5611.temp, "0");
    assert_eq!(t.ms5611.pressure, "0");
    assert_eq!(t.ms5611.altitude, "0");
    assert_eq!(t.mpu6050.gx, "0");
    assert_eq!(t.tmp, "0");
    assert_eq!(t.system, SystemInfo { cpu_bits: 0, gpu_temp_bits: 0 });
}

#[test]
fn status_labels() {
    assert_eq!(Status::Live.label(), "live");
    assert_eq!(Status::Stale.label(), "stale");
    assert_eq!(Status::NoFile.label(), "no_file");
}

#[test]
fn live_cycle_merges_latest_readings() {
    let mut t = Telemetry::new();
    t.apply_system(SystemInfo { cpu_bits: 7, gpu_temp_bits: 9 });
    let ls = lines(&[
        "MS5611 21.0 1001.2 305.0",
        "MPU6050 0.1 0.2 0.3 9.8 0.0 0.1",
        "MS5611 22.5 1000.0 310.0",
    ]);
    t.apply_lines(&ls, "ts1".to_string());
    assert_eq!(t.status, Status::Live);
    assert_eq!(t.timestamp.as_deref(), Some("ts1"));
    assert_eq!(t.ms5611.temp, "22.5");
    assert_eq!(t.ms5611.pressure, "1000.0");
    assert_eq!(t.ms5611.altitude, "310.0");
    assert_eq!(t.mpu6050.ax, "9.8");
    assert_eq!(t.tmp, "0");
    assert_eq!(t.system, SystemInfo { cpu_bits: 7, gpu_temp_bits: 9 });
}

#[test]
fn cycle_without_a_kind_retains_previous_reading() {
    let mut t = Telemetry::new();
    t.apply_lines(&lines(&["MS5611 21.0 1001.2 305.0"]), "ts1".to_string());
    t.apply_lines(&lines(&["TMP 18.25"]), "ts2".to_string());
    assert_eq!(t.status, Status::Live);
    assert_eq!(t.timestamp.as_deref(), Some("ts2"));
    assert_eq!(t.ms5611.temp, "21.0");
    assert_eq!(t.tmp, "18.25");
}

#[test]
fn parse_failure_for_a_kind_never_clears_it() {
    let mut t = Telemetry::new();
    t.apply_lines(
        &lines(&["MPU6050 0.1 0.2 0.3 9.8 0.0 0.1"]),
        "ts1".to_string(),
    );
    t.apply_lines(&lines(&["MPU6050 bad data"]), "ts2".to_string());
    assert_eq!(t.mpu6050.gx, "0.1");
    assert_eq!(t.mpu6050.az, "0.1");
    assert_eq!(t.timestamp.as_deref(), Some("ts2"));
}

#[test]
fn stale_cycle_keeps_sensor_fields_unchanged() {
    let mut t = Telemetry::new();
    t.apply_lines(&lines(&["MS5611 21.0 1001.2 305.0"]), "ts1".to_string());
    assert_eq!(plan_cycle(true, 1000, Some(879)), CycleStep::ReportStale);
    t.apply_stale("ts2".to_string());
    assert_eq!(t.status, Status::Stale);
    assert_eq!(t.timestamp.as_deref(), Some("ts2"));
    assert_eq!(t.ms5611.temp, "21.0");
    assert_eq!(t.ms5611.pressure, "1001.2");
    assert_eq!(t.ms5611.altitude, "305.0");
}

#[test]
fn no_file_cycle_keeps_sensor_fields_unchanged() {
    let mut t = Telemetry::new();
    t.apply_lines(&lines(&["TMP 18.25"]), "ts1".to_string());
    t.apply_no_file("ts2".to_string());
    assert_eq!(t.status, Status::NoFile);
    assert_eq!(t.timestamp.as_deref(), Some("ts2"));
    assert_eq!(t.tmp, "18.25");
}

#[test]
fn system_sample_is_replaced_every_cycle() {
    let mut t = Telemetry::new();
    t.apply_system(SystemInfo { cpu_bits: 1, gpu_temp_bits: 2 });
    t.apply_no_file("ts".to_string());
    t.apply_system(SystemInfo { cpu_bits: 3, gpu_temp_bits: 4 });
    assert_eq!(t.system, SystemInfo { cpu_bits: 3, gpu_temp_bits: 4 });
    assert_eq!(t.status, Status::NoFile);
}
