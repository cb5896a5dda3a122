use cubesat_telemetry::parse::parse_telem_line;

#[test]
fn ms5611_exact_three_values() {
    let (ms, mpu, tmp) = parse_telem_line("MS5611 21.0 1001.2 305.0");
    let m = ms.expect("pressure reading");
    assert_eq!(m.temp, "21.0");
    assert_eq!(m.pressure, "1001.2");
    assert_eq!(m.altitude, "305.0");
    assert!(mpu.is_none());
    assert!(tmp.is_none());
}

#[test]
fn ms5611_prefix_marker_token() {
    let (ms, _, _) = parse_telem_line("MS5611_A 21.0 1001.2 305.0");
    let m = ms.expect("pressure reading");
    assert_eq!(m.temp, "21.0");
    assert_eq!(m.pressure, "1001.2");
    assert_eq!(m.altitude, "305.0");
}

#[test]
fn ms5611_comma_separated() {
    let (ms, _, _) = parse_telem_line("MS5611,21.0,1001.2,305.0");
    let m = ms.expect("pressure reading");
    assert_eq!(m.temp, "21.0");
    assert_eq!(m.pressure, "1001.2");
    assert_eq!(m.altitude, "305.0");
}

#[test]
fn ms5611_fallback_uses_tmp_and_standard_pressure() {
    let (ms, _, tmp) = parse_telem_line("TMP 19.5 MS5611");
    let m = ms.expect("fallback reading");
    assert_eq!(m.temp, "19.5");
    assert_eq!(m.pressure, "1013.25");
    assert_eq!(m.altitude, "0");
    assert_eq!(tmp.as_deref(), Some("19.5"));
}

#[test]
fn ms5611_fallback_without_tmp_is_zero() {
    let (ms, _, tmp) = parse_telem_line("MS5611 21.5");
    let m = ms.expect("fallback reading");
    assert_eq!(m.temp, "0");
    assert_eq!(m.pressure, "1013.25");
    assert_eq!(m.altitude, "0");
    assert!(tmp.is_none());
}

#[test]
fn ms5611_fallback_takes_gps_altitude() {
    let (ms, _, _) = parse_telem_line("GPS 51.5 -0.1 300.5 MS5611 1.0");
    let m = ms.expect("fallback reading");
    assert_eq!(m.temp, "0");
    assert_eq!(m.pressure, "1013.25");
    assert_eq!(m.altitude, "300.5");
}

#[test]
fn ms5611_with_invalid_fields_is_absent() {
    let (ms, _, _) = parse_telem_line("MS5611 a b c");
    assert!(ms.is_none());
}

#[test]
fn mpu6050_full_reading() {
    let (_, mpu, _) = parse_telem_line("MPU6050 0.1 0.2 0.3 9.8 0.0 0.1");
    let m = mpu.expect("inertial reading");
    assert_eq!(m.gx, "0.1");
    assert_eq!(m.gy, "0.2");
    assert_eq!(m.gz, "0.3");
    assert_eq!(m.ax, "9.8");
    assert_eq!(m.ay, "0.0");
    assert_eq!(m.az, "0.1");
}

#[test]
fn mpu6050_with_fewer_than_six_tokens_is_absent() {
    let (_, mpu, _) = parse_telem_line("MPU6050 0.1 0.2 0.3");
    assert!(mpu.is_none());
}

#[test]
fn mpu6050_with_invalid_token_is_absent() {
    let (_, mpu, _) = parse_telem_line("MPU6050 0.1 0.2 0.3 x 0.0 0.1");
    assert!(mpu.is_none());
}

#[test]
fn decorated_markers_match_by_prefix() {
    let (_, _, tmp) = parse_telem_line("TMPx 5");
    assert_eq!(tmp.as_deref(), Some("5"));
    let (_, mpu, _) = parse_telem_line("MPU6050_R 0.1 0.2 0.3 9.8 0.0 0.1");
    let m = mpu.expect("inertial reading");
    assert_eq!(m.gx, "0.1");
    assert_eq!(m.az, "0.1");
    let (ms, _, _) = parse_telem_line("GPSFIX 51.5 -0.1 300.5 MS5611 1.0");
    assert_eq!(ms.expect("fallback reading").altitude, "300.5");
}

#[test]
fn tmp_without_numeric_value_is_absent() {
    let (_, _, tmp) = parse_telem_line("TMP abc");
    assert!(tmp.is_none());
    let (_, _, tmp2) = parse_telem_line("TMP");
    assert!(tmp2.is_none());
}

#[test]
fn empty_line_yields_nothing() {
    let (ms, mpu, tmp) = parse_telem_line("");
    assert!(ms.is_none());
    assert!(mpu.is_none());
    assert!(tmp.is_none());
}

#[test]
fn parser_is_idempotent() {
    let line = "TMP 19.5 MS5611 21.0 1001.2 305.0 MPU6050 0.1 0.2 0.3 9.8 0.0 0.1";
    let (a_ms, a_mpu, a_tmp) = parse_telem_line(line);
    let (b_ms, b_mpu, b_tmp) = parse_telem_line(line);
    let am = a_ms.expect("first pressure");
    let bm = b_ms.expect("second pressure");
    assert_eq!(am.temp, bm.temp);
    assert_eq!(am.pressure, bm.pressure);
    assert_eq!(am.altitude, bm.altitude);
    let ai = a_mpu.expect("first inertial");
    let bi = b_mpu.expect("second inertial");
    assert_eq!(ai.gx, bi.gx);
    assert_eq!(ai.gy, bi.gy);
    assert_eq!(ai.gz, bi.gz);
    assert_eq!(ai.ax, bi.ax);
    assert_eq!(ai.ay, bi.ay);
    assert_eq!(ai.az, bi.az);
    assert_eq!(a_tmp, b_tmp);
}

#[test]
fn marker_need_not_open_the_line() {
    let (ms, _, tmp) = parse_telem_line("t=12 TMP 19.5 MS5611 21.0 1001.2 305.0");
    let m = ms.expect("pressure reading");
    assert_eq!(m.temp, "21.0");
    assert_eq!(tmp.as_deref(), Some("19.5"));
}

#[test]
fn gps_with_fewer_than_three_tokens_gives_zero_altitude() {
    let (ms, _, _) = parse_telem_line("GPS 51.5 -0.1 MS5611 1.0");
    let m = ms.expect("fallback reading");
    assert_eq!(m.altitude, "0");
}

#[test]
fn unicode_whitespace_separates_tokens() {
    let (ms, _, _) = parse_telem_line("MS5611\u{a0}21.0\u{2003}1001.2\t305.0");
    let m = ms.expect("pressure reading");
    assert_eq!(m.temp, "21.0");
    assert_eq!(m.pressure, "1001.2");
    assert_eq!(m.altitude, "305.0");
}

#[test]
fn idx_token_finds_exact_and_prefix() {
    let parts: Vec<String> = vec!["a".to_string(), "GPSX".to_string(), "GPS".to_string()];
    assert_eq!(cubesat_telemetry::parse::idx_token(&parts, "GPS"), Some(1));
    assert_eq!(cubesat_telemetry::parse::idx_token(&parts, "b"), None);
}
