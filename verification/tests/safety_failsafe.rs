use r2_core::control::safety::{DistanceReading, FailSafe, SafetyState};

/// Where a raw distance falls for this fail-safe: errors and NaN are invalid,
/// negative distances count as zero.
fn reading(fs: &FailSafe<f32>, distance: Result<f32, ()>) -> DistanceReading {
    match distance {
        Ok(d) if !d.is_nan() => {
            let d = d.max(0.0);
            DistanceReading::from_checks(
                true,
                d <= fs.threshold_m,
                d > fs.threshold_m + fs.hysteresis_m,
            )
        }
        _ => DistanceReading::from_checks(false, false, false),
    }
}

fn update(fs: &mut FailSafe<f32>, distance: Result<f32, ()>) -> SafetyState {
    let r = reading(fs, distance);
    fs.update(r)
}

#[test]
fn enters_emergency_brake_on_close_distance_or_error() {
    let mut fs = FailSafe::new(0.25f32, 0.05);
    assert_eq!(fs.state(), SafetyState::Run);

    let st = update(&mut fs, Ok(0.20));
    assert_eq!(st, SafetyState::EmergencyBrake);
    assert_eq!(fs.clamp_speed(0.6f32, 0.0), 0.0);

    let mut fs2 = FailSafe::new(0.25f32, 0.05);
    let st2 = update(&mut fs2, Err(()));
    assert_eq!(st2, SafetyState::EmergencyBrake);
}

#[test]
fn err_or_nan_enters_emergency() {
    let mut fs = FailSafe::new(0.25f32, 0.05);
    assert_eq!(update(&mut fs, Err(())), SafetyState::EmergencyBrake);

    let mut fs2 = FailSafe::new(0.25f32, 0.05);
    assert_eq!(update(&mut fs2, Ok(f32::NAN)), SafetyState::EmergencyBrake);
}

#[test]
fn threshold_triggers_and_safe_stop_holds_zero() {
    let mut fs = FailSafe::new(0.25f32, 0.05);
    assert_eq!(update(&mut fs, Ok(0.20)), SafetyState::EmergencyBrake);
    assert_eq!(update(&mut fs, Ok(0.30)), SafetyState::SafeStop);
    assert_eq!(fs.clamp_speed(0.6f32, 0.0), 0.0);
}

#[test]
fn auto_reset_after_hysteresis_margin() {
    let mut fs = FailSafe::new(0.25f32, 0.05);
    assert_eq!(update(&mut fs, Ok(0.10)), SafetyState::EmergencyBrake);
    assert_eq!(update(&mut fs, Ok(0.28)), SafetyState::SafeStop);
    assert_eq!(update(&mut fs, Ok(0.31)), SafetyState::Run);
}

#[test]
fn negative_distance_treated_as_danger() {
    let mut fs = FailSafe::new(0.25f32, 0.05);
    assert_eq!(update(&mut fs, Ok(-1.0)), SafetyState::EmergencyBrake);
}
