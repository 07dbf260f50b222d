use r2_core::control::safety::{DistanceReading, FailSafe, SafetyState};
use r2_core::control::SafetyState as CoreSafetyState;

#[test]
fn run_passes_speed_through() {
    let fs = FailSafe::new(0.25f32, 0.05);
    assert_eq!(fs.clamp_speed(0.6f32, 0.0), 0.6);
}

#[test]
fn every_state_brakes_on_danger_or_invalid() {
    for start in [DistanceReading::Clear, DistanceReading::Danger] {
        for bad in [DistanceReading::Danger, DistanceReading::Invalid] {
            let mut fs = FailSafe::new(1u32, 1u32);
            fs.update(start);
            fs.update(DistanceReading::Band);
            assert_eq!(fs.update(bad), SafetyState::EmergencyBrake);
            assert_eq!(fs.state(), SafetyState::EmergencyBrake);
        }
    }
}

#[test]
fn band_keeps_running_state() {
    let mut fs = FailSafe::new(1u32, 1u32);
    assert_eq!(fs.update(DistanceReading::Band), SafetyState::Run);
    assert_eq!(fs.update(DistanceReading::Band), SafetyState::Run);
}

#[test]
fn stays_stopped_until_clear() {
    let mut fs = FailSafe::new(1u32, 1u32);
    fs.update(DistanceReading::Invalid);
    for r in [DistanceReading::Band, DistanceReading::Danger, DistanceReading::Band, DistanceReading::Invalid] {
        assert_ne!(fs.update(r), SafetyState::Run);
        assert_eq!(fs.clamp_speed(7u32, 0), 0);
    }
    assert_eq!(fs.update(DistanceReading::Clear), SafetyState::Run);
}

#[test]
fn repeated_reading_is_stable() {
    let mut fs = FailSafe::new(1u32, 1u32);
    fs.update(DistanceReading::Danger);
    assert_eq!(fs.update(DistanceReading::Band), SafetyState::SafeStop);
    assert_eq!(fs.update(DistanceReading::Band), SafetyState::SafeStop);
}

#[test]
fn manual_reset_needs_clear_reading() {
    let mut fs = FailSafe::new(0.25f32, 0.05);
    fs.update(DistanceReading::Danger);
    fs.reset(DistanceReading::Band);
    assert_eq!(fs.state(), SafetyState::EmergencyBrake);
    fs.reset(DistanceReading::Invalid);
    assert_eq!(fs.state(), SafetyState::EmergencyBrake);
    fs.reset(DistanceReading::Clear);
    assert_eq!(fs.state(), SafetyState::Run);
    assert_eq!(fs.threshold_m, 0.25);
    assert_eq!(fs.hysteresis_m, 0.05);
}

#[test]
fn safety_state_is_shared() {
    let s: CoreSafetyState = SafetyState::SafeStop;
    assert_eq!(s, SafetyState::SafeStop);
}

#[test]
fn checks_take_precedence_in_order() {
    assert_eq!(DistanceReading::from_checks(false, false, true), DistanceReading::Invalid);
    assert_eq!(DistanceReading::from_checks(true, true, true), DistanceReading::Danger);
    assert_eq!(DistanceReading::from_checks(true, false, true), DistanceReading::Clear);
    assert_eq!(DistanceReading::from_checks(true, false, false), DistanceReading::Band);
}
