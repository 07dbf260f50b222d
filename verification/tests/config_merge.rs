use r2_core::config::control::{
    AdaptiveConfig, AdaptiveOverride, ControlConfig, ControlOverrides, FailSafeConfig,
    FailSafeOverride, PidConfig, PidLimits, PidLimitsOverride, PidOverride, RunnerControlArgs,
    SafetyMarginConfig,
};
use r2_core::config::drivers::{
    BenchMotorConfig, DistanceBackend, DriverConfig, MotorBackend, RpiMotorConfig,
};
use r2_core::config::runtime::{
    LoopConfig, PlantConfig, ProfileConfig, RuntimeBuilder, RuntimeConfig, RuntimeOverrides,
};
use r2_core::control::safety::SafetyState;
use r2_core::profile::{ProfileParams, VProfile};

fn control() -> ControlConfig<f32> {
    ControlConfig {
        pid: PidConfig {
            kp: 0.6,
            ki: 0.05,
            kd: 0.0,
            limits: PidLimits { out_min: -1.0, out_max: 1.0, i_min: -0.5, i_max: 0.5 },
        },
        failsafe: FailSafeConfig { threshold_m: 0.25, hysteresis_m: 0.05 },
        adaptive: AdaptiveConfig { enabled: false, e_small: 0.02, e_large: 0.2, gain_min: 0.6, gain_max: 1.2 },
        safety_margin: SafetyMarginConfig { ratio_of_car_length: 0.1 },
    }
}

fn runtime() -> RuntimeConfig<f32> {
    RuntimeConfig {
        loop_cfg: LoopConfig { hz: 100.0, desired_v: 0.6 },
        profile: ProfileConfig {
            profile: Some(VProfile::Const),
            params: ProfileParams { step_at: 1.0, sin_amp: 0.3, sin_freq: 0.2, sin_bias: 0.4 },
        },
        plant: PlantConfig { tau: 0.8, gain: 0.8 },
    }
}

#[test]
fn empty_overrides_leave_config_unchanged() {
    let c = control().with_overrides(&ControlOverrides::default());
    assert_eq!(c.pid.kp, 0.6);
    assert_eq!(c.pid.limits.i_max, 0.5);
    assert!(!c.adaptive_enabled());
    assert_eq!(c.adaptive_params(), (0.02, 0.2, 0.6, 1.2));
}

#[test]
fn pid_limit_overrides_apply_field_by_field() {
    let mut pid = control().pid;
    let o = PidOverride {
        kp: Some(2.0),
        limits: Some(PidLimitsOverride { out_max: Some(3.0), ..Default::default() }),
        ..Default::default()
    };
    pid.apply_overrides(&o);
    assert_eq!(pid.kp, 2.0);
    assert_eq!(pid.ki, 0.05);
    assert_eq!(pid.limits.out_max, 3.0);
    assert_eq!(pid.limits.out_min, -1.0);
}

#[test]
fn layered_overrides_equal_merged_layer() {
    let first = ControlOverrides {
        pid: PidOverride { kp: Some(1.0), ki: Some(0.2), ..Default::default() },
        adaptive: AdaptiveOverride { enabled: Some(true), gain_max: Some(2.0), ..Default::default() },
        ..Default::default()
    };
    let second = ControlOverrides {
        pid: PidOverride { kp: Some(3.0), ..Default::default() },
        failsafe: FailSafeOverride { threshold_m: Some(0.4), ..Default::default() },
        ..Default::default()
    };
    let merged = ControlOverrides {
        pid: PidOverride { kp: Some(3.0), ki: Some(0.2), ..Default::default() },
        adaptive: AdaptiveOverride { enabled: Some(true), gain_max: Some(2.0), ..Default::default() },
        failsafe: FailSafeOverride { threshold_m: Some(0.4), ..Default::default() },
        ..Default::default()
    };
    let a = control().with_overrides(&first).with_overrides(&second);
    let b = control().with_overrides(&merged);
    assert_eq!(a.pid.kp, b.pid.kp);
    assert_eq!(a.pid.kp, 3.0);
    assert_eq!(a.pid.ki, b.pid.ki);
    assert_eq!(a.adaptive.enabled, b.adaptive.enabled);
    assert_eq!(a.adaptive.gain_max, b.adaptive.gain_max);
    assert_eq!(a.failsafe.threshold_m, b.failsafe.threshold_m);
    assert_eq!(a.failsafe.hysteresis_m, 0.05);
}

#[test]
fn applying_twice_is_applying_once() {
    let o = ControlOverrides {
        failsafe: FailSafeOverride { hysteresis_m: Some(0.1), ..Default::default() },
        ..Default::default()
    };
    let once = control().with_overrides(&o);
    let twice = once.with_overrides(&o);
    assert_eq!(once.failsafe.hysteresis_m, twice.failsafe.hysteresis_m);
    assert_eq!(twice.failsafe.hysteresis_m, 0.1);
}

#[test]
fn built_failsafe_uses_configured_thresholds() {
    let mut c = control();
    c.failsafe.apply_overrides(&FailSafeOverride { threshold_m: Some(0.5), hysteresis_m: None });
    let fs = c.build_failsafe();
    assert_eq!(fs.threshold_m, 0.5);
    assert_eq!(fs.hysteresis_m, 0.05);
    assert_eq!(fs.state(), SafetyState::Run);
    let fs2 = c.failsafe.build();
    assert_eq!(fs2.threshold_m, 0.5);
}

#[test]
fn runtime_overrides_and_builder() {
    let mut o = RuntimeOverrides::default();
    o.loop_cfg.hz = Some(200.0);
    o.profile.profile = Some(None);
    o.profile.sin_amp = Some(0.7);
    o.plant.gain = Some(1.5);
    let c = runtime().with_overrides(&o);
    assert_eq!(c.loop_cfg.hz, 200.0);
    assert_eq!(c.loop_cfg.desired_v, 0.6);
    assert_eq!(c.profile.profile, None);
    assert_eq!(c.profile.params.sin_amp, 0.7);
    assert_eq!(c.profile.params.step_at, 1.0);
    assert_eq!(c.plant.gain, 1.5);
    assert_eq!(c.plant.tau, 0.8);

    let mut later = RuntimeOverrides::default();
    later.profile.profile = Some(Some(VProfile::Step));
    let built = RuntimeBuilder::new(runtime()).apply(&o).apply(&later).build();
    assert_eq!(built.profile.profile, Some(VProfile::Step));
    assert_eq!(built.loop_cfg.hz, 200.0);

    let mut r = runtime();
    r.apply_overrides(&RuntimeOverrides::default());
    assert_eq!(r.loop_cfg.hz, 100.0);
}

#[test]
fn default_distance_backend_is_mock() {
    assert!(matches!(DistanceBackend::default(), DistanceBackend::Mock));
    let b = DistanceBackend::RpiHcsr04 { trig_gpio: 23, echo_gpio: 24 };
    assert!(matches!(b, DistanceBackend::RpiHcsr04 { trig_gpio: 23, echo_gpio: 24 }));
}

#[test]
fn runner_arguments_override_every_controller_setting_they_carry() {
    let args = RunnerControlArgs {
        kp: 1.0f32,
        ki: 0.5,
        kd: 0.05,
        threshold: 0.3,
        hysteresis: 0.1,
        adaptive: true,
        e_small: 0.01,
        e_large: 0.3,
        gain_min: 0.5,
        gain_max: 1.5,
    };
    let c = control().with_overrides(&args.control_overrides());
    assert_eq!(c.pid.kp, 1.0);
    assert_eq!(c.pid.ki, 0.5);
    assert_eq!(c.pid.kd, 0.05);
    assert_eq!(c.pid.limits.out_max, 1.0);
    assert_eq!(c.failsafe.threshold_m, 0.3);
    assert_eq!(c.failsafe.hysteresis_m, 0.1);
    assert!(c.adaptive.enabled);
    assert_eq!(c.adaptive_params(), (0.01, 0.3, 0.5, 1.5));
    assert_eq!(c.safety_margin.ratio_of_car_length, 0.1);
}

#[test]
fn driver_config_defaults_to_mock_backends() {
    let d: DriverConfig<f32, f64> = DriverConfig::default();
    assert!(matches!(d.motor, MotorBackend::Mock));
    assert!(matches!(d.distance, DistanceBackend::Mock));
    let bench: MotorBackend<f32, f64> =
        MotorBackend::Bench(BenchMotorConfig { tau: 0.8, plant_gain: 0.6 });
    assert!(matches!(bench, MotorBackend::Bench(BenchMotorConfig { plant_gain, .. }) if plant_gain == 0.6));
    let rpi = RpiMotorConfig { left_pwm: 18, right_pwm: 19, left_dir: None, right_dir: Some((5, 6)), max_mps: 1.0f32, pwm_freq_hz: 1000.0f64 };
    assert_eq!(rpi.right_dir, Some((5, 6)));
}
