use r2_core::config::control::{
    AdaptiveConfig, ControlConfig, FailSafeConfig, PidConfig, PidLimits, SafetyMarginConfig,
};
use r2_core::profile::VProfile;
use r2_core::settings::{FileOverrides, OverrideArgs, SimSettings};

const EPS: f32 = 1e-6;

type Point = (f32, f32);

fn default_control() -> ControlConfig<f32> {
    ControlConfig {
        pid: PidConfig {
            kp: 0.6,
            ki: 0.05,
            kd: 0.0,
            limits: PidLimits { out_min: -1.0, out_max: 1.0, i_min: -0.5, i_max: 0.5 },
        },
        failsafe: FailSafeConfig { threshold_m: 0.25, hysteresis_m: 0.05 },
        adaptive: AdaptiveConfig {
            enabled: false,
            e_small: 0.02,
            e_large: 0.20,
            gain_min: 0.6,
            gain_max: 1.2,
        },
        safety_margin: SafetyMarginConfig { ratio_of_car_length: 0.1 },
    }
}

fn default_settings() -> SimSettings<f32, Point> {
    SimSettings {
        hz: 100.0,
        desired_v: 0.6,
        control: default_control(),
        v_profile: Some(VProfile::Const),
        step_at: 1.0,
        sin_amp: 0.3,
        sin_freq: 0.2,
        sin_bias: 0.4,
        px_per_m: 100.0,
        tau: 0.8,
        plant_gain: 0.8,
        csv: "run/sim.csv".to_string(),
        obstacles: Vec::new(),
    }
}

fn assert_close(actual: f32, expected: f32, label: &str) {
    assert!(
        (actual - expected).abs() < EPS,
        "{label} mismatch: got {actual}, expected {expected}"
    );
}

fn assert_control_eq(actual: &ControlConfig<f32>, expected: &ControlConfig<f32>) {
    assert_close(actual.pid.kp, expected.pid.kp, "pid.kp");
    assert_close(actual.pid.ki, expected.pid.ki, "pid.ki");
    assert_close(actual.pid.kd, expected.pid.kd, "pid.kd");
    assert_close(actual.pid.limits.out_min, expected.pid.limits.out_min, "pid.limits.out_min");
    assert_close(actual.pid.limits.out_max, expected.pid.limits.out_max, "pid.limits.out_max");
    assert_close(actual.pid.limits.i_min, expected.pid.limits.i_min, "pid.limits.i_min");
    assert_close(actual.pid.limits.i_max, expected.pid.limits.i_max, "pid.limits.i_max");
    assert_close(actual.failsafe.threshold_m, expected.failsafe.threshold_m, "failsafe.threshold_m");
    assert_close(actual.failsafe.hysteresis_m, expected.failsafe.hysteresis_m, "failsafe.hysteresis_m");
    assert_eq!(actual.adaptive.enabled, expected.adaptive.enabled, "adaptive.enabled mismatch");
    assert_close(actual.adaptive.e_small, expected.adaptive.e_small, "adaptive.e_small");
    assert_close(actual.adaptive.e_large, expected.adaptive.e_large, "adaptive.e_large");
    assert_close(actual.adaptive.gain_min, expected.adaptive.gain_min, "adaptive.gain_min");
    assert_close(actual.adaptive.gain_max, expected.adaptive.gain_max, "adaptive.gain_max");
    assert_close(
        actual.safety_margin.ratio_of_car_length,
        expected.safety_margin.ratio_of_car_length,
        "safety_margin.ratio_of_car_length",
    );
}

#[test]
fn file_overrides_merge_into_control_config() {
    let mut settings = default_settings();
    let file: FileOverrides<f32, Point> = FileOverrides {
        kp: Some(1.25),
        ki: Some(0.15),
        kd: Some(0.07),
        threshold: Some(0.18),
        hysteresis: Some(0.06),
        safety_margin_ratio: Some(0.35),
        adaptive: Some(true),
        e_small: Some(0.01),
        e_large: Some(0.45),
        gain_min: Some(0.55),
        gain_max: Some(1.65),
        ..Default::default()
    };
    let expected_overrides = file.control_overrides();
    settings.apply_file(file, ".").expect("file overrides should apply");
    let expected = default_control().with_overrides(&expected_overrides);
    assert_control_eq(&settings.control, &expected);
}

#[test]
fn cli_overrides_merge_into_control_config() {
    let mut settings = default_settings();
    let overrides: OverrideArgs<f32, Point> = OverrideArgs {
        kp: Some(1.4),
        ki: Some(0.22),
        kd: Some(0.11),
        threshold: Some(0.21),
        hysteresis: Some(0.08),
        safety_margin_ratio: Some(0.28),
        adaptive: Some(true),
        e_small: Some(0.03),
        e_large: Some(0.52),
        gain_min: Some(0.7),
        gain_max: Some(1.9),
        ..Default::default()
    };
    let expected_overrides = overrides.control_overrides();
    settings.apply_cli(&overrides).expect("cli overrides should apply");
    let expected = default_control().with_overrides(&expected_overrides);
    assert_control_eq(&settings.control, &expected);
}

#[test]
fn cli_overrides_take_precedence_over_file() {
    let mut settings = default_settings();
    let file: FileOverrides<f32, Point> = FileOverrides {
        kp: Some(0.9),
        ki: Some(0.12),
        kd: Some(0.05),
        threshold: Some(0.25),
        hysteresis: Some(0.05),
        safety_margin_ratio: Some(0.3),
        adaptive: Some(false),
        e_small: Some(0.02),
        e_large: Some(0.4),
        gain_min: Some(0.5),
        gain_max: Some(1.4),
        ..Default::default()
    };
    let file_overrides = file.control_overrides();
    settings.apply_file(file, ".").expect("file overrides should apply");

    let overrides: OverrideArgs<f32, Point> = OverrideArgs {
        kp: Some(1.8),
        kd: Some(0.2),
        threshold: Some(0.3),
        adaptive: Some(true),
        gain_max: Some(2.1),
        ..Default::default()
    };
    let cli_overrides = overrides.control_overrides();
    settings.apply_cli(&overrides).expect("cli overrides should apply");

    let mut expected = default_control();
    expected.apply_overrides(&file_overrides);
    expected.apply_overrides(&cli_overrides);

    assert_control_eq(&settings.control, &expected);
}

#[test]
fn scalar_settings_follow_precedence() {
    let mut settings = default_settings();
    let file: FileOverrides<f32, Point> = FileOverrides {
        hz: Some(50.0),
        desired_v: Some(0.4),
        v_profile: Some(" Step ".to_string()),
        tau: Some(0.5),
        csv: Some("cfg/out.csv".to_string()),
        obstacles: Some(vec![Ok((1.0, 2.0)), Ok((3.0, 4.0))]),
        ..Default::default()
    };
    settings.apply_file(file, ".").unwrap();
    let args: OverrideArgs<f32, Point> = OverrideArgs {
        hz: Some(200.0),
        v_profile: Some("SIN".to_string()),
        ..Default::default()
    };
    settings.apply_cli(&args).unwrap();
    assert_eq!(settings.hz, 200.0);
    assert_eq!(settings.desired_v, 0.4);
    assert_eq!(settings.v_profile, Some(VProfile::Sin));
    assert_eq!(settings.tau, 0.5);
    assert_eq!(settings.plant_gain, 0.8);
    assert_eq!(settings.csv_path(), "./cfg/out.csv");
    assert_eq!(settings.obstacles, vec![(1.0, 2.0), (3.0, 4.0)]);
}

#[test]
fn cli_obstacles_replace_file_obstacles() {
    let mut settings = default_settings();
    let file: FileOverrides<f32, Point> =
        FileOverrides { obstacles: Some(vec![Ok((1.0, 2.0))]), ..Default::default() };
    settings.apply_file(file, ".").unwrap();
    let args: OverrideArgs<f32, Point> =
        OverrideArgs { obstacles: vec![Ok((5.0, 6.0))], ..Default::default() };
    settings.apply_cli(&args).unwrap();
    assert_eq!(settings.obstacles, vec![(5.0, 6.0)]);

    let empty: OverrideArgs<f32, Point> = OverrideArgs::default();
    settings.apply_cli(&empty).unwrap();
    assert_eq!(settings.obstacles, vec![(5.0, 6.0)]);
}

#[test]
fn bad_profile_name_is_refused_before_later_settings() {
    let mut settings = default_settings();
    let file: FileOverrides<f32, Point> = FileOverrides {
        hz: Some(10.0),
        v_profile: Some(" ramp ".to_string()),
        tau: Some(0.1),
        kp: Some(3.0),
        ..Default::default()
    };
    let err = settings.apply_file(file, ".").unwrap_err();
    assert_eq!(err, "invalid velocity profile 'ramp'");
    assert_eq!(settings.hz, 10.0);
    assert_eq!(settings.tau, 0.8);
    assert_eq!(settings.control.pid.kp, 0.6);
}

#[test]
fn bad_obstacle_returns_first_error_and_keeps_old_list() {
    let mut settings = default_settings();
    settings.obstacles = vec![(9.0, 9.0)];
    let args: OverrideArgs<f32, Point> = OverrideArgs {
        obstacles: vec![Ok((1.0, 1.0)), Err("first".to_string()), Err("second".to_string())],
        kp: Some(2.0),
        sin_amp: Some(0.9),
        ..Default::default()
    };
    let err = settings.apply_cli(&args).unwrap_err();
    assert_eq!(err, "first");
    assert_eq!(settings.obstacles, vec![(9.0, 9.0)]);
    assert_eq!(settings.sin_amp, 0.9);
    assert_eq!(settings.control.pid.kp, 0.6);
}

#[test]
fn layers_merge_file_then_command_line() {
    let file: FileOverrides<f32, Point> = FileOverrides {
        hz: Some(50.0),
        kp: Some(0.9),
        sin_bias: Some(0.1),
        ..Default::default()
    };
    let args: OverrideArgs<f32, Point> =
        OverrideArgs { hz: Some(75.0), ki: Some(0.3), ..Default::default() };
    let s = SimSettings::merge_layers(default_settings(), Some((file, ".".to_string())), &args).unwrap();
    assert_eq!(s.hz, 75.0);
    assert_eq!(s.sin_bias, 0.1);
    assert_eq!(s.control.pid.kp, 0.9);
    assert_eq!(s.control.pid.ki, 0.3);

    let none = SimSettings::merge_layers(default_settings(), None, &args).unwrap();
    assert_eq!(none.hz, 75.0);
    assert_eq!(none.control.pid.kp, 0.6);
}

#[test]
fn layers_stop_at_file_error() {
    let file: FileOverrides<f32, Point> = FileOverrides {
        obstacles: Some(vec![Err("bad file obstacle".to_string())]),
        ..Default::default()
    };
    let args: OverrideArgs<f32, Point> =
        OverrideArgs { v_profile: Some("zigzag".to_string()), ..Default::default() };
    let err = SimSettings::merge_layers(default_settings(), Some((file, ".".to_string())), &args).err();
    assert_eq!(err, Some("bad file obstacle".to_string()));
    let err2 = SimSettings::merge_layers(default_settings(), None, &args).err();
    assert_eq!(err2, Some("invalid velocity profile 'zigzag'".to_string()));
}

#[test]
fn csv_path_in_file_is_taken_from_file_directory() {
    let relative: FileOverrides<f32, Point> =
        FileOverrides { csv: Some("logs/run.csv".to_string()), ..Default::default() };
    let mut settings = default_settings();
    settings.apply_file(relative, "configs").unwrap();
    assert_eq!(settings.csv_path(), "configs/logs/run.csv");

    let absolute: FileOverrides<f32, Point> =
        FileOverrides { csv: Some("/tmp/run.csv".to_string()), ..Default::default() };
    settings.apply_file(absolute, "configs").unwrap();
    assert_eq!(settings.csv_path(), "/tmp/run.csv");

    let args: OverrideArgs<f32, Point> =
        OverrideArgs { csv: Some("cli.csv".to_string()), ..Default::default() };
    settings.apply_cli(&args).unwrap();
    assert_eq!(settings.csv_path(), "cli.csv");
}

#[test]
fn file_csv_path_follows_the_config_file_location() {
    let file: FileOverrides<f32, Point> =
        FileOverrides { csv: Some("out.csv".to_string()), ..Default::default() };
    let args: OverrideArgs<f32, Point> = OverrideArgs::default();
    let s = SimSettings::merge_layers(
        default_settings(),
        Some((file, "configs/sim2d.toml".to_string())),
        &args,
    )
    .unwrap();
    assert_eq!(s.csv_path(), "configs/out.csv");

    let file2: FileOverrides<f32, Point> =
        FileOverrides { csv: Some("out.csv".to_string()), ..Default::default() };
    let s2 = SimSettings::merge_layers(default_settings(), Some((file2, "sim2d.toml".to_string())), &args)
        .unwrap();
    assert_eq!(s2.csv_path(), "out.csv");
}
