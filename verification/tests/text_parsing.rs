use r2_core::paths::{config_dir, resolve_csv};
use r2_core::drivers::{MockSensor, MockMotor, RpiDistanceStub, RpiMotorStub};
use r2_core::profile::{parse_v_profile, VProfile};
use r2_core::replay::StdoutTelemetry;
use r2_core::settings::obstacle_fields;
use r2_core::text::{count_and_find, eq_ascii_lowercase, trim_str};

#[test]
fn profile_names_parse_in_any_case() {
    assert_eq!(parse_v_profile("const"), Ok(VProfile::Const));
    assert_eq!(parse_v_profile("  Step\t"), Ok(VProfile::Step));
    assert_eq!(parse_v_profile("SIN"), Ok(VProfile::Sin));
    assert_eq!(parse_v_profile("\u{3000}sIn\n"), Ok(VProfile::Sin));
}

#[test]
fn unknown_profile_is_refused_with_trimmed_name() {
    assert_eq!(parse_v_profile("  ramp "), Err("invalid velocity profile 'ramp'".to_string()));
    assert_eq!(parse_v_profile(""), Err("invalid velocity profile ''".to_string()));
    assert_eq!(parse_v_profile("con st"), Err("invalid velocity profile 'con st'".to_string()));
}

#[test]
fn obstacle_fields_split_at_one_comma() {
    assert_eq!(obstacle_fields("300,0"), Ok(("300", "0")));
    assert_eq!(obstacle_fields(" 350 , 120 "), Ok(("350", "120")));
    assert_eq!(obstacle_fields("420,-50"), Ok(("420", "-50")));
    assert_eq!(obstacle_fields(","), Ok(("", "")));
}

#[test]
fn obstacle_without_exactly_one_comma_is_refused() {
    assert_eq!(
        obstacle_fields("300"),
        Err("invalid obstacle '300', expected format 'x,y'".to_string())
    );
    assert_eq!(
        obstacle_fields("1,2,3"),
        Err("invalid obstacle '1,2,3', expected format 'x,y'".to_string())
    );
}

#[test]
fn trimming_and_case_folding() {
    assert_eq!(trim_str("  a b \r\n"), "a b");
    assert_eq!(trim_str("\u{a0}x\u{2003}"), "x");
    assert_eq!(trim_str("   "), "");
    assert!(eq_ascii_lowercase("CoNsT", "const"));
    assert!(!eq_ascii_lowercase("const!", "const"));
    assert!(!eq_ascii_lowercase("Ç", "ç"));
}

#[test]
fn counting_a_character() {
    assert_eq!(count_and_find("a,b,c", ','), (2, Some(1)));
    assert_eq!(count_and_find("abc", ','), (0, None));
    assert_eq!(count_and_find("é,", ','), (1, Some(1)));
}

#[test]
fn mock_sensor_starts_now() {
    let before = std::time::Instant::now();
    let s = MockSensor::new();
    let after = std::time::Instant::now();
    assert!(s.start() >= before && s.start() <= after);
    let d = MockSensor::default();
    assert!(d.start() >= s.start());
    let _ = (MockMotor, RpiMotorStub, RpiDistanceStub, StdoutTelemetry);
}

#[test]
fn relative_paths_join_the_base_directory() {
    assert_eq!(resolve_csv("out.csv", "configs"), "configs/out.csv");
    assert_eq!(resolve_csv("run/out.csv", "."), "./run/out.csv");
    assert_eq!(resolve_csv("out.csv", ""), "out.csv");
    assert_eq!(resolve_csv("/var/log/out.csv", "configs"), "/var/log/out.csv");
}

#[test]
fn config_directory_is_the_parent_or_current() {
    assert_eq!(config_dir("configs/sim.toml"), "configs");
    assert_eq!(config_dir("/etc/robot/sim.toml"), "/etc/robot");
    assert_eq!(config_dir("sim.toml"), "");
    assert_eq!(config_dir("/"), ".");
}
