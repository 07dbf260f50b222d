//! Which motor and distance-sensor backends to build. `F` is the runner's
//! single-precision number type (speeds, plant parameters) and `W` its
//! double-precision one (PWM frequency).

use vstd::prelude::*;

verus! {

/// Motor backend.
#[derive(Debug, Clone)]
pub enum MotorBackend<F, W> {
    /// A motor that only reports its commands.
    Mock,
    /// The mock motor, with the parameters of a first-order bench plant.
    Bench(BenchMotorConfig<F>),
    /// Two hardware PWM channels on a Raspberry Pi.
    Rpi(RpiMotorConfig<F, W>),
}

/// First-order bench plant: time constant and gain.
#[derive(Debug, Clone, Copy)]
pub struct BenchMotorConfig<F> {
    pub tau: F,
    pub plant_gain: F,
}

/// Raspberry Pi motor wiring: PWM channels, optional direction pin pairs,
/// the speed at full duty and the PWM frequency.
#[derive(Debug, Clone, Copy)]
pub struct RpiMotorConfig<F, W> {
    pub left_pwm: u8,
    pub right_pwm: u8,
    pub left_dir: Option<(u8, u8)>,
    pub right_dir: Option<(u8, u8)>,
    pub max_mps: F,
    pub pwm_freq_hz: W,
}

/// Distance-sensor backend.
#[derive(Debug, Clone)]
pub enum DistanceBackend {
    /// The scripted mock sensor.
    Mock,
    /// An HC-SR04 ultrasonic sensor on the given BCM GPIO pins.
    RpiHcsr04 { trig_gpio: u8, echo_gpio: u8 },
}

/// Both backends.
#[derive(Debug, Clone)]
pub struct DriverConfig<F, W> {
    pub motor: MotorBackend<F, W>,
    pub distance: DistanceBackend,
}

impl<F, W> Default for MotorBackend<F, W> {
    fn default() -> (b: Self)
        ensures
            b is Mock,
    {
        MotorBackend::Mock
    }
}

impl Default for DistanceBackend {
    fn default() -> (b: Self)
        ensures
            b == DistanceBackend::Mock,
    {
        DistanceBackend::Mock
    }
}

impl<F, W> Default for DriverConfig<F, W> {
    fn default() -> (c: Self)
        ensures
            c.motor is Mock,
            c.distance == DistanceBackend::Mock,
    {
        DriverConfig { motor: MotorBackend::default(), distance: DistanceBackend::default() }
    }
}

} // verus!
