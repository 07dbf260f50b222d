//! The desktop drivers: the mock motor and the scripted mock distance sensor,
//! and the stand-ins used when the Raspberry Pi hardware is not compiled in.

use vstd::prelude::*;

use std::time::Instant;

verus! {

/// `std::time::Instant`, carried as an opaque value.
#[verifier::external_type_specification]
#[verifier::external_body]
pub struct ExInstant(Instant);

/// The current instant, from `std::time::Instant::now`. Nothing is stated of
/// it: it is read from the system clock.
#[verifier::external_body]
fn instant_now() -> Instant {
    Instant::now()
}

/// Motor that only reports the commands it receives.
pub struct MockMotor;

/// Distance sensor that replays a fixed approach, timed from its creation.
pub struct MockSensor {
    t0: Instant,
}

impl MockSensor {
    /// When the scripted approach started.
    pub closed spec fn started(&self) -> Instant {
        self.t0
    }

    /// A sensor whose approach starts now.
    pub fn new() -> (s: Self) {
        MockSensor { t0: instant_now() }
    }

    /// When the scripted approach started.
    pub fn start(&self) -> (t: Instant)
        ensures
            t == self.started(),
    {
        self.t0
    }
}

impl Default for MockSensor {
    fn default() -> (s: Self) {
        Self::new()
    }
}

/// Motor stand-in used when the hardware drivers are not compiled in.
pub struct RpiMotorStub;

/// Distance stand-in used when the hardware drivers are not compiled in.
pub struct RpiDistanceStub;

} // verus!
