//! The fail-safe: a three-state machine that stops the robot when an obstacle
//! comes too close or the distance sensor cannot be trusted, and releases it
//! again only once the obstacle is beyond the threshold plus a hysteresis band.

use vstd::prelude::*;

verus! {

/// The fail-safe's state.
#[derive(Debug, Clone, Copy, PartialEq, Eq, Structural)]
pub enum SafetyState {
    /// Normal driving: speed commands pass through unchanged.
    Run,
    /// A dangerous or invalid reading was just seen: speed is forced to zero.
    EmergencyBrake,
    /// Braked earlier; the obstacle has moved past the threshold but not yet
    /// past the hysteresis band: speed stays at zero.
    SafeStop,
}

/// Where one distance reading falls relative to a fail-safe's thresholds.
///
/// A runner produces this from the raw sensor value: an error or a value that
/// is not a number is `Invalid`; otherwise the distance, with negative values
/// counted as zero, is `Danger` when it is at or below the threshold, `Clear`
/// when it is beyond threshold + hysteresis (an infinite distance included),
/// and `Band` in between.
#[derive(Debug, Clone, Copy, PartialEq, Eq, Structural)]
pub enum DistanceReading {
    Invalid,
    Danger,
    Band,
    Clear,
}

/// The reading given by the three checks a runner makes on a raw distance,
/// in order: an invalid value comes first, then a distance at or below the
/// threshold, then one beyond threshold + hysteresis; anything else is in the
/// band.
pub open spec fn reading_of(valid: bool, within_threshold: bool, beyond_release: bool) -> DistanceReading {
    if !valid {
        DistanceReading::Invalid
    } else if within_threshold {
        DistanceReading::Danger
    } else if beyond_release {
        DistanceReading::Clear
    } else {
        DistanceReading::Band
    }
}

impl DistanceReading {
    /// Classifies a raw distance from the runner's checks: `valid` (the
    /// sensor answered with a number), `within_threshold` (the distance, with
    /// negative values counted as zero, is at or below the threshold) and
    /// `beyond_release` (it is beyond threshold + hysteresis). The checks take
    /// precedence in that order.
    pub fn from_checks(valid: bool, within_threshold: bool, beyond_release: bool) -> (r: Self)
        ensures
            r == reading_of(valid, within_threshold, beyond_release),
    {
        if !valid {
            DistanceReading::Invalid
        } else if within_threshold {
            DistanceReading::Danger
        } else if beyond_release {
            DistanceReading::Clear
        } else {
            DistanceReading::Band
        }
    }
}

/// The state that follows `state` after one reading.
pub open spec fn next_state(state: SafetyState, reading: DistanceReading) -> SafetyState {
    match reading {
        DistanceReading::Invalid => SafetyState::EmergencyBrake,
        DistanceReading::Danger => SafetyState::EmergencyBrake,
        DistanceReading::Clear => SafetyState::Run,
        DistanceReading::Band => if state == SafetyState::EmergencyBrake {
            SafetyState::SafeStop
        } else {
            state
        },
    }
}

/// The state reached from `state` after the readings of `readings`, in order.
pub open spec fn run_readings(state: SafetyState, readings: Seq<DistanceReading>) -> SafetyState
    decreases readings.len(),
{
    if readings.len() == 0 {
        state
    } else {
        next_state(run_readings(state, readings.drop_last()), readings.last())
    }
}

/// Distance fail-safe with a trigger threshold and a release hysteresis, both
/// in meters (the scalar type is the runner's choice).
#[derive(Debug, Clone)]
pub struct FailSafe<F> {
    pub threshold_m: F,
    pub hysteresis_m: F,
    state: SafetyState,
}

impl<F> FailSafe<F> {
    /// The current state.
    pub closed spec fn current(&self) -> SafetyState {
        self.state
    }

    /// The trigger threshold.
    pub closed spec fn threshold(&self) -> F {
        self.threshold_m
    }

    /// The release hysteresis.
    pub closed spec fn hysteresis(&self) -> F {
        self.hysteresis_m
    }

    /// A fail-safe in the `Run` state.
    pub fn new(threshold_m: F, hysteresis_m: F) -> (fs: Self)
        ensures
            fs.threshold() == threshold_m,
            fs.hysteresis() == hysteresis_m,
            fs.current() == SafetyState::Run,
    {
        FailSafe { threshold_m, hysteresis_m, state: SafetyState::Run }
    }

    /// The current state.
    pub fn state(&self) -> (st: SafetyState)
        ensures
            st == self.current(),
    {
        self.state
    }

    /// Takes one reading and returns the new state: an invalid or dangerous
    /// reading brakes, a clear reading releases, and a reading in the
    /// hysteresis band turns a fresh emergency brake into a safe stop and
    /// leaves every other state as it was.
    pub fn update(&mut self, reading: DistanceReading) -> (st: SafetyState)
        ensures
            st == next_state(old(self).current(), reading),
            final(self).current() == st,
            final(self).threshold() == old(self).threshold(),
            final(self).hysteresis() == old(self).hysteresis(),
    {
        match reading {
            DistanceReading::Invalid => {
                self.state = SafetyState::EmergencyBrake;
            },
            DistanceReading::Danger => {
                self.state = SafetyState::EmergencyBrake;
            },
            DistanceReading::Clear => {
                self.state = SafetyState::Run;
            },
            DistanceReading::Band => {
                if self.state == SafetyState::EmergencyBrake {
                    self.state = SafetyState::SafeStop;
                }
            },
        }
        self.state
    }

    /// The speed to send: `v_cmd` while running, `stopped` (the runner's zero)
    /// in either braking state.
    pub fn clamp_speed<V>(&self, v_cmd: V, stopped: V) -> (v: V)
        ensures
            v == (if self.current() == SafetyState::Run { v_cmd } else { stopped }),
    {
        match self.state {
            SafetyState::Run => v_cmd,
            SafetyState::EmergencyBrake => stopped,
            SafetyState::SafeStop => stopped,
        }
    }

    /// Manual release: returns to `Run` when the current distance is clear
    /// (for a manual release the runner reports `Clear` only for a finite
    /// distance), and otherwise leaves the state unchanged.
    pub fn reset(&mut self, reading: DistanceReading)
        ensures
            final(self).current() == (if reading == DistanceReading::Clear {
                SafetyState::Run
            } else {
                old(self).current()
            }),
            final(self).threshold() == old(self).threshold(),
            final(self).hysteresis() == old(self).hysteresis(),
    {
        if reading == DistanceReading::Clear {
            self.state = SafetyState::Run;
        }
    }
}

/// An invalid reading, or one at or below the threshold, brakes whatever the
/// state was.
pub proof fn lemma_danger_always_brakes(state: SafetyState, reading: DistanceReading)
    requires
        reading == DistanceReading::Invalid || reading == DistanceReading::Danger,
    ensures
        next_state(state, reading) == SafetyState::EmergencyBrake,
{
}

/// A raw distance that is invalid, or at or below the threshold, brakes
/// whatever the other check says and whatever the state was.
pub proof fn lemma_invalid_or_close_brakes(
    state: SafetyState,
    valid: bool,
    within_threshold: bool,
    beyond_release: bool,
)
    requires
        !valid || within_threshold,
    ensures
        next_state(state, reading_of(valid, within_threshold, beyond_release))
            == SafetyState::EmergencyBrake,
{
}

/// A clear reading (beyond threshold + hysteresis) releases the fail-safe to
/// `Run` from every state.
pub proof fn lemma_clear_releases(state: SafetyState)
    ensures
        next_state(state, DistanceReading::Clear) == SafetyState::Run,
        next_state(state, reading_of(true, false, true)) == SafetyState::Run,
{
}

/// The fail-safe leaves a braking state for `Run` only on a clear reading.
pub proof fn lemma_release_needs_clear(state: SafetyState, reading: DistanceReading)
    requires
        state != SafetyState::Run,
        next_state(state, reading) == SafetyState::Run,
    ensures
        reading == DistanceReading::Clear,
{
}

/// `SafeStop` is entered only from `EmergencyBrake`, on a reading in the
/// hysteresis band.
pub proof fn lemma_safe_stop_follows_brake(state: SafetyState, reading: DistanceReading)
    requires
        state != SafetyState::SafeStop,
        next_state(state, reading) == SafetyState::SafeStop,
    ensures
        state == SafetyState::EmergencyBrake,
        reading == DistanceReading::Band,
{
}

/// Repeating a reading changes nothing further.
pub proof fn lemma_repeat_reading_is_stable(state: SafetyState, reading: DistanceReading)
    ensures
        next_state(next_state(state, reading), reading) == next_state(state, reading),
{
}

/// Once the fail-safe is braking, no sequence of readings without a clear one
/// brings it back to `Run`.
pub proof fn lemma_stays_stopped_until_clear(state: SafetyState, readings: Seq<DistanceReading>)
    requires
        state != SafetyState::Run,
        forall|i: int| 0 <= i < readings.len() ==> readings[i] != DistanceReading::Clear,
    ensures
        run_readings(state, readings) != SafetyState::Run,
    decreases readings.len(),
{
    if readings.len() > 0 {
        lemma_stays_stopped_until_clear(state, readings.drop_last());
        assert(readings.last() == readings[readings.len() - 1]);
    }
}

/// Readings in the hysteresis band never change a running fail-safe, and
/// turn a braking one into a safe stop that they then hold.
pub proof fn lemma_band_holds(state: SafetyState, readings: Seq<DistanceReading>)
    requires
        forall|i: int| 0 <= i < readings.len() ==> readings[i] == DistanceReading::Band,
    ensures
        run_readings(state, readings) == (if readings.len() > 0 && state
            == SafetyState::EmergencyBrake {
            SafetyState::SafeStop
        } else {
            state
        }),
    decreases readings.len(),
{
    if readings.len() > 0 {
        lemma_band_holds(state, readings.drop_last());
        assert(readings.last() == readings[readings.len() - 1]);
    }
}

} // verus!
