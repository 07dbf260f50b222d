//! Controller configuration (PID gains and limits, fail-safe, adaptive gain,
//! safety margin) and the overrides merged into it.
//!
//! The scalar type `F` is the runner's number type; the merge never looks at
//! the values, only at which overrides are set.

use vstd::prelude::*;

use crate::control::safety::{FailSafe, SafetyState};

verus! {

/// The value an optional override leaves: the override when it is set, the
/// current value otherwise.
pub open spec fn pick<T>(setting: Option<T>, current: T) -> T {
    match setting {
        Some(v) => v,
        None => current,
    }
}

/// Two optional overrides applied one after the other, as one: the later one
/// when it is set, the earlier one otherwise.
pub open spec fn latest<T>(earlier: Option<T>, later: Option<T>) -> Option<T> {
    match later {
        Some(v) => Some(v),
        None => earlier,
    }
}

/// Output and integrator limits of the PID.
#[derive(Debug, Clone, Copy)]
pub struct PidLimits<F> {
    pub out_min: F,
    pub out_max: F,
    pub i_min: F,
    pub i_max: F,
}

/// PID gains and limits.
#[derive(Debug, Clone, Copy)]
pub struct PidConfig<F> {
    pub kp: F,
    pub ki: F,
    pub kd: F,
    pub limits: PidLimits<F>,
}

/// Fail-safe trigger threshold and release hysteresis.
#[derive(Debug, Clone, Copy)]
pub struct FailSafeConfig<F> {
    pub threshold_m: F,
    pub hysteresis_m: F,
}

/// Error-driven output gain schedule.
#[derive(Debug, Clone, Copy)]
pub struct AdaptiveConfig<F> {
    pub enabled: bool,
    pub e_small: F,
    pub e_large: F,
    pub gain_min: F,
    pub gain_max: F,
}

/// Safety margin subtracted from sensed distances, as a ratio of car length.
#[derive(Debug, Clone, Copy)]
pub struct SafetyMarginConfig<F> {
    pub ratio_of_car_length: F,
}

/// Complete controller configuration.
#[derive(Debug, Clone, Copy)]
pub struct ControlConfig<F> {
    pub pid: PidConfig<F>,
    pub failsafe: FailSafeConfig<F>,
    pub adaptive: AdaptiveConfig<F>,
    pub safety_margin: SafetyMarginConfig<F>,
}

/// Overrides for the PID gains; `limits` overrides the limits field by field.
#[derive(Debug, Clone, Copy)]
pub struct PidOverride<F> {
    pub kp: Option<F>,
    pub ki: Option<F>,
    pub kd: Option<F>,
    pub limits: Option<PidLimitsOverride<F>>,
}

/// Overrides for the PID limits.
#[derive(Debug, Clone, Copy)]
pub struct PidLimitsOverride<F> {
    pub out_min: Option<F>,
    pub out_max: Option<F>,
    pub i_min: Option<F>,
    pub i_max: Option<F>,
}

/// Overrides for the fail-safe.
#[derive(Debug, Clone, Copy)]
pub struct FailSafeOverride<F> {
    pub threshold_m: Option<F>,
    pub hysteresis_m: Option<F>,
}

/// Overrides for the adaptive gain schedule.
#[derive(Debug, Clone, Copy)]
pub struct AdaptiveOverride<F> {
    pub enabled: Option<bool>,
    pub e_small: Option<F>,
    pub e_large: Option<F>,
    pub gain_min: Option<F>,
    pub gain_max: Option<F>,
}

/// Override for the safety margin.
#[derive(Debug, Clone, Copy)]
pub struct SafetyMarginOverride<F> {
    pub ratio_of_car_length: Option<F>,
}

/// Overrides for the whole controller configuration.
#[derive(Debug, Clone, Copy)]
pub struct ControlOverrides<F> {
    pub pid: PidOverride<F>,
    pub failsafe: FailSafeOverride<F>,
    pub adaptive: AdaptiveOverride<F>,
    pub safety_margin: SafetyMarginOverride<F>,
}

// ---------------------------------------------------------------------------
// What applying overrides means, and what two override layers amount to.
// ---------------------------------------------------------------------------

impl<F> PidLimits<F> {
    pub open spec fn applied(self, o: PidLimitsOverride<F>) -> Self {
        PidLimits {
            out_min: pick(o.out_min, self.out_min),
            out_max: pick(o.out_max, self.out_max),
            i_min: pick(o.i_min, self.i_min),
            i_max: pick(o.i_max, self.i_max),
        }
    }
}

impl<F> PidConfig<F> {
    pub open spec fn applied(self, o: PidOverride<F>) -> Self {
        PidConfig {
            kp: pick(o.kp, self.kp),
            ki: pick(o.ki, self.ki),
            kd: pick(o.kd, self.kd),
            limits: match o.limits {
                Some(l) => self.limits.applied(l),
                None => self.limits,
            },
        }
    }
}

impl<F> FailSafeConfig<F> {
    pub open spec fn applied(self, o: FailSafeOverride<F>) -> Self {
        FailSafeConfig {
            threshold_m: pick(o.threshold_m, self.threshold_m),
            hysteresis_m: pick(o.hysteresis_m, self.hysteresis_m),
        }
    }
}

impl<F> AdaptiveConfig<F> {
    pub open spec fn applied(self, o: AdaptiveOverride<F>) -> Self {
        AdaptiveConfig {
            enabled: pick(o.enabled, self.enabled),
            e_small: pick(o.e_small, self.e_small),
            e_large: pick(o.e_large, self.e_large),
            gain_min: pick(o.gain_min, self.gain_min),
            gain_max: pick(o.gain_max, self.gain_max),
        }
    }
}

impl<F> SafetyMarginConfig<F> {
    pub open spec fn applied(self, o: SafetyMarginOverride<F>) -> Self {
        SafetyMarginConfig { ratio_of_car_length: pick(o.ratio_of_car_length, self.ratio_of_car_length) }
    }
}

impl<F> ControlConfig<F> {
    pub open spec fn applied(self, o: ControlOverrides<F>) -> Self {
        ControlConfig {
            pid: self.pid.applied(o.pid),
            failsafe: self.failsafe.applied(o.failsafe),
            adaptive: self.adaptive.applied(o.adaptive),
            safety_margin: self.safety_margin.applied(o.safety_margin),
        }
    }
}

impl<F> PidLimitsOverride<F> {
    /// No limit is overridden.
    pub open spec fn is_empty(self) -> bool {
        &&& self.out_min is None
        &&& self.out_max is None
        &&& self.i_min is None
        &&& self.i_max is None
    }

    /// `self` followed by `later`, as one layer.
    pub open spec fn followed_by(self, later: Self) -> Self {
        PidLimitsOverride {
            out_min: latest(self.out_min, later.out_min),
            out_max: latest(self.out_max, later.out_max),
            i_min: latest(self.i_min, later.i_min),
            i_max: latest(self.i_max, later.i_max),
        }
    }
}

impl<F> PidOverride<F> {
    pub open spec fn is_empty(self) -> bool {
        &&& self.kp is None
        &&& self.ki is None
        &&& self.kd is None
        &&& self.limits is None
    }

    pub open spec fn followed_by(self, later: Self) -> Self {
        PidOverride {
            kp: latest(self.kp, later.kp),
            ki: latest(self.ki, later.ki),
            kd: latest(self.kd, later.kd),
            limits: match (self.limits, later.limits) {
                (Some(a), Some(b)) => Some(a.followed_by(b)),
                (Some(a), None) => Some(a),
                (None, b) => b,
            },
        }
    }
}

impl<F> FailSafeOverride<F> {
    pub open spec fn is_empty(self) -> bool {
        &&& self.threshold_m is None
        &&& self.hysteresis_m is None
    }

    pub open spec fn followed_by(self, later: Self) -> Self {
        FailSafeOverride {
            threshold_m: latest(self.threshold_m, later.threshold_m),
            hysteresis_m: latest(self.hysteresis_m, later.hysteresis_m),
        }
    }
}

impl<F> AdaptiveOverride<F> {
    pub open spec fn is_empty(self) -> bool {
        &&& self.enabled is None
        &&& self.e_small is None
        &&& self.e_large is None
        &&& self.gain_min is None
        &&& self.gain_max is None
    }

    pub open spec fn followed_by(self, later: Self) -> Self {
        AdaptiveOverride {
            enabled: latest(self.enabled, later.enabled),
            e_small: latest(self.e_small, later.e_small),
            e_large: latest(self.e_large, later.e_large),
            gain_min: latest(self.gain_min, later.gain_min),
            gain_max: latest(self.gain_max, later.gain_max),
        }
    }
}

impl<F> SafetyMarginOverride<F> {
    pub open spec fn is_empty(self) -> bool {
        self.ratio_of_car_length is None
    }

    pub open spec fn followed_by(self, later: Self) -> Self {
        SafetyMarginOverride {
            ratio_of_car_length: latest(self.ratio_of_car_length, later.ratio_of_car_length),
        }
    }
}

impl<F> ControlOverrides<F> {
    pub open spec fn is_empty(self) -> bool {
        &&& self.pid.is_empty()
        &&& self.failsafe.is_empty()
        &&& self.adaptive.is_empty()
        &&& self.safety_margin.is_empty()
    }

    pub open spec fn followed_by(self, later: Self) -> Self {
        ControlOverrides {
            pid: self.pid.followed_by(later.pid),
            failsafe: self.failsafe.followed_by(later.failsafe),
            adaptive: self.adaptive.followed_by(later.adaptive),
            safety_margin: self.safety_margin.followed_by(later.safety_margin),
        }
    }
}

// ---------------------------------------------------------------------------
// Executable merge.
// ---------------------------------------------------------------------------

impl<F: Copy> PidConfig<F> {
    /// Replaces each gain and limit whose override is set.
    pub fn apply_overrides(&mut self, overrides: &PidOverride<F>)
        ensures
            *final(self) == old(self).applied(*overrides),
    {
        if let Some(kp) = overrides.kp {
            self.kp = kp;
        }
        if let Some(ki) = overrides.ki {
            self.ki = ki;
        }
        if let Some(kd) = overrides.kd {
            self.kd = kd;
        }
        if let Some(lims) = overrides.limits {
            if let Some(out_min) = lims.out_min {
                self.limits.out_min = out_min;
            }
            if let Some(out_max) = lims.out_max {
                self.limits.out_max = out_max;
            }
            if let Some(i_min) = lims.i_min {
                self.limits.i_min = i_min;
            }
            if let Some(i_max) = lims.i_max {
                self.limits.i_max = i_max;
            }
        }
    }
}

impl<F: Copy> FailSafeConfig<F> {
    /// A fail-safe with these thresholds, in the `Run` state.
    pub fn build(self) -> (fs: FailSafe<F>)
        ensures
            fs.threshold() == self.threshold_m,
            fs.hysteresis() == self.hysteresis_m,
            fs.current() == SafetyState::Run,
    {
        FailSafe::new(self.threshold_m, self.hysteresis_m)
    }

    /// Replaces the threshold and the hysteresis where their overrides are set.
    pub fn apply_overrides(&mut self, overrides: &FailSafeOverride<F>)
        ensures
            *final(self) == old(self).applied(*overrides),
    {
        if let Some(threshold) = overrides.threshold_m {
            self.threshold_m = threshold;
        }
        if let Some(hysteresis) = overrides.hysteresis_m {
            self.hysteresis_m = hysteresis;
        }
    }
}

impl<F: Copy> AdaptiveConfig<F> {
    /// Replaces each adaptive setting whose override is set.
    pub fn apply_overrides(&mut self, overrides: &AdaptiveOverride<F>)
        ensures
            *final(self) == old(self).applied(*overrides),
    {
        if let Some(enabled) = overrides.enabled {
            self.enabled = enabled;
        }
        if let Some(e_small) = overrides.e_small {
            self.e_small = e_small;
        }
        if let Some(e_large) = overrides.e_large {
            self.e_large = e_large;
        }
        if let Some(gain_min) = overrides.gain_min {
            self.gain_min = gain_min;
        }
        if let Some(gain_max) = overrides.gain_max {
            self.gain_max = gain_max;
        }
    }
}

impl<F: Copy> SafetyMarginConfig<F> {
    /// Replaces the margin ratio when its override is set.
    pub fn apply_overrides(&mut self, overrides: &SafetyMarginOverride<F>)
        ensures
            *final(self) == old(self).applied(*overrides),
    {
        if let Some(ratio) = overrides.ratio_of_car_length {
            self.ratio_of_car_length = ratio;
        }
    }
}

impl<F: Copy> ControlConfig<F> {
    /// The fail-safe described by this configuration, in the `Run` state.
    pub fn build_failsafe(&self) -> (fs: FailSafe<F>)
        ensures
            fs.threshold() == self.failsafe.threshold_m,
            fs.hysteresis() == self.failsafe.hysteresis_m,
            fs.current() == SafetyState::Run,
    {
        self.failsafe.build()
    }

    /// Whether the adaptive output gain is switched on.
    pub fn adaptive_enabled(&self) -> (b: bool)
        ensures
            b == self.adaptive.enabled,
    {
        self.adaptive.enabled
    }

    /// `(e_small, e_large, gain_min, gain_max)` of the adaptive schedule.
    pub fn adaptive_params(&self) -> (p: (F, F, F, F))
        ensures
            p == (self.adaptive.e_small, self.adaptive.e_large, self.adaptive.gain_min,
                self.adaptive.gain_max),
    {
        (self.adaptive.e_small, self.adaptive.e_large, self.adaptive.gain_min, self.adaptive.gain_max)
    }

    /// Applies every part of `overrides` to the matching part of the configuration.
    pub fn apply_overrides(&mut self, overrides: &ControlOverrides<F>)
        ensures
            *final(self) == old(self).applied(*overrides),
    {
        self.pid.apply_overrides(&overrides.pid);
        self.failsafe.apply_overrides(&overrides.failsafe);
        self.adaptive.apply_overrides(&overrides.adaptive);
        self.safety_margin.apply_overrides(&overrides.safety_margin);
    }

    /// This configuration with `overrides` applied.
    pub fn with_overrides(self, overrides: &ControlOverrides<F>) -> (c: Self)
        ensures
            c == self.applied(*overrides),
    {
        let mut c = self;
        c.apply_overrides(overrides);
        c
    }
}

// ---------------------------------------------------------------------------
// The platform runner's controller settings.
// ---------------------------------------------------------------------------

/// The controller settings the platform runner takes from its command line,
/// each of them always given (the command line supplies defaults).
#[derive(Debug, Clone, Copy)]
pub struct RunnerControlArgs<F> {
    pub kp: F,
    pub ki: F,
    pub kd: F,
    pub threshold: F,
    pub hysteresis: F,
    pub adaptive: bool,
    pub e_small: F,
    pub e_large: F,
    pub gain_min: F,
    pub gain_max: F,
}

impl<F> RunnerControlArgs<F> {
    /// Every setting given becomes an override; the PID limits and the
    /// safety margin are left alone.
    pub open spec fn overrides(self) -> ControlOverrides<F> {
        ControlOverrides {
            pid: PidOverride { kp: Some(self.kp), ki: Some(self.ki), kd: Some(self.kd), limits: None },
            failsafe: FailSafeOverride {
                threshold_m: Some(self.threshold),
                hysteresis_m: Some(self.hysteresis),
            },
            adaptive: AdaptiveOverride {
                enabled: Some(self.adaptive),
                e_small: Some(self.e_small),
                e_large: Some(self.e_large),
                gain_min: Some(self.gain_min),
                gain_max: Some(self.gain_max),
            },
            safety_margin: SafetyMarginOverride { ratio_of_car_length: None },
        }
    }
}

impl<F: Copy> RunnerControlArgs<F> {
    /// The overrides these settings make.
    pub fn control_overrides(&self) -> (o: ControlOverrides<F>)
        ensures
            o == self.overrides(),
    {
        let mut overrides = ControlOverrides::default();
        overrides.pid.kp = Some(self.kp);
        overrides.pid.ki = Some(self.ki);
        overrides.pid.kd = Some(self.kd);
        overrides.failsafe.threshold_m = Some(self.threshold);
        overrides.failsafe.hysteresis_m = Some(self.hysteresis);
        overrides.adaptive.enabled = Some(self.adaptive);
        overrides.adaptive.e_small = Some(self.e_small);
        overrides.adaptive.e_large = Some(self.e_large);
        overrides.adaptive.gain_min = Some(self.gain_min);
        overrides.adaptive.gain_max = Some(self.gain_max);
        overrides
    }
}

// ---------------------------------------------------------------------------
// Empty overrides.
// ---------------------------------------------------------------------------

impl<F> Default for PidLimitsOverride<F> {
    fn default() -> (o: Self)
        ensures
            o.is_empty(),
    {
        PidLimitsOverride { out_min: None, out_max: None, i_min: None, i_max: None }
    }
}

impl<F> Default for PidOverride<F> {
    fn default() -> (o: Self)
        ensures
            o.is_empty(),
    {
        PidOverride { kp: None, ki: None, kd: None, limits: None }
    }
}

impl<F> Default for FailSafeOverride<F> {
    fn default() -> (o: Self)
        ensures
            o.is_empty(),
    {
        FailSafeOverride { threshold_m: None, hysteresis_m: None }
    }
}

impl<F> Default for AdaptiveOverride<F> {
    fn default() -> (o: Self)
        ensures
            o.is_empty(),
    {
        AdaptiveOverride { enabled: None, e_small: None, e_large: None, gain_min: None, gain_max: None }
    }
}

impl<F> Default for SafetyMarginOverride<F> {
    fn default() -> (o: Self)
        ensures
            o.is_empty(),
    {
        SafetyMarginOverride { ratio_of_car_length: None }
    }
}

impl<F> Default for ControlOverrides<F> {
    fn default() -> (o: Self)
        ensures
            o.is_empty(),
    {
        ControlOverrides {
            pid: PidOverride::default(),
            failsafe: FailSafeOverride::default(),
            adaptive: AdaptiveOverride::default(),
            safety_margin: SafetyMarginOverride::default(),
        }
    }
}

// ---------------------------------------------------------------------------
// Laws of the merge.
// ---------------------------------------------------------------------------

/// Overrides that set nothing leave the configuration as it was.
pub proof fn lemma_empty_overrides_change_nothing<F>(config: ControlConfig<F>, overrides: ControlOverrides<F>)
    requires
        overrides.is_empty(),
    ensures
        config.applied(overrides) == config,
{
}

/// Applying one layer of overrides and then another (a file, then the command
/// line) is the same as applying the two layers merged, the later one winning
/// on every setting that both set.
pub proof fn lemma_layers_compose<F>(
    config: ControlConfig<F>,
    first: ControlOverrides<F>,
    second: ControlOverrides<F>,
)
    ensures
        config.applied(first).applied(second) == config.applied(first.followed_by(second)),
{
}

/// What merging overrides does to each setting: a set override's value is the
/// new value, an unset one keeps the old value (the PID limits only when a
/// limits override is given at all).
pub proof fn lemma_override_sets_each_field<F>(c: ControlConfig<F>, o: ControlOverrides<F>)
    ensures
        ({
            let r = c.applied(o);
            &&& r.pid.kp == (match o.pid.kp { Some(v) => v, None => c.pid.kp })
            &&& r.pid.ki == (match o.pid.ki { Some(v) => v, None => c.pid.ki })
            &&& r.pid.kd == (match o.pid.kd { Some(v) => v, None => c.pid.kd })
            &&& r.pid.limits.out_min == (match o.pid.limits {
                Some(l) => match l.out_min { Some(v) => v, None => c.pid.limits.out_min },
                None => c.pid.limits.out_min,
            })
            &&& r.pid.limits.out_max == (match o.pid.limits {
                Some(l) => match l.out_max { Some(v) => v, None => c.pid.limits.out_max },
                None => c.pid.limits.out_max,
            })
            &&& r.pid.limits.i_min == (match o.pid.limits {
                Some(l) => match l.i_min { Some(v) => v, None => c.pid.limits.i_min },
                None => c.pid.limits.i_min,
            })
            &&& r.pid.limits.i_max == (match o.pid.limits {
                Some(l) => match l.i_max { Some(v) => v, None => c.pid.limits.i_max },
                None => c.pid.limits.i_max,
            })
            &&& r.failsafe.threshold_m == (match o.failsafe.threshold_m {
                Some(v) => v,
                None => c.failsafe.threshold_m,
            })
            &&& r.failsafe.hysteresis_m == (match o.failsafe.hysteresis_m {
                Some(v) => v,
                None => c.failsafe.hysteresis_m,
            })
            &&& r.adaptive.enabled == (match o.adaptive.enabled { Some(v) => v, None => c.adaptive.enabled })
            &&& r.adaptive.e_small == (match o.adaptive.e_small { Some(v) => v, None => c.adaptive.e_small })
            &&& r.adaptive.e_large == (match o.adaptive.e_large { Some(v) => v, None => c.adaptive.e_large })
            &&& r.adaptive.gain_min == (match o.adaptive.gain_min {
                Some(v) => v,
                None => c.adaptive.gain_min,
            })
            &&& r.adaptive.gain_max == (match o.adaptive.gain_max {
                Some(v) => v,
                None => c.adaptive.gain_max,
            })
            &&& r.safety_margin.ratio_of_car_length == (match o.safety_margin.ratio_of_car_length {
                Some(v) => v,
                None => c.safety_margin.ratio_of_car_length,
            })
        }),
{
}

/// Applying the same overrides twice is the same as applying them once.
pub proof fn lemma_apply_twice_is_once<F>(config: ControlConfig<F>, overrides: ControlOverrides<F>)
    ensures
        config.applied(overrides).applied(overrides) == config.applied(overrides),
{
}

} // verus!
