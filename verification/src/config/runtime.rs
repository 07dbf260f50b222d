//! Runtime configuration (loop rate, velocity profile, plant model) and the
//! overrides merged into it.

use vstd::prelude::*;

use crate::config::control::{latest, pick};
use crate::profile::{ProfileParams, VProfile};

verus! {

/// Loop rate (Hz) and constant desired speed (m/s).
#[derive(Debug, Clone)]
pub struct LoopConfig<F> {
    pub hz: F,
    pub desired_v: F,
}

/// The velocity profile (`None` means constant) and its parameters.
#[derive(Debug, Clone, Copy)]
pub struct ProfileConfig<F> {
    pub profile: Option<VProfile>,
    pub params: ProfileParams<F>,
}

/// First-order plant: time constant and gain.
#[derive(Debug, Clone)]
pub struct PlantConfig<F> {
    pub tau: F,
    pub gain: F,
}

#[derive(Debug, Clone)]
pub struct LoopOverrides<F> {
    pub hz: Option<F>,
    pub desired_v: Option<F>,
}

/// Profile overrides; `profile: Some(None)` selects the constant profile by
/// clearing the profile.
#[derive(Debug, Clone)]
pub struct ProfileOverrides<F> {
    pub profile: Option<Option<VProfile>>,
    pub step_at: Option<F>,
    pub sin_amp: Option<F>,
    pub sin_freq: Option<F>,
    pub sin_bias: Option<F>,
}

#[derive(Debug, Clone)]
pub struct PlantOverrides<F> {
    pub tau: Option<F>,
    pub gain: Option<F>,
}

#[derive(Debug, Clone)]
pub struct RuntimeOverrides<F> {
    pub loop_cfg: LoopOverrides<F>,
    pub profile: ProfileOverrides<F>,
    pub plant: PlantOverrides<F>,
}

#[derive(Debug, Clone)]
pub struct RuntimeConfig<F> {
    pub loop_cfg: LoopConfig<F>,
    pub profile: ProfileConfig<F>,
    pub plant: PlantConfig<F>,
}

/// Accumulates override layers on top of a starting configuration.
pub struct RuntimeBuilder<F> {
    config: RuntimeConfig<F>,
}

impl<F> RuntimeConfig<F> {
    /// The configuration with `o` applied.
    pub open spec fn applied(self, o: RuntimeOverrides<F>) -> Self {
        RuntimeConfig {
            loop_cfg: LoopConfig {
                hz: pick(o.loop_cfg.hz, self.loop_cfg.hz),
                desired_v: pick(o.loop_cfg.desired_v, self.loop_cfg.desired_v),
            },
            profile: ProfileConfig {
                profile: pick(o.profile.profile, self.profile.profile),
                params: ProfileParams {
                    step_at: pick(o.profile.step_at, self.profile.params.step_at),
                    sin_amp: pick(o.profile.sin_amp, self.profile.params.sin_amp),
                    sin_freq: pick(o.profile.sin_freq, self.profile.params.sin_freq),
                    sin_bias: pick(o.profile.sin_bias, self.profile.params.sin_bias),
                },
            },
            plant: PlantConfig {
                tau: pick(o.plant.tau, self.plant.tau),
                gain: pick(o.plant.gain, self.plant.gain),
            },
        }
    }
}

impl<F> RuntimeOverrides<F> {
    /// No setting is overridden.
    pub open spec fn is_empty(self) -> bool {
        &&& self.loop_cfg.hz is None
        &&& self.loop_cfg.desired_v is None
        &&& self.profile.profile is None
        &&& self.profile.step_at is None
        &&& self.profile.sin_amp is None
        &&& self.profile.sin_freq is None
        &&& self.profile.sin_bias is None
        &&& self.plant.tau is None
        &&& self.plant.gain is None
    }

    /// `self` followed by `later`, as one layer.
    pub open spec fn followed_by(self, later: Self) -> Self {
        RuntimeOverrides {
            loop_cfg: LoopOverrides {
                hz: latest(self.loop_cfg.hz, later.loop_cfg.hz),
                desired_v: latest(self.loop_cfg.desired_v, later.loop_cfg.desired_v),
            },
            profile: ProfileOverrides {
                profile: latest(self.profile.profile, later.profile.profile),
                step_at: latest(self.profile.step_at, later.profile.step_at),
                sin_amp: latest(self.profile.sin_amp, later.profile.sin_amp),
                sin_freq: latest(self.profile.sin_freq, later.profile.sin_freq),
                sin_bias: latest(self.profile.sin_bias, later.profile.sin_bias),
            },
            plant: PlantOverrides {
                tau: latest(self.plant.tau, later.plant.tau),
                gain: latest(self.plant.gain, later.plant.gain),
            },
        }
    }
}

impl<F: Copy> RuntimeConfig<F> {
    /// This configuration with `overrides` applied.
    pub fn with_overrides(self, overrides: &RuntimeOverrides<F>) -> (c: Self)
        ensures
            c == self.applied(*overrides),
    {
        let mut c = self;
        c.apply_overrides(overrides);
        c
    }

    /// Replaces every setting whose override is set.
    pub fn apply_overrides(&mut self, overrides: &RuntimeOverrides<F>)
        ensures
            *final(self) == old(self).applied(*overrides),
    {
        if let Some(hz) = overrides.loop_cfg.hz {
            self.loop_cfg.hz = hz;
        }
        if let Some(desired_v) = overrides.loop_cfg.desired_v {
            self.loop_cfg.desired_v = desired_v;
        }
        if let Some(profile) = overrides.profile.profile {
            self.profile.profile = profile;
        }
        if let Some(step_at) = overrides.profile.step_at {
            self.profile.params.step_at = step_at;
        }
        if let Some(sin_amp) = overrides.profile.sin_amp {
            self.profile.params.sin_amp = sin_amp;
        }
        if let Some(sin_freq) = overrides.profile.sin_freq {
            self.profile.params.sin_freq = sin_freq;
        }
        if let Some(sin_bias) = overrides.profile.sin_bias {
            self.profile.params.sin_bias = sin_bias;
        }
        if let Some(tau) = overrides.plant.tau {
            self.plant.tau = tau;
        }
        if let Some(gain) = overrides.plant.gain {
            self.plant.gain = gain;
        }
    }
}

impl<F> RuntimeBuilder<F> {
    /// The configuration built so far.
    pub closed spec fn current(&self) -> RuntimeConfig<F> {
        self.config
    }

    /// A builder starting from `config`.
    pub fn new(config: RuntimeConfig<F>) -> (b: Self)
        ensures
            b.current() == config,
    {
        RuntimeBuilder { config }
    }

    /// The finished configuration.
    pub fn build(self) -> (c: RuntimeConfig<F>)
        ensures
            c == self.current(),
    {
        self.config
    }
}

impl<F: Copy> RuntimeBuilder<F> {
    /// Adds one more override layer.
    pub fn apply(self, overrides: &RuntimeOverrides<F>) -> (b: Self)
        ensures
            b.current() == self.current().applied(*overrides),
    {
        let mut b = self;
        b.config.apply_overrides(overrides);
        b
    }
}

impl<F> Default for LoopOverrides<F> {
    fn default() -> (o: Self)
        ensures
            o.hz is None,
            o.desired_v is None,
    {
        LoopOverrides { hz: None, desired_v: None }
    }
}

impl<F> Default for ProfileOverrides<F> {
    fn default() -> (o: Self)
        ensures
            o.profile is None,
            o.step_at is None,
            o.sin_amp is None,
            o.sin_freq is None,
            o.sin_bias is None,
    {
        ProfileOverrides { profile: None, step_at: None, sin_amp: None, sin_freq: None, sin_bias: None }
    }
}

impl<F> Default for PlantOverrides<F> {
    fn default() -> (o: Self)
        ensures
            o.tau is None,
            o.gain is None,
    {
        PlantOverrides { tau: None, gain: None }
    }
}

impl<F> Default for RuntimeOverrides<F> {
    fn default() -> (o: Self)
        ensures
            o.is_empty(),
    {
        RuntimeOverrides {
            loop_cfg: LoopOverrides::default(),
            profile: ProfileOverrides::default(),
            plant: PlantOverrides::default(),
        }
    }
}

/// Overrides that set nothing leave the runtime configuration as it was.
pub proof fn lemma_empty_runtime_overrides_change_nothing<F>(
    config: RuntimeConfig<F>,
    overrides: RuntimeOverrides<F>,
)
    requires
        overrides.is_empty(),
    ensures
        config.applied(overrides) == config,
{
}

/// Two override layers applied in turn equal the merged layer, the later one
/// winning; this is what the builder accumulates.
pub proof fn lemma_runtime_layers_compose<F>(
    config: RuntimeConfig<F>,
    first: RuntimeOverrides<F>,
    second: RuntimeOverrides<F>,
)
    ensures
        config.applied(first).applied(second) == config.applied(first.followed_by(second)),
{
}

/// What merging runtime overrides does to each setting: a set override's
/// value is the new value, an unset one keeps the old value.
pub proof fn lemma_runtime_override_sets_each_field<F>(c: RuntimeConfig<F>, o: RuntimeOverrides<F>)
    ensures
        ({
            let r = c.applied(o);
            &&& r.loop_cfg.hz == (match o.loop_cfg.hz { Some(v) => v, None => c.loop_cfg.hz })
            &&& r.loop_cfg.desired_v == (match o.loop_cfg.desired_v {
                Some(v) => v,
                None => c.loop_cfg.desired_v,
            })
            &&& r.profile.profile == (match o.profile.profile { Some(v) => v, None => c.profile.profile })
            &&& r.profile.params.step_at == (match o.profile.step_at {
                Some(v) => v,
                None => c.profile.params.step_at,
            })
            &&& r.profile.params.sin_amp == (match o.profile.sin_amp {
                Some(v) => v,
                None => c.profile.params.sin_amp,
            })
            &&& r.profile.params.sin_freq == (match o.profile.sin_freq {
                Some(v) => v,
                None => c.profile.params.sin_freq,
            })
            &&& r.profile.params.sin_bias == (match o.profile.sin_bias {
                Some(v) => v,
                None => c.profile.params.sin_bias,
            })
            &&& r.plant.tau == (match o.plant.tau { Some(v) => v, None => c.plant.tau })
            &&& r.plant.gain == (match o.plant.gain { Some(v) => v, None => c.plant.gain })
        }),
{
}

/// Applying the same runtime overrides twice is the same as applying them once.
pub proof fn lemma_runtime_apply_twice_is_once<F>(config: RuntimeConfig<F>, overrides: RuntimeOverrides<F>)
    ensures
        config.applied(overrides).applied(overrides) == config.applied(overrides),
{
}

} // verus!
