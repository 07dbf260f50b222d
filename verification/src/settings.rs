//! Simulator settings: the defaults, a configuration file and the command
//! line merged in that order, and the parsing of obstacle coordinates.

use vstd::prelude::*;
use vstd::string::*;

use crate::config::control::{pick, ControlConfig, ControlOverrides};
use crate::paths::{config_dir, config_dir_of, resolve_csv, resolved};
use crate::profile::{invalid_profile_message, parse_v_profile, profile_named, VProfile};
use crate::text::{count_and_find, count_char, index_of, trim, trim_str};

verus! {

/// Settings of one simulator run. `F` is the runner's number type and `V` its
/// point type for obstacle positions.
#[derive(Debug, Clone)]
pub struct SimSettings<F, V> {
    pub hz: F,
    pub desired_v: F,
    pub control: ControlConfig<F>,
    pub v_profile: Option<VProfile>,
    pub step_at: F,
    pub sin_amp: F,
    pub sin_freq: F,
    pub sin_bias: F,
    pub px_per_m: F,
    pub tau: F,
    pub plant_gain: F,
    /// Path of the telemetry CSV file.
    pub csv: String,
    pub obstacles: Vec<V>,
}

/// The mathematical value of a `SimSettings`: the same settings, with the
/// obstacle list as a sequence.
pub ghost struct SimSettingsModel<F, V> {
    pub hz: F,
    pub desired_v: F,
    pub control: ControlConfig<F>,
    pub v_profile: Option<VProfile>,
    pub step_at: F,
    pub sin_amp: F,
    pub sin_freq: F,
    pub sin_bias: F,
    pub px_per_m: F,
    pub tau: F,
    pub plant_gain: F,
    pub csv: Seq<char>,
    pub obstacles: Seq<V>,
}

impl<F, V> View for SimSettings<F, V> {
    type V = SimSettingsModel<F, V>;

    open spec fn view(&self) -> SimSettingsModel<F, V> {
        SimSettingsModel {
            hz: self.hz,
            desired_v: self.desired_v,
            control: self.control,
            v_profile: self.v_profile,
            step_at: self.step_at,
            sin_amp: self.sin_amp,
            sin_freq: self.sin_freq,
            sin_bias: self.sin_bias,
            px_per_m: self.px_per_m,
            tau: self.tau,
            plant_gain: self.plant_gain,
            csv: self.csv@,
            obstacles: self.obstacles@,
        }
    }
}

/// Overrides read from a configuration file. `csv` is the path as written in
/// the file, and each obstacle entry has already been turned into a point or
/// an error message.
#[derive(Debug, Clone)]
pub struct FileOverrides<F, V> {
    pub hz: Option<F>,
    pub desired_v: Option<F>,
    pub kp: Option<F>,
    pub ki: Option<F>,
    pub kd: Option<F>,
    pub v_profile: Option<String>,
    pub step_at: Option<F>,
    pub sin_amp: Option<F>,
    pub sin_freq: Option<F>,
    pub sin_bias: Option<F>,
    pub threshold: Option<F>,
    pub hysteresis: Option<F>,
    pub safety_margin_ratio: Option<F>,
    pub adaptive: Option<bool>,
    pub e_small: Option<F>,
    pub e_large: Option<F>,
    pub gain_min: Option<F>,
    pub gain_max: Option<F>,
    pub px_per_m: Option<F>,
    pub tau: Option<F>,
    pub plant_gain: Option<F>,
    pub csv: Option<String>,
    pub obstacles: Option<Vec<Result<V, String>>>,
}

/// Overrides given on the command line. Each `--obstacle` argument has
/// already been turned into a point or an error message.
#[derive(Debug, Clone)]
pub struct OverrideArgs<F, V> {
    pub hz: Option<F>,
    pub desired_v: Option<F>,
    pub kp: Option<F>,
    pub ki: Option<F>,
    pub kd: Option<F>,
    pub v_profile: Option<String>,
    pub step_at: Option<F>,
    pub sin_amp: Option<F>,
    pub sin_freq: Option<F>,
    pub sin_bias: Option<F>,
    pub threshold: Option<F>,
    pub hysteresis: Option<F>,
    pub safety_margin_ratio: Option<F>,
    pub adaptive: Option<bool>,
    pub e_small: Option<F>,
    pub e_large: Option<F>,
    pub gain_min: Option<F>,
    pub gain_max: Option<F>,
    pub px_per_m: Option<F>,
    pub tau: Option<F>,
    pub plant_gain: Option<F>,
    pub csv: Option<String>,
    pub obstacles: Vec<Result<V, String>>,
}

// ---------------------------------------------------------------------------
// Obstacle lists.
// ---------------------------------------------------------------------------

/// The first error of a list of converted obstacles, if any.
pub open spec fn first_error<V>(items: Seq<Result<V, String>>) -> Option<String>
    decreases items.len(),
{
    if items.len() == 0 {
        None
    } else {
        match items[0] {
            Err(e) => Some(e),
            Ok(_) => first_error(items.drop_first()),
        }
    }
}

/// The points of a list of converted obstacles that holds no error.
pub open spec fn points<V>(items: Seq<Result<V, String>>) -> Seq<V> {
    items.map_values(|item: Result<V, String>| item->Ok_0)
}

/// The points of `items`, or its first error.
fn collect_points<V: Copy>(items: &Vec<Result<V, String>>) -> (r: Result<Vec<V>, String>)
    ensures
        first_error(items@) matches Some(e) ==> r == Err::<Vec<V>, String>(e),
        first_error(items@) is None ==> (r matches Ok(pts) && pts@ == points(items@)),
{
    let mut pts: Vec<V> = Vec::new();
    let mut i: usize = 0;
    proof {
        assert(items@.skip(0) =~= items@);
        assert(points(items@.take(0)) =~= Seq::<V>::empty());
    }
    while i < items.len()
        invariant
            i <= items@.len(),
            first_error(items@) == first_error(items@.skip(i as int)),
            forall|k: int| 0 <= k < i ==> items@[k] is Ok,
            pts@ == points(items@.take(i as int)),
        decreases items@.len() - i,
    {
        proof {
            assert(items@.skip(i as int).drop_first() =~= items@.skip(i + 1));
            assert(items@.skip(i as int)[0] == items@[i as int]);
        }
        match &items[i] {
            Ok(p) => {
                pts.push(*p);
                proof {
                    assert(points(items@.take(i + 1)) =~= points(items@.take(i as int)).push(*p));
                }
            },
            Err(e) => {
                return Err(e.clone());
            },
        }
        i = i + 1;
    }
    proof {
        assert(items@.take(i as int) =~= items@);
        assert(items@.skip(i as int) =~= Seq::<Result<V, String>>::empty());
    }
    Ok(pts)
}

// ---------------------------------------------------------------------------
// What merging a layer does.
// ---------------------------------------------------------------------------

/// The control overrides carried by a layer.
pub open spec fn control_part<F>(
    kp: Option<F>,
    ki: Option<F>,
    kd: Option<F>,
    threshold: Option<F>,
    hysteresis: Option<F>,
    safety_margin_ratio: Option<F>,
    adaptive: Option<bool>,
    e_small: Option<F>,
    e_large: Option<F>,
    gain_min: Option<F>,
    gain_max: Option<F>,
) -> ControlOverrides<F> {
    ControlOverrides {
        pid: crate::config::control::PidOverride { kp, ki, kd, limits: None },
        failsafe: crate::config::control::FailSafeOverride {
            threshold_m: threshold,
            hysteresis_m: hysteresis,
        },
        adaptive: crate::config::control::AdaptiveOverride {
            enabled: adaptive,
            e_small,
            e_large,
            gain_min,
            gain_max,
        },
        safety_margin: crate::config::control::SafetyMarginOverride {
            ratio_of_car_length: safety_margin_ratio,
        },
    }
}

impl<F, V> FileOverrides<F, V> {
    pub open spec fn control_spec(&self) -> ControlOverrides<F> {
        control_part(self.kp, self.ki, self.kd, self.threshold, self.hysteresis,
            self.safety_margin_ratio, self.adaptive, self.e_small, self.e_large, self.gain_min,
            self.gain_max)
    }
}

impl<F, V> OverrideArgs<F, V> {
    pub open spec fn control_spec(&self) -> ControlOverrides<F> {
        control_part(self.kp, self.ki, self.kd, self.threshold, self.hysteresis,
            self.safety_margin_ratio, self.adaptive, self.e_small, self.e_large, self.gain_min,
            self.gain_max)
    }
}

/// The text of an optional string.
pub open spec fn text_of(s: Option<String>) -> Option<Seq<char>> {
    match s {
        Some(t) => Some(t@),
        None => None,
    }
}

/// The CSV path a file layer sets, resolved against the file's directory.
pub open spec fn file_csv(csv: Option<String>, base_dir: Seq<char>) -> Option<Seq<char>> {
    match csv {
        Some(t) => Some(resolved(base_dir, t@)),
        None => None,
    }
}

/// Whether an optional profile name fails to parse.
pub open spec fn bad_profile(name: Option<String>) -> bool {
    name matches Some(n) && profile_named(n@) is None
}

/// The profile an optional, well-formed profile name leaves in place of `current`.
pub open spec fn profile_after(name: Option<String>, current: Option<VProfile>) -> Option<VProfile> {
    match name {
        Some(n) => profile_named(n@),
        None => current,
    }
}

impl<F, V> SimSettingsModel<F, V> {
    /// The loop rate and speed overridden.
    pub open spec fn with_loop(self, hz: Option<F>, desired_v: Option<F>) -> Self {
        SimSettingsModel { hz: pick(hz, self.hz), desired_v: pick(desired_v, self.desired_v), ..self }
    }

    /// The profile replaced by the one a well-formed name selects.
    pub open spec fn with_profile(self, v_profile: Option<String>) -> Self {
        SimSettingsModel { v_profile: profile_after(v_profile, self.v_profile), ..self }
    }

    /// The profile parameters and the plant and scene scalars overridden.
    pub open spec fn with_scalars(
        self,
        step_at: Option<F>,
        sin_amp: Option<F>,
        sin_freq: Option<F>,
        sin_bias: Option<F>,
        px_per_m: Option<F>,
        tau: Option<F>,
        plant_gain: Option<F>,
    ) -> Self {
        SimSettingsModel {
            step_at: pick(step_at, self.step_at),
            sin_amp: pick(sin_amp, self.sin_amp),
            sin_freq: pick(sin_freq, self.sin_freq),
            sin_bias: pick(sin_bias, self.sin_bias),
            px_per_m: pick(px_per_m, self.px_per_m),
            tau: pick(tau, self.tau),
            plant_gain: pick(plant_gain, self.plant_gain),
            ..self
        }
    }

    /// The CSV path replaced, when a replacement is given.
    pub open spec fn with_csv(self, csv: Option<Seq<char>>) -> Self {
        SimSettingsModel { csv: pick(csv, self.csv), ..self }
    }

    /// The obstacle list replaced, when a replacement is given.
    pub open spec fn with_obstacles(self, obstacles: Option<Seq<V>>) -> Self {
        match obstacles {
            Some(o) => SimSettingsModel { obstacles: o, ..self },
            None => self,
        }
    }

    /// The control configuration with `o` applied.
    pub open spec fn with_control(self, o: ControlOverrides<F>) -> Self {
        SimSettingsModel { control: self.control.applied(o), ..self }
    }

    /// The settings after merging a file layer, and the error, if any. On an
    /// error the settings keep what was merged before it was found.
    ///
    /// A relative CSV path in the file is taken from the file's directory
    /// `base_dir`.
    pub open spec fn file_outcome(self, cfg: FileOverrides<F, V>, base_dir: Seq<char>) -> (Self, Option<Seq<char>>) {
        let s0 = self.with_loop(cfg.hz, cfg.desired_v);
        if bad_profile(cfg.v_profile) {
            (s0, Some(invalid_profile_message(cfg.v_profile->Some_0@)))
        } else {
            let s1 = s0.with_profile(cfg.v_profile).with_scalars(cfg.step_at, cfg.sin_amp,
                cfg.sin_freq, cfg.sin_bias, cfg.px_per_m, cfg.tau, cfg.plant_gain).with_csv(file_csv(cfg.csv, base_dir));
            match cfg.obstacles {
                Some(list) => match first_error(list@) {
                    Some(e) => (s1, Some(e@)),
                    None => (s1.with_obstacles(Some(points(list@))).with_control(cfg.control_spec()), None),
                },
                None => (s1.with_control(cfg.control_spec()), None),
            }
        }
    }

    /// The settings after merging a command-line layer, and the error, if
    /// any. An empty obstacle list leaves the obstacles alone.
    pub open spec fn cli_outcome(self, args: OverrideArgs<F, V>) -> (Self, Option<Seq<char>>) {
        let s0 = self.with_loop(args.hz, args.desired_v);
        if bad_profile(args.v_profile) {
            (s0, Some(invalid_profile_message(args.v_profile->Some_0@)))
        } else {
            let s1 = s0.with_profile(args.v_profile).with_scalars(args.step_at, args.sin_amp,
                args.sin_freq, args.sin_bias, args.px_per_m, args.tau, args.plant_gain).with_csv(
                text_of(args.csv));
            if args.obstacles@.len() == 0 {
                (s1.with_control(args.control_spec()), None)
            } else {
                match first_error(args.obstacles@) {
                    Some(e) => (s1, Some(e@)),
                    None => (s1.with_obstacles(Some(points(args.obstacles@))).with_control(
                        args.control_spec(),
                    ), None),
                }
            }
        }
    }
}

// ---------------------------------------------------------------------------
// Executable merge.
// ---------------------------------------------------------------------------

impl<F: Copy, V> FileOverrides<F, V> {
    /// The controller overrides this file sets.
    pub fn control_overrides(&self) -> (o: ControlOverrides<F>)
        ensures
            o == self.control_spec(),
            o.pid.kp == self.kp,
            o.pid.ki == self.ki,
            o.pid.kd == self.kd,
            o.failsafe.threshold_m == self.threshold,
            o.failsafe.hysteresis_m == self.hysteresis,
            o.safety_margin.ratio_of_car_length == self.safety_margin_ratio,
            o.adaptive.enabled == self.adaptive,
            o.adaptive.e_small == self.e_small,
            o.adaptive.e_large == self.e_large,
            o.adaptive.gain_min == self.gain_min,
            o.adaptive.gain_max == self.gain_max,
            o.pid.limits is None,
    {
        let mut overrides = ControlOverrides::default();
        overrides.pid.kp = self.kp;
        overrides.pid.ki = self.ki;
        overrides.pid.kd = self.kd;
        overrides.failsafe.threshold_m = self.threshold;
        overrides.failsafe.hysteresis_m = self.hysteresis;
        overrides.safety_margin.ratio_of_car_length = self.safety_margin_ratio;
        overrides.adaptive.enabled = self.adaptive;
        overrides.adaptive.e_small = self.e_small;
        overrides.adaptive.e_large = self.e_large;
        overrides.adaptive.gain_min = self.gain_min;
        overrides.adaptive.gain_max = self.gain_max;
        overrides
    }
}

impl<F: Copy, V> OverrideArgs<F, V> {
    /// The controller overrides these arguments set.
    pub fn control_overrides(&self) -> (o: ControlOverrides<F>)
        ensures
            o == self.control_spec(),
            o.pid.kp == self.kp,
            o.pid.ki == self.ki,
            o.pid.kd == self.kd,
            o.failsafe.threshold_m == self.threshold,
            o.failsafe.hysteresis_m == self.hysteresis,
            o.safety_margin.ratio_of_car_length == self.safety_margin_ratio,
            o.adaptive.enabled == self.adaptive,
            o.adaptive.e_small == self.e_small,
            o.adaptive.e_large == self.e_large,
            o.adaptive.gain_min == self.gain_min,
            o.adaptive.gain_max == self.gain_max,
            o.pid.limits is None,
    {
        let mut overrides = ControlOverrides::default();
        overrides.pid.kp = self.kp;
        overrides.pid.ki = self.ki;
        overrides.pid.kd = self.kd;
        overrides.failsafe.threshold_m = self.threshold;
        overrides.failsafe.hysteresis_m = self.hysteresis;
        overrides.safety_margin.ratio_of_car_length = self.safety_margin_ratio;
        overrides.adaptive.enabled = self.adaptive;
        overrides.adaptive.e_small = self.e_small;
        overrides.adaptive.e_large = self.e_large;
        overrides.adaptive.gain_min = self.gain_min;
        overrides.adaptive.gain_max = self.gain_max;
        overrides
    }
}

impl<F, V> FileOverrides<F, V> {
    /// The file sets nothing.
    pub open spec fn is_empty(&self) -> bool {
        &&& self.hz is None
        &&& self.desired_v is None
        &&& self.v_profile is None
        &&& self.step_at is None
        &&& self.sin_amp is None
        &&& self.sin_freq is None
        &&& self.sin_bias is None
        &&& self.px_per_m is None
        &&& self.tau is None
        &&& self.plant_gain is None
        &&& self.csv is None
        &&& self.obstacles is None
        &&& self.control_spec().is_empty()
    }
}

impl<F, V> OverrideArgs<F, V> {
    /// The command line sets nothing.
    pub open spec fn is_empty(&self) -> bool {
        &&& self.hz is None
        &&& self.desired_v is None
        &&& self.v_profile is None
        &&& self.step_at is None
        &&& self.sin_amp is None
        &&& self.sin_freq is None
        &&& self.sin_bias is None
        &&& self.px_per_m is None
        &&& self.tau is None
        &&& self.plant_gain is None
        &&& self.csv is None
        &&& self.obstacles@.len() == 0
        &&& self.control_spec().is_empty()
    }
}

impl<F, V> Default for FileOverrides<F, V> {
    fn default() -> (o: Self)
        ensures
            o.is_empty(),
    {
        FileOverrides {
            hz: None,
            desired_v: None,
            kp: None,
            ki: None,
            kd: None,
            v_profile: None,
            step_at: None,
            sin_amp: None,
            sin_freq: None,
            sin_bias: None,
            threshold: None,
            hysteresis: None,
            safety_margin_ratio: None,
            adaptive: None,
            e_small: None,
            e_large: None,
            gain_min: None,
            gain_max: None,
            px_per_m: None,
            tau: None,
            plant_gain: None,
            csv: None,
            obstacles: None,
        }
    }
}

impl<F, V> Default for OverrideArgs<F, V> {
    fn default() -> (o: Self)
        ensures
            o.is_empty(),
    {
        OverrideArgs {
            hz: None,
            desired_v: None,
            kp: None,
            ki: None,
            kd: None,
            v_profile: None,
            step_at: None,
            sin_amp: None,
            sin_freq: None,
            sin_bias: None,
            threshold: None,
            hysteresis: None,
            safety_margin_ratio: None,
            adaptive: None,
            e_small: None,
            e_large: None,
            gain_min: None,
            gain_max: None,
            px_per_m: None,
            tau: None,
            plant_gain: None,
            csv: None,
            obstacles: Vec::new(),
        }
    }
}

/// An empty layer, from a file or from the command line, changes nothing.
pub proof fn lemma_empty_layers_change_nothing<F, V>(
    start: SimSettingsModel<F, V>,
    file: FileOverrides<F, V>,
    base_dir: Seq<char>,
    args: OverrideArgs<F, V>,
)
    requires
        file.is_empty(),
        args.is_empty(),
    ensures
        start.file_outcome(file, base_dir) == (start, None::<Seq<char>>),
        start.cli_outcome(args) == (start, None::<Seq<char>>),
{
    crate::config::control::lemma_empty_overrides_change_nothing(start.control, file.control_spec());
    crate::config::control::lemma_empty_overrides_change_nothing(start.control, args.control_spec());
}

/// Replaces `*field` when `setting` is set.
fn assign<T: Copy>(field: &mut T, setting: Option<T>)
    ensures
        *final(field) == pick(setting, *old(field)),
{
    if let Some(v) = setting {
        *field = v;
    }
}

impl<F: Copy, V: Copy> SimSettings<F, V> {
    /// The telemetry CSV path.
    pub fn csv_path(&self) -> (p: &str)
        ensures
            p@ == self.csv@,
    {
        self.csv.as_str()
    }

    fn apply_loop(&mut self, hz: Option<F>, desired_v: Option<F>)
        ensures
            final(self)@ == old(self)@.with_loop(hz, desired_v),
    {
        assign(&mut self.hz, hz);
        assign(&mut self.desired_v, desired_v);
    }

    /// Parses and installs an optional profile name; on a bad name nothing changes.
    fn apply_profile(&mut self, name: &Option<String>) -> (r: Result<(), String>)
        ensures
            r is Err <==> bad_profile(*name),
            r matches Err(m) ==> m@ == invalid_profile_message(name->Some_0@),
            r is Ok ==> final(self)@ == old(self)@.with_profile(*name),
            r is Err ==> final(self)@ == old(self)@,
    {
        if let Some(value) = name {
            match parse_v_profile(value.as_str()) {
                Ok(parsed) => {
                    self.v_profile = Some(parsed);
                },
                Err(e) => {
                    return Err(e);
                },
            }
        }
        Ok(())
    }

    fn apply_scalars(
        &mut self,
        step_at: Option<F>,
        sin_amp: Option<F>,
        sin_freq: Option<F>,
        sin_bias: Option<F>,
        px_per_m: Option<F>,
        tau: Option<F>,
        plant_gain: Option<F>,
    )
        ensures
            final(self)@ == old(self)@.with_scalars(step_at, sin_amp, sin_freq, sin_bias, px_per_m,
                tau, plant_gain),
    {
        assign(&mut self.step_at, step_at);
        assign(&mut self.sin_amp, sin_amp);
        assign(&mut self.sin_freq, sin_freq);
        assign(&mut self.sin_bias, sin_bias);
        assign(&mut self.px_per_m, px_per_m);
        assign(&mut self.tau, tau);
        assign(&mut self.plant_gain, plant_gain);
    }

    /// Installs the points of `list`, or returns its first error and changes nothing.
    fn apply_obstacles(&mut self, list: &Vec<Result<V, String>>) -> (r: Result<(), String>)
        ensures
            first_error(list@) matches Some(e) ==> r == Err::<(), String>(e) && final(self)@
                == old(self)@,
            first_error(list@) is None ==> r is Ok && final(self)@ == old(self)@.with_obstacles(
                Some(points(list@)),
            ),
    {
        match collect_points(list) {
            Ok(pts) => {
                self.obstacles = pts;
                Ok(())
            },
            Err(e) => Err(e),
        }
    }

    fn apply_control(&mut self, o: &ControlOverrides<F>)
        ensures
            final(self)@ == old(self)@.with_control(*o),
    {
        self.control.apply_overrides(o);
    }

    /// Merges a configuration-file layer: every set value replaces the
    /// current one, a profile name must parse, an obstacle list replaces the
    /// current one only when none of its entries is an error, and the
    /// controller overrides are applied last. A relative CSV path is taken
    /// from `base_dir`, the directory of the file. On an error the merge stops
    /// where the error was found.
    pub fn apply_file(&mut self, cfg: FileOverrides<F, V>, base_dir: &str) -> (r: Result<(), String>)
        ensures
            final(self)@ == old(self)@.file_outcome(cfg, base_dir@).0,
            r is Err <==> old(self)@.file_outcome(cfg, base_dir@).1 is Some,
            r matches Err(m) ==> old(self)@.file_outcome(cfg, base_dir@).1 == Some(m@),
    {
        let control_overrides = cfg.control_overrides();
        self.apply_loop(cfg.hz, cfg.desired_v);
        let profile = self.apply_profile(&cfg.v_profile);
        if let Err(e) = profile {
            return Err(e);
        }
        self.apply_scalars(cfg.step_at, cfg.sin_amp, cfg.sin_freq, cfg.sin_bias, cfg.px_per_m,
            cfg.tau, cfg.plant_gain);
        if let Some(value) = cfg.csv {
            self.csv = resolve_csv(value.as_str(), base_dir);
        }
        if let Some(list) = cfg.obstacles {
            let placed = self.apply_obstacles(&list);
            if let Err(e) = placed {
                return Err(e);
            }
        }
        self.apply_control(&control_overrides);
        Ok(())
    }

    /// Merges the command-line layer, as `apply_file` does for a file, except
    /// that an empty obstacle list leaves the obstacles alone.
    pub fn apply_cli(&mut self, overrides: &OverrideArgs<F, V>) -> (r: Result<(), String>)
        ensures
            final(self)@ == old(self)@.cli_outcome(*overrides).0,
            r is Err <==> old(self)@.cli_outcome(*overrides).1 is Some,
            r matches Err(m) ==> old(self)@.cli_outcome(*overrides).1 == Some(m@),
    {
        let control_overrides = overrides.control_overrides();
        self.apply_loop(overrides.hz, overrides.desired_v);
        let profile = self.apply_profile(&overrides.v_profile);
        if let Err(e) = profile {
            return Err(e);
        }
        self.apply_scalars(overrides.step_at, overrides.sin_amp, overrides.sin_freq,
            overrides.sin_bias, overrides.px_per_m, overrides.tau, overrides.plant_gain);
        if let Some(value) = &overrides.csv {
            self.csv = value.clone();
        }
        if overrides.obstacles.len() != 0 {
            let placed = self.apply_obstacles(&overrides.obstacles);
            if let Err(e) = placed {
                return Err(e);
            }
        }
        self.apply_control(&control_overrides);
        Ok(())
    }
}

impl<F, V> SimSettingsModel<F, V> {
    /// The settings after an optional file layer (with the path of the file
    /// it was read from) and then the command-line layer, or the first error
    /// met. A relative CSV path in the file is taken from the file's directory.
    pub open spec fn layered(
        self,
        file: Option<(FileOverrides<F, V>, String)>,
        args: OverrideArgs<F, V>,
    ) -> Result<Self, Seq<char>> {
        let after_file = match file {
            Some((cfg, config_path)) => self.file_outcome(cfg, config_dir_of(config_path@)),
            None => (self, None),
        };
        match after_file.1 {
            Some(e) => Err(e),
            None => {
                let after_cli = after_file.0.cli_outcome(args);
                match after_cli.1 {
                    Some(e) => Err(e),
                    None => Ok(after_cli.0),
                }
            },
        }
    }
}

impl<F: Copy, V: Copy> SimSettings<F, V> {
    /// The settings of a run: `start` (the defaults), then the configuration
    /// file's layer when there is one (with the path the file was read from,
    /// whose directory relative CSV paths in it are taken from), then the
    /// command line's, stopping at the first error.
    pub fn merge_layers(
        start: Self,
        file: Option<(FileOverrides<F, V>, String)>,
        args: &OverrideArgs<F, V>,
    ) -> (r: Result<Self, String>)
        ensures
            r is Ok <==> start@.layered(file, *args) is Ok,
            r matches Ok(s) ==> start@.layered(file, *args) == Ok::<SimSettingsModel<F, V>, Seq<char>>(s@),
            r matches Err(m) ==> start@.layered(file, *args) == Err::<SimSettingsModel<F, V>, Seq<char>>(m@),
    {
        let mut settings = start;
        if let Some((cfg, config_path)) = file {
            let base_dir = config_dir(config_path.as_str());
            let applied = settings.apply_file(cfg, base_dir.as_str());
            if let Err(e) = applied {
                return Err(e);
            }
        }
        let applied = settings.apply_cli(args);
        if let Err(e) = applied {
            return Err(e);
        }
        Ok(settings)
    }
}

/// A file layer followed by a command-line layer: every setting the command
/// line sets wins over the file, which wins over the starting value (a CSV
/// path from the file being taken from the directory of the file's path),
/// and the controller configuration is the starting one with the two layers
/// of controller overrides merged, the command line's winning.
pub proof fn lemma_cli_over_file<F, V>(
    start: SimSettingsModel<F, V>,
    file: FileOverrides<F, V>,
    config_path: String,
    args: OverrideArgs<F, V>,
)
    requires
        start.layered(Some((file, config_path)), args) is Ok,
    ensures
        ({
            let end = start.layered(Some((file, config_path)), args)->Ok_0;
            &&& end.control == start.control.applied(
                file.control_spec().followed_by(args.control_spec()),
            )
            &&& end.hz == pick(args.hz, pick(file.hz, start.hz))
            &&& end.desired_v == pick(args.desired_v, pick(file.desired_v, start.desired_v))
            &&& end.v_profile == profile_after(args.v_profile, profile_after(file.v_profile, start.v_profile))
            &&& end.step_at == pick(args.step_at, pick(file.step_at, start.step_at))
            &&& end.sin_amp == pick(args.sin_amp, pick(file.sin_amp, start.sin_amp))
            &&& end.sin_freq == pick(args.sin_freq, pick(file.sin_freq, start.sin_freq))
            &&& end.sin_bias == pick(args.sin_bias, pick(file.sin_bias, start.sin_bias))
            &&& end.px_per_m == pick(args.px_per_m, pick(file.px_per_m, start.px_per_m))
            &&& end.tau == pick(args.tau, pick(file.tau, start.tau))
            &&& end.plant_gain == pick(args.plant_gain, pick(file.plant_gain, start.plant_gain))
            &&& end.csv == pick(text_of(args.csv), pick(file_csv(file.csv, config_dir_of(config_path@)), start.csv))
            &&& end.obstacles == (if args.obstacles@.len() > 0 {
                points(args.obstacles@)
            } else if file.obstacles is Some {
                points(file.obstacles->Some_0@)
            } else {
                start.obstacles
            })
        }),
{
    crate::config::control::lemma_layers_compose(
        start.control,
        file.control_spec(),
        args.control_spec(),
    );
}

/// A CSV path given in a configuration file is taken relative to the file's
/// directory: once the file's layer is merged (whether or not an obstacle
/// error stops it afterwards), a relative path is that directory joined with
/// it and an absolute path is kept as written.
pub proof fn lemma_file_csv_resolved_against_file_dir<F, V>(
    start: SimSettingsModel<F, V>,
    cfg: FileOverrides<F, V>,
    base_dir: Seq<char>,
)
    requires
        !bad_profile(cfg.v_profile),
        cfg.csv is Some,
    ensures
        start.file_outcome(cfg, base_dir).0.csv == (if crate::paths::path_is_relative(
            cfg.csv->Some_0@,
        ) {
            crate::paths::path_joined(base_dir, cfg.csv->Some_0@)
        } else {
            cfg.csv->Some_0@
        }),
{
}

/// Every controller setting a configuration file gives lands in the matching
/// part of the merged controller configuration; settings the file leaves out
/// keep their values, and the PID limits are not touched.
pub proof fn lemma_file_layer_sets_controller<F, V>(
    start: SimSettingsModel<F, V>,
    cfg: FileOverrides<F, V>,
    base_dir: Seq<char>,
)
    requires
        start.file_outcome(cfg, base_dir).1 is None,
    ensures
        ({
            let end = start.file_outcome(cfg, base_dir).0;
            &&& end.control.pid.kp == (match cfg.kp { Some(v) => v, None => start.control.pid.kp })
            &&& end.control.pid.ki == (match cfg.ki { Some(v) => v, None => start.control.pid.ki })
            &&& end.control.pid.kd == (match cfg.kd { Some(v) => v, None => start.control.pid.kd })
            &&& end.control.failsafe.threshold_m == (match cfg.threshold { Some(v) => v, None => start.control.failsafe.threshold_m })
            &&& end.control.failsafe.hysteresis_m == (match cfg.hysteresis { Some(v) => v, None => start.control.failsafe.hysteresis_m })
            &&& end.control.safety_margin.ratio_of_car_length == (match cfg.safety_margin_ratio { Some(v) => v, None => start.control.safety_margin.ratio_of_car_length })
            &&& end.control.adaptive.enabled == (match cfg.adaptive { Some(v) => v, None => start.control.adaptive.enabled })
            &&& end.control.adaptive.e_small == (match cfg.e_small { Some(v) => v, None => start.control.adaptive.e_small })
            &&& end.control.adaptive.e_large == (match cfg.e_large { Some(v) => v, None => start.control.adaptive.e_large })
            &&& end.control.adaptive.gain_min == (match cfg.gain_min { Some(v) => v, None => start.control.adaptive.gain_min })
            &&& end.control.adaptive.gain_max == (match cfg.gain_max { Some(v) => v, None => start.control.adaptive.gain_max })
            &&& end.control.pid.limits == start.control.pid.limits
        }),
{
    crate::config::control::lemma_override_sets_each_field(start.control, cfg.control_spec());
}

/// Every controller flag given on the command line lands in the matching part
/// of the merged controller configuration; flags not given keep their values,
/// and the PID limits are not touched.
pub proof fn lemma_cli_layer_sets_controller<F, V>(
    start: SimSettingsModel<F, V>,
    args: OverrideArgs<F, V>,
)
    requires
        start.cli_outcome(args).1 is None,
    ensures
        ({
            let end = start.cli_outcome(args).0;
            &&& end.control.pid.kp == (match args.kp { Some(v) => v, None => start.control.pid.kp })
            &&& end.control.pid.ki == (match args.ki { Some(v) => v, None => start.control.pid.ki })
            &&& end.control.pid.kd == (match args.kd { Some(v) => v, None => start.control.pid.kd })
            &&& end.control.failsafe.threshold_m == (match args.threshold { Some(v) => v, None => start.control.failsafe.threshold_m })
            &&& end.control.failsafe.hysteresis_m == (match args.hysteresis { Some(v) => v, None => start.control.failsafe.hysteresis_m })
            &&& end.control.safety_margin.ratio_of_car_length == (match args.safety_margin_ratio { Some(v) => v, None => start.control.safety_margin.ratio_of_car_length })
            &&& end.control.adaptive.enabled == (match args.adaptive { Some(v) => v, None => start.control.adaptive.enabled })
            &&& end.control.adaptive.e_small == (match args.e_small { Some(v) => v, None => start.control.adaptive.e_small })
            &&& end.control.adaptive.e_large == (match args.e_large { Some(v) => v, None => start.control.adaptive.e_large })
            &&& end.control.adaptive.gain_min == (match args.gain_min { Some(v) => v, None => start.control.adaptive.gain_min })
            &&& end.control.adaptive.gain_max == (match args.gain_max { Some(v) => v, None => start.control.adaptive.gain_max })
            &&& end.control.pid.limits == start.control.pid.limits
        }),
{
    crate::config::control::lemma_override_sets_each_field(start.control, args.control_spec());
}

/// The message for an obstacle that is not of the form `x,y`.
pub open spec fn invalid_obstacle_message(value: Seq<char>) -> Seq<char> {
    "invalid obstacle '"@ + value + "', expected format 'x,y'"@
}

/// Splits an obstacle written `x,y` at its one comma and trims both fields;
/// the caller turns the fields into coordinates. A value without exactly one
/// comma is refused.
pub fn obstacle_fields(value: &str) -> (r: Result<(&str, &str), String>)
    ensures
        r is Ok <==> count_char(value@, ',') == 1,
        r matches Ok(fields) ==> {
            let k = index_of(value@, ',');
            &&& fields.0@ == trim(value@.take(k))
            &&& fields.1@ == trim(value@.skip(k + 1))
        },
        r matches Err(msg) ==> msg@ == invalid_obstacle_message(value@),
{
    let (count, first) = count_and_find(value, ',');
    proof {
        if count > 0 {
            lemma_found_when_counted(value@, ',');
        }
    }
    if count != 1 || first.is_none() {
        let mut msg = String::from_str("invalid obstacle '");
        msg.append(value);
        msg.append("', expected format 'x,y'");
        return Err(msg);
    }
    let n = value.unicode_len();
    let k = first.unwrap();
    let x = trim_str(value.substring_char(0, k));
    let y = trim_str(value.substring_char(k + 1, n));
    proof {
        assert(value@.subrange(0, k as int) =~= value@.take(k as int));
        assert(value@.subrange(k + 1, n as int) =~= value@.skip(k + 1));
    }
    Ok((x, y))
}

/// A character that occurs is found, within bounds.
proof fn lemma_found_when_counted(s: Seq<char>, c: char)
    requires
        count_char(s, c) > 0,
    ensures
        0 <= index_of(s, c) < s.len(),
        s[index_of(s, c)] == c,
    decreases s.len(),
{
    if index_of(s.drop_last(), c) >= 0 {
        lemma_index_in_bounds(s.drop_last(), c);
    } else if s.last() != c {
        lemma_not_found_uncounted(s.drop_last(), c);
    }
}

proof fn lemma_index_in_bounds(s: Seq<char>, c: char)
    requires
        index_of(s, c) >= 0,
    ensures
        index_of(s, c) < s.len(),
        s[index_of(s, c)] == c,
    decreases s.len(),
{
    if s.len() > 0 && index_of(s.drop_last(), c) >= 0 {
        lemma_index_in_bounds(s.drop_last(), c);
    }
}

proof fn lemma_not_found_uncounted(s: Seq<char>, c: char)
    requires
        index_of(s, c) < 0,
    ensures
        count_char(s, c) == 0,
    decreases s.len(),
{
    if s.len() > 0 {
        lemma_not_found_uncounted(s.drop_last(), c);
    }
}

} // verus!
