use vstd::prelude::*;

verus! {

/// Opacity, in per-mille, of a fully opaque flake.
pub const OPACITY_FULL: u32 = 1000;

/// Flakes in the pool for each step of intensity.
pub const FLAKES_PER_INTENSITY: usize = 50;

/// The settings of the effect. Sizes are radii in milli-pixels, speeds and
/// drift in milli-pixels per second, and `max_opacity` in per-mille.
#[derive(Clone, Copy, Debug, PartialEq, Eq, Structural)]
pub struct SnowConfig {
    pub intensity: u8,
    pub size_min: u32,
    pub size_max: u32,
    pub speed_min: u32,
    pub speed_max: u32,
    pub drift: u32,
    pub max_opacity: u32,
}

impl SnowConfig {
    pub open spec fn wf(&self) -> bool {
        self.max_opacity <= OPACITY_FULL
    }

    /// Number of flakes that this configuration asks for.
    pub open spec fn pool_size(&self) -> nat {
        (self.intensity * FLAKES_PER_INTENSITY) as nat
    }

    /// The defaults: intensity 3, radius 2 to 5 px, speed 30 to 80 px/s,
    /// drift 20 px/s, fully opaque.
    pub open spec fn defaults() -> SnowConfig {
        SnowConfig {
            intensity: 3,
            size_min: 2000,
            size_max: 5000,
            speed_min: 30000,
            speed_max: 80000,
            drift: 20000,
            max_opacity: OPACITY_FULL,
        }
    }

    /// Number of flakes that this configuration asks for.
    pub fn flake_count(&self) -> (r: usize)
        ensures
            r == self.pool_size(),
    {
        self.intensity as usize * FLAKES_PER_INTENSITY
    }
}

impl Default for SnowConfig {
    fn default() -> (r: SnowConfig)
        ensures
            r == SnowConfig::defaults(),
    {
        SnowConfig {
            intensity: 3,
            size_min: 2000,
            size_max: 5000,
            speed_min: 30000,
            speed_max: 80000,
            drift: 20000,
            max_opacity: OPACITY_FULL,
        }
    }
}

/// A configuration that has been reloaded from disk.
#[derive(Clone, Copy, Debug, PartialEq, Eq, Structural)]
pub enum ConfigEvent {
    ConfigChanged(SnowConfig),
}

/// The values found in the configuration file, each absent where the file
/// does not set it. Units are those of `SnowConfig`; `max_opacity` is in
/// per-mille and may lie outside `0..=1000`.
#[derive(Clone, Copy, Debug, PartialEq, Eq, Structural)]
pub struct FileSettings {
    pub intensity: Option<i64>,
    pub size_min: Option<u32>,
    pub size_max: Option<u32>,
    pub speed_min: Option<u32>,
    pub speed_max: Option<u32>,
    pub drift: Option<u32>,
    pub max_opacity: Option<i64>,
}

/// Overrides given on the command line. Units are those of `SnowConfig`;
/// `max_opacity` is in per-mille and may lie outside `0..=1000`.
#[derive(Debug)]
pub struct Args {
    pub intensity: Option<u8>,
    pub size_min: Option<u32>,
    pub size_max: Option<u32>,
    pub speed_min: Option<u32>,
    pub speed_max: Option<u32>,
    pub drift: Option<u32>,
    pub max_opacity: Option<i64>,
    pub image_paths: Option<Vec<String>>,
}

pub open spec fn clamp(v: int, lo: int, hi: int) -> int {
    if v < lo {
        lo
    } else if v > hi {
        hi
    } else {
        v
    }
}

pub open spec fn or_default<T>(v: Option<T>, d: T) -> T {
    match v {
        Some(x) => x,
        None => d,
    }
}

fn clamp_i64(v: i64, lo: i64, hi: i64) -> (r: i64)
    requires
        lo <= hi,
    ensures
        r == clamp(v as int, lo as int, hi as int),
{
    if v < lo {
        lo
    } else if v > hi {
        hi
    } else {
        v
    }
}

/// The configuration that file settings give. `None` stands for a file that
/// is missing or does not parse, and gives the defaults.
pub open spec fn config_from_file(file: Option<FileSettings>) -> SnowConfig {
    let d = SnowConfig::defaults();
    match file {
        None => d,
        Some(f) => SnowConfig {
            intensity: match f.intensity {
                Some(v) => clamp(v as int, 1, 10) as u8,
                None => d.intensity,
            },
            size_min: or_default(f.size_min, d.size_min),
            size_max: or_default(f.size_max, d.size_max),
            speed_min: or_default(f.speed_min, d.speed_min),
            speed_max: or_default(f.speed_max, d.speed_max),
            drift: or_default(f.drift, d.drift),
            max_opacity: match f.max_opacity {
                Some(v) => clamp(v as int, 0, OPACITY_FULL as int) as u32,
                None => d.max_opacity,
            },
        },
    }
}

/// Builds the configuration from the values read from the configuration
/// file: intensity is held to `1..=10`, opacity to `0..=1000` per-mille, and
/// every value the file does not set takes its default.
pub fn load_config(file: Option<FileSettings>) -> (r: SnowConfig)
    ensures
        r == config_from_file(file),
        r.wf(),
{
    let mut config = SnowConfig::default();
    if let Some(f) = file {
        if let Some(v) = f.intensity {
            config.intensity = clamp_i64(v, 1, 10) as u8;
        }
        if let Some(v) = f.size_min {
            config.size_min = v;
        }
        if let Some(v) = f.size_max {
            config.size_max = v;
        }
        if let Some(v) = f.speed_min {
            config.speed_min = v;
        }
        if let Some(v) = f.speed_max {
            config.speed_max = v;
        }
        if let Some(v) = f.drift {
            config.drift = v;
        }
        if let Some(v) = f.max_opacity {
            config.max_opacity = clamp_i64(v, 0, OPACITY_FULL as i64) as u32;
        }
    }
    config
}

/// Lets each option given on the command line replace the setting; opacity
/// is held to `0..=1000` per-mille.
pub fn apply_cli_overrides(config: &mut SnowConfig, args: &Args)
    ensures
        final(config).intensity == or_default(args.intensity, old(config).intensity),
        final(config).size_min == or_default(args.size_min, old(config).size_min),
        final(config).size_max == or_default(args.size_max, old(config).size_max),
        final(config).speed_min == or_default(args.speed_min, old(config).speed_min),
        final(config).speed_max == or_default(args.speed_max, old(config).speed_max),
        final(config).drift == or_default(args.drift, old(config).drift),
        final(config).max_opacity == match args.max_opacity {
            Some(v) => clamp(v as int, 0, OPACITY_FULL as int),
            None => old(config).max_opacity as int,
        },
        old(config).wf() ==> final(config).wf(),
{
    if let Some(v) = args.intensity {
        config.intensity = v;
    }
    if let Some(v) = args.size_min {
        config.size_min = v;
    }
    if let Some(v) = args.size_max {
        config.size_max = v;
    }
    if let Some(v) = args.speed_min {
        config.speed_min = v;
    }
    if let Some(v) = args.speed_max {
        config.speed_max = v;
    }
    if let Some(v) = args.drift {
        config.drift = v;
    }
    if let Some(v) = args.max_opacity {
        config.max_opacity = clamp_i64(v, 0, OPACITY_FULL as i64) as u32;
    }
}

/// Whether a change seen by the file watcher calls for a reload: it must
/// modify or create the configuration file itself, and come more than
/// `debounce` microseconds after the last reload.
pub fn should_reload(
    modifies_or_creates: bool,
    changed_files: &Vec<String>,
    config_file: &String,
    since_last_reload: u64,
    debounce: u64,
) -> (r: bool)
    ensures
        r == (modifies_or_creates && (exists|i: int|
            0 <= i < changed_files@.len() && changed_files@[i]@ == config_file@)
            && since_last_reload > debounce),
{
    if !modifies_or_creates || since_last_reload <= debounce {
        return false;
    }
    let mut i: usize = 0;
    while i < changed_files.len()
        invariant
            i <= changed_files@.len(),
            modifies_or_creates,
            since_last_reload > debounce,
            forall|j: int| 0 <= j < i ==> changed_files@[j]@ != config_file@,
        decreases changed_files@.len() - i,
    {
        if changed_files[i].eq(config_file) {
            assert(changed_files@[i as int]@ == config_file@);
            return true;
        }
        i = i + 1;
    }
    false
}

} // verus!
