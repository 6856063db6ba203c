use hyprsnow::config::{apply_cli_overrides, load_config, should_reload, Args, FileSettings, SnowConfig};
use hyprsnow::random::{pick_index, uniform};

fn no_settings() -> FileSettings {
    FileSettings {
        intensity: None,
        size_min: None,
        size_max: None,
        speed_min: None,
        speed_max: None,
        drift: None,
        max_opacity: None,
    }
}

fn no_args() -> Args {
    Args {
        intensity: None,
        size_min: None,
        size_max: None,
        speed_min: None,
        speed_max: None,
        drift: None,
        max_opacity: None,
        image_paths: None,
    }
}

#[test]
fn defaults_match_documented_values() {
    let d = SnowConfig::default();
    assert_eq!(
        d,
        SnowConfig {
            intensity: 3,
            size_min: 2_000,
            size_max: 5_000,
            speed_min: 30_000,
            speed_max: 80_000,
            drift: 20_000,
            max_opacity: 1000,
        }
    );
    assert_eq!(d.flake_count(), 150);
}

#[test]
fn missing_file_gives_defaults() {
    assert_eq!(load_config(None), SnowConfig::default());
    assert_eq!(load_config(Some(no_settings())), SnowConfig::default());
}

#[test]
fn file_values_are_clamped() {
    let high = FileSettings { intensity: Some(42), max_opacity: Some(1500), drift: Some(5_000), ..no_settings() };
    let c = load_config(Some(high));
    assert_eq!(c.intensity, 10);
    assert_eq!(c.max_opacity, 1000);
    assert_eq!(c.drift, 5_000);
    assert_eq!(c.size_min, 2_000);
    let low = FileSettings { intensity: Some(-3), max_opacity: Some(-20), ..no_settings() };
    let c = load_config(Some(low));
    assert_eq!((c.intensity, c.max_opacity), (1, 0));
}

#[test]
fn cli_overrides_replace_given_values() {
    let mut c = SnowConfig::default();
    let args = Args { intensity: Some(7), speed_max: Some(120_000), max_opacity: Some(2_000), ..no_args() };
    apply_cli_overrides(&mut c, &args);
    assert_eq!(c.intensity, 7);
    assert_eq!(c.speed_max, 120_000);
    assert_eq!(c.max_opacity, 1000);
    assert_eq!(c.speed_min, 30_000);
    let mut d = SnowConfig::default();
    apply_cli_overrides(&mut d, &no_args());
    assert_eq!(d, SnowConfig::default());
}

#[test]
fn reload_only_for_config_file_after_debounce() {
    let name = String::from("hyprsnow.conf");
    let files = vec![String::from("other.conf"), String::from("hyprsnow.conf")];
    assert!(should_reload(true, &files, &name, 150_000, 100_000));
    assert!(!should_reload(true, &files, &name, 100_000, 100_000));
    assert!(!should_reload(false, &files, &name, 150_000, 100_000));
    assert!(!should_reload(true, &vec![String::from("other.conf")], &name, 150_000, 100_000));
}

#[test]
fn uniform_stays_in_range_and_varies() {
    let draws: Vec<i64> = (0..200).map(|_| uniform(-50, 50)).collect();
    assert!(draws.iter().all(|v| *v >= -50 && *v < 50));
    assert!(draws.iter().any(|v| *v != -50));
    assert_eq!(uniform(7, 7), 7);
    assert_eq!(uniform(9, 3), 9);
    let picks: Vec<usize> = (0..200).map(|_| pick_index(4)).collect();
    assert!(picks.iter().all(|k| *k < 4));
    assert!(picks.iter().any(|k| *k != 0));
}
