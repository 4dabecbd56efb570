use path_marcher::buffers::ModeKind;
use path_marcher::config::{ConfigError, Mode, SceneConfig, TraceOptions, DEFAULT_GRID_SIZE};

#[test]
fn valid_config_is_accepted() {
    let c = SceneConfig::new(4, 16, 3, 44100).unwrap();
    assert_eq!(c.num_targets, 4);
    assert_eq!(c.num_runs, 16);
    assert_eq!(c.num_subscenes, 3);
    assert_eq!(c.impulse_len, 44100);
    assert!(c.is_valid());
}

#[test]
fn zero_counts_are_accepted() {
    let c = SceneConfig::new(0, 0, 0, 1).unwrap();
    assert!(c.is_valid());
}

#[test]
fn negative_runs_are_refused() {
    assert_eq!(SceneConfig::new(1, -1, 3, 10), Err(ConfigError::NegativeRuns));
}

#[test]
fn negative_subscenes_are_refused() {
    assert_eq!(SceneConfig::new(1, 0, -3, 10), Err(ConfigError::NegativeSubscenes));
}

#[test]
fn empty_impulse_is_refused() {
    assert_eq!(SceneConfig::new(1, 1, 1, 0), Err(ConfigError::EmptyImpulse));
}

#[test]
fn runs_are_examined_first() {
    assert_eq!(SceneConfig::new(1, -1, -1, 0), Err(ConfigError::NegativeRuns));
    assert_eq!(SceneConfig::new(1, 0, -1, 0), Err(ConfigError::NegativeSubscenes));
}

#[test]
fn hand_made_config_is_checked() {
    let bad = SceneConfig { num_targets: 1, num_runs: 1, num_subscenes: 1, impulse_len: 0 };
    assert!(!bad.is_valid());
    let good = SceneConfig { num_targets: 1, num_runs: 1, num_subscenes: 1, impulse_len: 1 };
    assert!(good.is_valid());
}

#[test]
fn default_grid_is_1024() {
    assert_eq!(DEFAULT_GRID_SIZE, 1024);
}

#[test]
fn mode_tells_its_kind() {
    assert_eq!(Mode::SceneDebug.kind(), ModeKind::SceneDebug);
    let t = TraceOptions {
        impulse_len: 8,
        channels: 2,
        out_file: String::from("output/impulse000.wav"),
        num_runs: 1,
    };
    assert_eq!(Mode::Trace(t).kind(), ModeKind::Trace);
}
