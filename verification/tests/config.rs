use dirbackup::config::{Config, ConfigError};

fn some(s: &str) -> Option<String> {
    Some(String::from(s))
}

#[test]
fn config_from_three_good_values() {
    let config = Config::from_values(some("/data"), some("/backups"), some("24")).unwrap();
    assert_eq!(config.source_dir, "/data");
    assert_eq!(config.dest_dir, "/backups");
    assert_eq!(config.retention_hours, 24);
}

#[test]
fn config_accepts_zero_retention() {
    let config = Config::from_values(some("a"), some("b"), some("0")).unwrap();
    assert_eq!(config.retention_hours, 0);
}

#[test]
fn config_takes_paths_as_they_are() {
    let config = Config::from_values(some(""), some(" with space "), some("1")).unwrap();
    assert_eq!(config.source_dir, "");
    assert_eq!(config.dest_dir, " with space ");
}

#[test]
fn config_reports_the_missing_value() {
    assert_eq!(
        Config::from_values(None, some("/backups"), some("24")),
        Err(ConfigError::MissingSourceDir)
    );
    assert_eq!(
        Config::from_values(some("/data"), None, some("24")),
        Err(ConfigError::MissingDestDir)
    );
    assert_eq!(
        Config::from_values(some("/data"), some("/backups"), None),
        Err(ConfigError::MissingRetention)
    );
}

#[test]
fn config_reports_the_first_fault() {
    assert_eq!(Config::from_values(None, None, None), Err(ConfigError::MissingSourceDir));
    assert_eq!(Config::from_values(None, None, some("x")), Err(ConfigError::MissingSourceDir));
    assert_eq!(Config::from_values(some("a"), None, some("x")), Err(ConfigError::MissingDestDir));
    assert_eq!(Config::from_values(some("a"), None, None), Err(ConfigError::MissingDestDir));
}

#[test]
fn config_rejects_a_bad_retention() {
    for bad in ["", "-1", "abc", "1.5", "24h", " 24", "18446744073709551616"] {
        assert_eq!(
            Config::from_values(some("/data"), some("/backups"), some(bad)),
            Err(ConfigError::InvalidRetention),
            "on {:?}",
            bad
        );
    }
}

#[test]
fn config_accepts_the_largest_retention() {
    let config =
        Config::from_values(some("a"), some("b"), some("18446744073709551615")).unwrap();
    assert_eq!(config.retention_hours, u64::MAX);
}

#[test]
fn config_error_messages() {
    assert_eq!(ConfigError::MissingSourceDir.message(), "SOURCE_DIR not set");
    assert_eq!(ConfigError::MissingDestDir.message(), "DEST_DIR not set");
    assert_eq!(ConfigError::MissingRetention.message(), "RETENTION_PERIOD_HOURS not set");
    assert_eq!(ConfigError::InvalidRetention.message(), "Invalid RETENTION_PERIOD_HOURS");
}
