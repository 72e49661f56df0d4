//! The three values that configure a backup run.

use vstd::prelude::*;
use vstd::string::*;
use crate::decimal::{parse_decimal, parse_spec};

verus! {

/// What a backup run is told: where to read, where to write, and for how
/// many hours an archive is kept.
#[derive(Clone, Debug, PartialEq, Eq)]
pub struct Config {
    pub source_dir: String,
    pub dest_dir: String,
    pub retention_hours: u64,
}

/// Why a configuration could not be made.
#[derive(Clone, Copy, Debug, PartialEq, Eq, Structural)]
pub enum ConfigError {
    /// No source directory was given.
    MissingSourceDir,
    /// No destination directory was given.
    MissingDestDir,
    /// No retention period was given.
    MissingRetention,
    /// The retention period is not a whole number of hours that fits in 64 bits.
    InvalidRetention,
}

/// What `Config::from_values` returns for given values. The values are
/// looked at in the order source, destination, retention; the first one at
/// fault decides the error.
pub open spec fn config_spec(
    source_dir: Option<Seq<char>>,
    dest_dir: Option<Seq<char>>,
    retention: Option<Seq<char>>,
) -> Result<(Seq<char>, Seq<char>, u64), ConfigError> {
    if source_dir is None {
        Err(ConfigError::MissingSourceDir)
    } else if dest_dir is None {
        Err(ConfigError::MissingDestDir)
    } else if retention is None {
        Err(ConfigError::MissingRetention)
    } else if parse_spec(retention->0) is None {
        Err(ConfigError::InvalidRetention)
    } else {
        Ok((source_dir->0, dest_dir->0, parse_spec(retention->0)->0))
    }
}

/// The view of an optional string.
pub open spec fn opt_view(s: Option<String>) -> Option<Seq<char>> {
    match s {
        Some(s) => Some(s@),
        None => None,
    }
}

/// The view of what `Config::from_values` returns.
pub open spec fn result_view(r: Result<Config, ConfigError>) -> Result<
    (Seq<char>, Seq<char>, u64),
    ConfigError,
> {
    match r {
        Ok(c) => Ok(c@),
        Err(e) => Err(e),
    }
}

impl Config {
    /// The configuration as plain values: source, destination, hours.
    pub open spec fn view(&self) -> (Seq<char>, Seq<char>, u64) {
        (self.source_dir@, self.dest_dir@, self.retention_hours)
    }

    /// Makes a configuration from the three values as they were found,
    /// `None` standing for a value that is not set.
    pub fn from_values(
        source_dir: Option<String>,
        dest_dir: Option<String>,
        retention: Option<String>,
    ) -> (r: Result<Config, ConfigError>)
        ensures
            result_view(r) == config_spec(
                opt_view(source_dir),
                opt_view(dest_dir),
                opt_view(retention),
            ),
    {
        let source_dir = match source_dir {
            Some(s) => s,
            None => {
                return Err(ConfigError::MissingSourceDir);
            },
        };
        let dest_dir = match dest_dir {
            Some(s) => s,
            None => {
                return Err(ConfigError::MissingDestDir);
            },
        };
        let retention = match retention {
            Some(s) => s,
            None => {
                return Err(ConfigError::MissingRetention);
            },
        };
        match parse_decimal(retention.as_str()) {
            Some(retention_hours) => Ok(Config { source_dir, dest_dir, retention_hours }),
            None => Err(ConfigError::InvalidRetention),
        }
    }
}

impl ConfigError {
    /// The text of the error.
    pub open spec fn message_spec(&self) -> Seq<char> {
        match self {
            ConfigError::MissingSourceDir => "SOURCE_DIR not set"@,
            ConfigError::MissingDestDir => "DEST_DIR not set"@,
            ConfigError::MissingRetention => "RETENTION_PERIOD_HOURS not set"@,
            ConfigError::InvalidRetention => "Invalid RETENTION_PERIOD_HOURS"@,
        }
    }

    /// A description of the error for the operator.
    pub fn message(&self) -> (text: String)
        ensures
            text@ == self.message_spec(),
    {
        match self {
            ConfigError::MissingSourceDir => String::from_str("SOURCE_DIR not set"),
            ConfigError::MissingDestDir => String::from_str("DEST_DIR not set"),
            ConfigError::MissingRetention => String::from_str("RETENTION_PERIOD_HOURS not set"),
            ConfigError::InvalidRetention => String::from_str("Invalid RETENTION_PERIOD_HOURS"),
        }
    }
}

} // verus!
