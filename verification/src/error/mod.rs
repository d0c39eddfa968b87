//! Error handling: the error hierarchy, error contexts, recovery policies,
//! message sanitization, telemetry records and localized messages.

use vstd::prelude::*;

pub mod context;
pub mod i18n;
pub mod recovery;
pub mod sanitization;
pub mod telemetry;
pub mod types;

pub use types::{ConfigError, DataError, Error, OutputError, PluginError, ProcessingError, SystemError};

verus! {

/// A result whose error is the library's `Error`.
pub type Result<T> = core::result::Result<T, Error>;

} // verus!
