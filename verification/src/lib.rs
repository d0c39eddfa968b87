//! Survey data processing library for Bureau of Labor Statistics style files:
//! configuration models and validation, data models, reader and writer
//! selection, line parsing, and error handling support.

use vstd::prelude::*;

pub mod cli;
pub mod clock;
pub mod config;
pub mod error;
pub mod model;
pub mod order;
pub mod paths;
pub mod reader;
pub mod strmap;
pub mod text;
pub mod writer;

verus! {

/// The crate's name.
pub const NAME: &'static str = "rusty";

/// The crate's version.
pub const VERSION: &'static str = "0.1.0";

/// What the crate is for.
pub const DESCRIPTION: &'static str = "Processing of Bureau of Labor Statistics survey data files";

} // verus!
