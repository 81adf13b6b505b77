//! Command-line argument model for a crate-download tool.
//!
//! Parses a raw argument list into a validated [`Options`] value: which
//! crate to fetch (name plus an exact version or a version-range
//! requirement), whether to extract the downloaded archive, where the
//! output goes, and a signed verbosity level. All parsing and the
//! cross-field validation are pure computations over the argument
//! strings; no I/O happens here.

pub mod crate_spec;
pub mod matcher;
pub mod options;
pub mod output;
pub mod requirement;
pub mod version;
pub mod textops;

pub use crate_spec::{Crate, CrateError, CrateVersion, CrateVersionError};
pub use matcher::{MatchError, Matches};
pub use options::{parse_from_argv, ArgsError, Options};
pub use output::Output;
pub use requirement::Requirement;
pub use version::Version;
