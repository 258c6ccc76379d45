//! Validates a processed output file against embedded reference tables of
//! correction factors and spectral windows, reporting pass/fail per category
//! at a configurable verbosity.

pub mod checks;
pub mod driver;
pub mod keyed;
pub mod numbers;
pub mod refdata;
pub mod report;
pub mod scan;
pub mod source;
pub mod tables;
pub mod text;
