//! Diagnoses whether the scripts referenced by a web page ship usable sourcemaps.
//!
//! The library holds the decisions: which scripts a page references, which of them
//! are skipped as community CDN scripts, where a script's sourcemap lives, what a
//! decoded sourcemap asks to be checked, how outcomes are tallied, and which local
//! folders correspond to the scripts. Network and filesystem work is done by the
//! caller, who hands the results back as plain values.
pub mod urls;
pub mod cdn;
pub mod correlate;
pub mod dom;
pub mod pipeline;
pub mod reference;
pub mod sourcemaps;
pub mod text;
