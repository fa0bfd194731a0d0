//! Readiness checks for an AMD SEV-SNP host: the tree of checks, how each
//! observation of the machine is judged, how the walk over the tree decides
//! what runs and what is skipped, and how the results are rendered.
pub mod text;
pub mod numfmt;
pub mod colors;
pub mod metadata;
pub mod model;
pub mod platform;
pub mod probes;
pub mod checks;
pub mod runner;
pub mod version;
pub mod software;
pub mod report;
pub mod json;
pub mod generate_adoc;
pub mod ok;
pub mod laws;
