//! File-integrity tracking: fingerprint records for a set of files,
//! with drift detection on verify.

pub mod database;
pub mod error;
pub mod fingerprint;
pub mod laws;
pub mod model;
pub mod paths;
pub mod preprocess;
pub mod record;
pub mod report;
