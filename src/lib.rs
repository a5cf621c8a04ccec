//! Incremental, content-addressed backup engine.
//!
//! The library decides what a backup run does: which files are candidates,
//! which of them changed since the last run (by content fingerprint), what the
//! single-generation archive and the full mirror must hold afterwards, and what
//! the checksum store and tracking record become. The caller performs the
//! filesystem work that a run plan describes.
pub mod fingerprint;
pub mod paths;
pub mod store;
pub mod tracking;
pub mod engine;
pub mod laws;
pub mod run;

pub use fingerprint::calculate_checksum;
pub use paths::{
    canonical_path, is_pruned_name, is_under_root, join_path, keep_path, source_plan, SourceEntry,
};
pub use store::ChecksumStore;
pub use tracking::TrackingRecord;
pub use engine::{BackupPlan, BackupResult, FileMetadata, RustBackupCore};
pub use run::{next_step, RunStep};
