//! Installer core for a set of Prometheus exporters.
//!
//! The crate models the decision logic of a small installer: classifying the
//! host platform, resolving where each artifact's bytes come from (embedded
//! payload, operator override, or a computed release URL), and planning the
//! file writes that acquisition performs.  All I/O is left to the caller; the
//! functions here are pure and fully specified.

pub mod acquire;
pub mod artifacts;
pub mod downloader;
pub mod errors;
pub mod node_exporter;
pub mod os_detector;
pub mod process_exporter;
pub mod resolver;
pub mod strutil;
pub mod windows_exporter;
