//! Builds extra binaries for integration tests through Cargo, and finds the
//! built binary in Cargo's line-delimited JSON output.
//!
//! The library holds the decisions: reading Cargo's messages, reconciling
//! them with Cargo's exit status, and the command line that asks for the
//! build. Spawning Cargo and reading its output channels is left to the
//! caller, which hands the lines and the exit status back.

pub mod binary;
pub mod error;
pub mod event;
pub mod run;
pub mod stream;

pub use error::{Failure, ManifestError, ManifestFailure, TestBinaryError};
pub use event::{classify_line, event_of, is_shallow_json, BuildEvent, EventView, MAX_JSON_DEPTH};
pub use stream::{process_messages, scan_events, scan_outcome, scan_step};
pub use binary::{TestBinary, TestBinaryView, WorkspacePackage};
pub use run::{reconcile, require_cargo_env};
