//! Deduplicated, best-effort activation of an extended diagnostics feature
//! (gopls `gc_details`) on a per-package basis.
//!
//! A language-server client opens many files; the feature must be enabled
//! exactly once per package directory, never re-triggered for files already
//! covered, and never block the editing session. The core here is the
//! claimed-package registry with its exactly-once claim semantics, and the
//! trigger logic that decides, for a file event, whether an enabling command
//! must be sent and with what payload. Sending the command itself is the
//! host's job: the trigger returns the request to dispatch, if any.

pub mod laws;
pub mod paths;
pub mod registry;
pub mod trigger;
