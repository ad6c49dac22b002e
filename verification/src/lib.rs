//! Reconciliation of third-party Git client configuration.
//!
//! Each supported client application persists which Git executable it
//! invokes (a preference domain on macOS, a JSON settings document on
//! Windows).  This crate implements the installer contract over those
//! stores: inspect the current configuration without mutating it,
//! install a caller-supplied Git shim path idempotently with a
//! dry-run/diff mode, and uninstall it back to the system default.
//! All persistence I/O stays outside the crate; callers hand in a
//! snapshot of the store and receive the planned change back.

pub mod ci;
pub mod decimal;
pub mod fork_app;
pub mod installer;
pub mod json;
pub mod paths;
pub mod provision;
pub mod settings;
pub mod text;
