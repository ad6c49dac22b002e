//! The installer contract shared by every Git client variant.

use vstd::prelude::*;

verus! {

/// Which Git instance a client application is set to use.  The integer
/// encoding lives only at the store boundary ([`GitInstanceType::code`]).
#[derive(Clone, Copy, PartialEq, Eq, Structural, Debug)]
pub enum GitInstanceType {
    System,
    Bundled,
    Custom,
}

impl GitInstanceType {
    /// The integer encoding used by the persisted stores.
    pub open spec fn code_spec(self) -> i64 {
        match self {
            GitInstanceType::System => 0,
            GitInstanceType::Bundled => 1,
            GitInstanceType::Custom => 2,
        }
    }

    /// The integer encoding used by the persisted stores.
    pub fn code(&self) -> (r: i64)
        ensures
            r == self.code_spec(),
    {
        match self {
            GitInstanceType::System => 0,
            GitInstanceType::Bundled => 1,
            GitInstanceType::Custom => 2,
        }
    }
}

/// Caller-supplied parameters: the absolute filesystem path of the Git
/// shim executable the client should invoke.  Supplied per invocation,
/// never persisted.
pub struct GitClientInstallerParams {
    pub git_shim_path: String,
}

/// A stateless snapshot of a client's configuration, recomputed on
/// every call and never persisted.
#[derive(Clone, Copy, PartialEq, Eq, Structural, Debug)]
pub struct GitClientCheckResult {
    /// The target application exists on this machine.
    pub client_installed: bool,
    /// The application is set to use some custom Git instance.
    pub prefs_configured: bool,
    /// The configured custom instance path equals the normalized
    /// desired shim path.
    pub prefs_up_to_date: bool,
}

impl GitClientCheckResult {
    /// Up to date implies configured implies installed.
    pub open spec fn wf(self) -> bool {
        &&& self.prefs_up_to_date ==> self.prefs_configured
        &&& self.prefs_configured ==> self.client_installed
    }
}

/// The host operating system, detected once at startup by the caller
/// and used to select a backend strategy.
#[derive(Clone, Copy, PartialEq, Eq, Structural, Debug)]
pub enum HostPlatform {
    MacOs,
    Windows,
    Other,
}

/// The error type shared across the crate.  Not-applicable outcomes
/// (client absent, already up to date) are ordinary values, never
/// errors.
#[derive(Debug)]
pub enum GitAiError {
    Generic(String),
}

impl GitAiError {
    /// The human-readable description carried by the error.
    pub fn message(&self) -> (r: &str)
        ensures
            self matches GitAiError::Generic(m) && r@ == m@,
    {
        match self {
            GitAiError::Generic(m) => m.as_str(),
        }
    }
}

} // verus!
