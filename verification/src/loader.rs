//! Binding a probed core binary to a validated handle.
//!
//! The embedding opens the dynamic library and resolves every exported
//! symbol of the core ABI before making any foreign call; what it found is
//! reported here as a [`CoreProbe`]. Validation of the probe — in
//! particular the ABI version check — is verified: a [`CoreHandle`] can
//! only ever hold the expected version.

use vstd::prelude::*;
use crate::errors::ConfigurationError;

verus! {

/// ABI version this host expects a core to report.
pub const RETRO_API_VERSION: u32 = 1;

/// What the embedding found when it opened a core binary and resolved the
/// exported symbols of the core ABI. Resolution is all-or-nothing: a missing
/// symbol is reported before any foreign call is made.
#[derive(Clone, Debug)]
pub enum CoreProbe {
    /// Every required symbol resolved, and the core's version query reported
    /// the given ABI version.
    Resolved { api_version: u32 },
    /// The binary could not be opened.
    FileNotFound,
    /// The named required symbol was missing from the binary.
    MissingSymbol(String),
}

/// Validated handle to a loaded core: what the host's logic reads of the
/// foreign handle, as plain values. The embedding owns the library and its
/// function table and keys them by the environment this handle belongs to.
#[derive(Clone, Debug)]
pub struct CoreHandle {
    pub core_path: String,
    pub api_version: u32,
}

/// Mathematical value of a core handle.
pub struct HandleView {
    pub core_path: Seq<char>,
    pub api_version: u32,
}

impl View for CoreHandle {
    type V = HandleView;

    open spec fn view(&self) -> HandleView {
        HandleView { core_path: self.core_path@, api_version: self.api_version }
    }
}

impl HandleView {
    /// A handle only ever holds the expected ABI version: validation rejects
    /// every other probe before a handle exists.
    pub open spec fn wf(self) -> bool {
        self.api_version == RETRO_API_VERSION
    }
}

impl CoreHandle {
    /// Validate a probe of the core binary at `core_path`.
    ///
    /// Succeeds exactly when every symbol resolved and the reported ABI
    /// version is the expected one; a version mismatch voids the handle
    /// before any callback registration or initialisation could happen.
    /// Each failure of the probe maps to the configuration error naming it.
    pub fn load(core_path: String, probe: CoreProbe) -> (r: Result<CoreHandle, ConfigurationError>)
        ensures
            match probe {
                CoreProbe::Resolved { api_version } => if api_version == RETRO_API_VERSION {
                    r matches Ok(h) && h@.core_path == core_path@ && h@.wf()
                } else {
                    r matches Err(ConfigurationError::VersionMismatch { got, expected })
                        && got == api_version && expected == RETRO_API_VERSION
                },
                CoreProbe::FileNotFound => r matches Err(ConfigurationError::FileNotFound),
                CoreProbe::MissingSymbol(s) => r matches Err(ConfigurationError::SymbolNotFound(t))
                    && t@ == s@,
            },
    {
        match probe {
            CoreProbe::Resolved { api_version } => {
                if api_version == RETRO_API_VERSION {
                    Ok(CoreHandle { core_path, api_version })
                } else {
                    Err(
                        ConfigurationError::VersionMismatch {
                            got: api_version,
                            expected: RETRO_API_VERSION,
                        },
                    )
                }
            },
            CoreProbe::FileNotFound => Err(ConfigurationError::FileNotFound),
            CoreProbe::MissingSymbol(s) => Err(ConfigurationError::SymbolNotFound(s)),
        }
    }
}

} // verus!
