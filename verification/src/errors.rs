//! Error values of the host.
//!
//! Every error names the precondition it reports. Human-readable renderings
//! are provided by `message` methods whose text is pinned down by spec
//! functions, so a caller can rely on what an error says.

use vstd::prelude::*;
use vstd::string::StringExecFns;
use crate::lifecycle::StateKind;
use crate::naming::spec_decimal;
use crate::naming::u64_to_decimal;

verus! {

/// Failure to bind a core binary. Fatal to that load: no retry can succeed
/// without a different binary.
#[derive(Clone, Debug)]
pub enum ConfigurationError {
    /// The core binary could not be opened at the given path.
    FileNotFound,
    /// A required exported symbol was missing. Resolution is all-or-nothing,
    /// so the whole handle is void; the first missing symbol is named.
    SymbolNotFound(String),
    /// The core reports an ABI version other than the one this host expects.
    VersionMismatch { got: u32, expected: u32 },
}

impl ConfigurationError {
    /// Text of the error.
    pub open spec fn spec_message(&self) -> Seq<char> {
        match self {
            ConfigurationError::FileNotFound => "failed to open the core binary"@,
            ConfigurationError::SymbolNotFound(name) => "core is missing required symbol "@
                + name@,
            ConfigurationError::VersionMismatch { got, expected } => "core ABI version mismatch: got "@
                + spec_decimal(*got as nat) + ", expected "@ + spec_decimal(*expected as nat),
        }
    }

    /// Render the error, naming the violated precondition.
    pub fn message(&self) -> (m: String)
        ensures
            m@ == self.spec_message(),
    {
        match self {
            ConfigurationError::FileNotFound => "failed to open the core binary".to_owned(),
            ConfigurationError::SymbolNotFound(name) => {
                let mut m = "core is missing required symbol ".to_owned();
                m.append(name.as_str());
                m
            },
            ConfigurationError::VersionMismatch { got, expected } => {
                let mut m = "core ABI version mismatch: got ".to_owned();
                let g = u64_to_decimal(*got as u64);
                m.append(g.as_str());
                m.append(", expected ");
                let e = u64_to_decimal(*expected as u64);
                m.append(e.as_str());
                proof {
                    assert(m@ =~= self.spec_message());
                }
                m
            },
        }
    }
}

/// An operation was applied in a lifecycle stage it is not legal in.
/// Recoverable: the caller can retry once the required stage is reached;
/// the environment's state is never corrupted.
#[derive(Clone, Copy, Debug, PartialEq, Eq, Structural)]
pub struct StateError {
    /// Stage the operation needs.
    pub required: StateKind,
    /// Stage the environment was actually in.
    pub actual: StateKind,
}

impl StateError {
    /// Text of the error: names the missing prior state and the current one.
    pub open spec fn spec_message(&self) -> Seq<char> {
        "operation requires the environment to be "@ + self.required.spec_name()
            + ", but it is "@ + self.actual.spec_name()
    }

    /// Render the error, naming the violated precondition.
    pub fn message(&self) -> (m: String)
        ensures
            m@ == self.spec_message(),
    {
        let mut m = "operation requires the environment to be ".to_owned();
        m.append(self.required.name());
        m.append(", but it is ");
        m.append(self.actual.name());
        proof {
            assert(m@ =~= self.spec_message());
        }
        m
    }
}

/// ROM loading failure. Fatal to the creation that asked for it: no registry
/// entry is produced.
#[derive(Clone, Debug)]
pub enum RomError {
    /// The ROM path could not be resolved to an absolute path. The failure is
    /// reported as such, never silently substituted with a relative path.
    PathUnresolvable(String),
    /// The foreign core rejected the ROM.
    Rejected,
}

impl RomError {
    /// Text of the error.
    pub open spec fn spec_message(&self) -> Seq<char> {
        match self {
            RomError::PathUnresolvable(path) => "failed to resolve ROM path "@ + path@,
            RomError::Rejected => "core rejected the ROM"@,
        }
    }

    /// Render the error, naming the violated precondition.
    pub fn message(&self) -> (m: String)
        ensures
            m@ == self.spec_message(),
    {
        match self {
            RomError::PathUnresolvable(path) => {
                let mut m = "failed to resolve ROM path ".to_owned();
                m.append(path.as_str());
                m
            },
            RomError::Rejected => "core rejected the ROM".to_owned(),
        }
    }
}

/// Any failure of a lifecycle operation.
#[derive(Clone, Debug)]
pub enum EnvironmentError {
    Configuration(ConfigurationError),
    State(StateError),
    Rom(RomError),
}

impl EnvironmentError {
    /// Text of the underlying error.
    pub open spec fn spec_message(&self) -> Seq<char> {
        match self {
            EnvironmentError::Configuration(e) => e.spec_message(),
            EnvironmentError::State(e) => e.spec_message(),
            EnvironmentError::Rom(e) => e.spec_message(),
        }
    }

    /// Render the error, naming the violated precondition.
    pub fn message(&self) -> (m: String)
        ensures
            m@ == self.spec_message(),
    {
        match self {
            EnvironmentError::Configuration(e) => e.message(),
            EnvironmentError::State(e) => e.message(),
            EnvironmentError::Rom(e) => e.message(),
        }
    }
}

/// Why no frame could be handed out: the environment is not running, or it
/// is running but no video refresh has delivered a frame yet. Both mean the
/// frame is not ready; neither corrupts state.
#[derive(Clone, Copy, Debug, PartialEq, Eq, Structural)]
pub enum FrameError {
    NotRunning { actual: StateKind },
    NoFrameCaptured,
}

impl FrameError {
    /// Text of the error.
    pub open spec fn spec_message(&self) -> Seq<char> {
        match self {
            FrameError::NotRunning { actual } => "frame not ready: environment is "@
                + actual.spec_name(),
            FrameError::NoFrameCaptured => "frame not ready: no frame captured yet"@,
        }
    }

    /// Render the error, naming the violated precondition.
    pub fn message(&self) -> (m: String)
        ensures
            m@ == self.spec_message(),
    {
        match self {
            FrameError::NotRunning { actual } => {
                let mut m = "frame not ready: environment is ".to_owned();
                m.append(actual.name());
                m
            },
            FrameError::NoFrameCaptured => "frame not ready: no frame captured yet".to_owned(),
        }
    }
}

/// Failure of a registry operation.
#[derive(Clone, Debug)]
pub enum RegistryError {
    /// No entry with the given id exists.
    UnknownId,
    /// A creation named an id an existing entry already holds; the existing
    /// entry is left untouched. Carries the rejected name back to the caller.
    DuplicateName(String),
    /// A creation handed over an environment that has not reached the running
    /// stage; no entry is inserted.
    NotRunning { actual: StateKind },
    /// The entry exists but holds no captured frame yet.
    NotReady,
}

impl RegistryError {
    /// Text of the error.
    pub open spec fn spec_message(&self) -> Seq<char> {
        match self {
            RegistryError::UnknownId => "unknown id"@,
            RegistryError::DuplicateName(name) => "an environment named "@ + name@
                + " already exists"@,
            RegistryError::NotRunning { actual } => "environment is not running: it is "@
                + actual.spec_name(),
            RegistryError::NotReady => "frame not ready"@,
        }
    }

    /// Render the error, naming the violated precondition.
    pub fn message(&self) -> (m: String)
        ensures
            m@ == self.spec_message(),
    {
        match self {
            RegistryError::UnknownId => "unknown id".to_owned(),
            RegistryError::DuplicateName(name) => {
                let mut m = "an environment named ".to_owned();
                m.append(name.as_str());
                m.append(" already exists");
                proof {
                    assert(m@ =~= self.spec_message());
                }
                m
            },
            RegistryError::NotRunning { actual } => {
                let mut m = "environment is not running: it is ".to_owned();
                m.append(actual.name());
                m
            },
            RegistryError::NotReady => "frame not ready".to_owned(),
        }
    }
}

} // verus!
