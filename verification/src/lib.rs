//! Host-side support for running dynamically loaded emulation cores.
//!
//! The crate holds the logic of a core-hosting layer: validating a loaded
//! core binary against the expected ABI version, a lifecycle state machine
//! that enforces legal operation ordering (load, initialise, load a ROM,
//! step), the decision rules of the callback adapter that answers the
//! core's context-free callbacks, normalization of captured frames into a
//! canonical 32-bit-per-pixel buffer, and a registry of named environments.
//!
//! The foreign core itself is an outside collaborator: the embedding opens
//! the binary, makes the foreign calls, and hands their observable outcomes
//! (the resolved ABI version, whether a ROM loaded, the callbacks the core
//! made during a call) to this crate as plain values. Everything the host
//! decides from those values is verified here.

pub mod adapter;
pub mod errors;
pub mod frame;
pub mod loader;
pub mod lifecycle;
pub mod naming;
pub mod pixel;
pub mod registry;
