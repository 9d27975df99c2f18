//! The error taxonomy of the boundary.
//!
//! Every recoverable condition degrades to a documented sentinel at the
//! boundary; none of these is fatal. Lifecycle misuse is not an error value
//! at all: the checked lifecycle transitions report rejection through their
//! results, and the unverified boundary layer turns that into an abort.

use vstd::prelude::*;

verus! {

/// A recoverable failure of a boundary operation.
#[derive(Debug, Clone)]
pub enum PxError {
    /// A required handle or argument was absent; resolved to a Null value or
    /// a no-op, never fatal.
    NullArgument,
    /// An accessor was used on a value whose tag does not match it and no
    /// widening is defined; resolved to a per-accessor sentinel.
    TypeMismatch,
    /// A runtime-tag argument did not decode to a compiled-in engine
    /// adapter; resolved to Null.
    UnknownRuntimeTag,
    /// A registry handle did not resolve, for instance after the registries
    /// were cleared at finalize; the caller substitutes Null.
    RegistryMiss,
    /// A script compile or runtime error, carried as a human-readable
    /// diagnostic string.
    EngineFault(String),
}

} // verus!
