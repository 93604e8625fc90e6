//! Error kinds reported to the embedder. All of them are ordinary,
//! inspectable values: nothing in the library panics or aborts.

use vstd::prelude::*;

verus! {

/// Engine construction failure.
#[derive(Debug, Clone, PartialEq, Eq)]
pub enum ConfigError {
    /// The configuration is internally inconsistent: the static memory
    /// reservation and its guard region do not fit the address-space budget.
    Inconsistent,
    /// The compilation backend refused the configuration; carries its message.
    Rejected(String),
}

/// Module source compilation failure: the bytes are not a valid module.
#[derive(Debug, Clone, PartialEq, Eq)]
pub enum CompileError {
    Invalid(String),
}

/// Failure to produce a portable artifact from a compiled module.
#[derive(Debug, Clone, PartialEq, Eq)]
pub enum SerializeError {
    Failed(String),
}

/// Rejection of a precompiled artifact. A mismatched engine fingerprint is
/// a hard error, never silently accepted.
#[derive(Clone, Copy, PartialEq, Eq, Structural, Debug)]
pub enum DeserializeError {
    /// The bytes do not carry the artifact magic, version and fingerprint header.
    Malformed,
    /// The artifact was produced for a different engine configuration.
    EngineMismatch,
}

/// Instantiation failure.
#[derive(Debug, Clone, PartialEq, Eq)]
pub enum InstantiationError {
    /// The module belongs to a different engine than the store.
    EngineMismatch,
    /// Unsatisfied imports, a start-function trap, or resource exhaustion;
    /// carries the runtime's message.
    Failed(String),
}

/// Export lookup failure.
#[derive(Clone, Copy, PartialEq, Eq, Structural, Debug)]
pub enum ExportError {
    /// The instance handle does not name an instance of this store.
    NoSuchInstance,
    /// No function export of that name exists.
    NotFound,
}

/// Fuel accounting failure.
#[derive(Clone, Copy, PartialEq, Eq, Structural, Debug)]
pub enum FuelError {
    /// Fuel metering was not enabled when the engine was built.
    MeteringDisabled,
    /// The cumulative fuel budget would exceed the counter's range.
    Overflow,
}

/// Interruption-control failure.
#[derive(Clone, Copy, PartialEq, Eq, Structural, Debug)]
pub enum InterruptError {
    /// Interruption was not enabled when the engine was built.
    Disabled,
}

/// Per-call failure. All of these leave the store well-defined for
/// inspection, though an aborted execution is not resumed.
#[derive(Debug, Clone, PartialEq, Eq)]
pub enum CallError {
    /// The function handle does not name a function of this store.
    NoSuchFunction,
    /// Argument arity or kinds do not match the declared parameter
    /// signature; execution never began.
    TypeMismatch,
    /// The store's fuel budget was exhausted mid-execution.
    OutOfFuel,
    /// A requested interruption was delivered at a checkpoint.
    Interrupted,
    /// The call produced a value of a kind the host cannot carry.
    UnsupportedValue,
    /// A runtime fault inside the module (out-of-bounds access, illegal
    /// instruction, stack exhaustion); carries diagnostic text.
    Trap(String),
}

} // verus!
