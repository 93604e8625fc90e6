//! The compilation engine: immutable configuration shared read-only by
//! every module and store built from it.

use vstd::prelude::*;

use crate::artifact::{decode_artifact, decode_spec};
use crate::config::HostConfig;
use crate::errors::{ConfigError, DeserializeError};
use crate::outside::{engine_meters_fuel, engine_new_raw};

verus! {

/// An immutable compilation/runtime configuration handle. Every module and
/// store records which engine produced it, and mixing engines is rejected.
pub struct HostEngine {
    pub(crate) raw: wasmtime::Engine,
    pub(crate) cfg: HostConfig,
}

impl HostEngine {
    /// The configuration this engine was built with.
    pub closed spec fn config_spec(self) -> HostConfig {
        self.cfg
    }

    /// Well-formedness, established by the constructor: the runtime engine
    /// meters fuel exactly when the configuration says so.
    pub closed spec fn wf(self) -> bool {
        engine_meters_fuel(self.raw) == self.cfg.fuel_metering
    }

    /// Builds an engine. An internally inconsistent configuration is
    /// rejected as `Inconsistent`; a consistent one that the compilation
    /// backend still refuses is rejected as `Rejected`.
    pub fn new(cfg: HostConfig) -> (r: Result<HostEngine, ConfigError>)
        ensures
            !cfg.valid_spec() <==> r == Err::<HostEngine, ConfigError>(ConfigError::Inconsistent),
            r matches Ok(e) ==> e.config_spec() == cfg && e.wf(),
    {
        if !cfg.valid() {
            return Err(ConfigError::Inconsistent);
        }
        match engine_new_raw(&cfg) {
            Ok(raw) => Ok(HostEngine { raw, cfg }),
            Err(m) => Err(ConfigError::Rejected(m)),
        }
    }

    /// Returns the configuration this engine was built with.
    pub fn config(&self) -> (c: HostConfig)
        ensures
            c == self.config_spec(),
    {
        self.cfg
    }

    /// The underlying runtime engine, for the one embedder step the
    /// library cannot take itself: restoring a precompiled image, which the
    /// runtime only offers as an unsafe call.
    pub fn backend(&self) -> &wasmtime::Engine {
        &self.raw
    }

    /// Checks a precompiled artifact against this engine and returns its
    /// compiled image. A broken header is `Malformed`; an artifact built
    /// for any other engine configuration is `EngineMismatch`, never
    /// silently accepted.
    pub fn decode_artifact(&self, bytes: &Vec<u8>) -> (r: Result<Vec<u8>, DeserializeError>)
        ensures
            r is Ok <==> decode_spec(self.config_spec(), bytes@) is Ok,
            r matches Ok(p) ==> p@ == decode_spec(self.config_spec(), bytes@)->Ok_0,
            r matches Err(e) ==> e == decode_spec(self.config_spec(), bytes@)->Err_0,
    {
        decode_artifact(&self.cfg, bytes)
    }
}

/// Within the crate: what a well-formed engine's backend records.
pub(crate) proof fn lemma_engine_backend(e: &HostEngine)
    requires
        e.wf(),
    ensures
        engine_meters_fuel(e.raw) == e.config_spec().fuel_metering,
{
}

} // verus!
