//! Compiled modules: immutable artifacts produced by compiling source
//! bytes or by restoring a checked precompiled image, shared read-only by
//! any number of stores.

use vstd::prelude::*;

use crate::artifact::{artifact_bytes, encode_artifact};
use crate::config::HostConfig;
use crate::engine::HostEngine;
use crate::errors::{CompileError, SerializeError};
use crate::outside::{module_compile_raw, module_engine_raw, module_func_exports,
    module_serializable, module_serialize_raw};
use crate::value::ValueKind;

verus! {

/// A compiled, immutable WebAssembly module, bound to the engine that
/// compiled it.
pub struct HostModule {
    pub(crate) raw: wasmtime::Module,
    pub(crate) engine: wasmtime::Engine,
    pub(crate) cfg: HostConfig,
}

impl HostModule {
    /// The configuration of the engine this module was built for.
    pub closed spec fn config_spec(self) -> HostConfig {
        self.cfg
    }

    /// Whether the runtime can serialize this module: true of every module
    /// `compile` produces; a restored module makes no such promise, since
    /// its raw image is the embedder's to supply.
    pub closed spec fn serializable_spec(self) -> bool {
        module_serializable(self.raw)
    }

    /// The module's function exports: export name to declared
    /// (parameter kinds, result kinds).
    pub closed spec fn func_exports_spec(self) -> Map<
        Seq<char>,
        (Seq<ValueKind>, Seq<ValueKind>),
    > {
        module_func_exports(self.raw)
    }

    /// Returns the configuration of the engine this module was built for.
    pub fn config(&self) -> (c: HostConfig)
        ensures
            c == self.config_spec(),
    {
        self.cfg
    }

    /// Compiles and validates source bytes (text or binary) for `engine`.
    pub fn compile(engine: &HostEngine, source: &Vec<u8>) -> (r: Result<HostModule, CompileError>)
        ensures
            r matches Ok(m) ==> m.config_spec() == engine.config_spec()
                && m.serializable_spec(),
    {
        match module_compile_raw(&engine.raw, source) {
            Ok(raw) => {
                let eng = module_engine_raw(&raw);
                Ok(HostModule { raw, engine: eng, cfg: engine.config() })
            },
            Err(m) => Err(CompileError::Invalid(m)),
        }
    }

    /// Serializes this module to a portable artifact: the fingerprint
    /// header for its engine configuration, then the compiled image.
    /// `HostEngine::decode_artifact` recovers the image for a matching engine
    /// and rejects every other.
    pub fn serialize(&self) -> (r: Result<Vec<u8>, SerializeError>)
        ensures
            self.serializable_spec() ==> r is Ok,
            r matches Ok(b) ==> exists|image: Seq<u8>|
                b@ == artifact_bytes(self.config_spec(), image),
    {
        match module_serialize_raw(&self.raw) {
            Ok(image) => {
                let b = encode_artifact(&self.cfg, &image);
                proof {
                    assert(b@ == artifact_bytes(self.config_spec(), image@));
                }
                Ok(b)
            },
            Err(m) => Err(SerializeError::Failed(m)),
        }
    }

    /// Rebinds a compiled image that the embedder restored after
    /// `HostEngine::decode_artifact` accepted its header. The image itself is
    /// trusted, not re-validated: restoring it is the embedder's one
    /// unsafe step, and this constructor records the engine the restored
    /// module actually belongs to, so instantiation still rejects a
    /// foreign one.
    pub fn from_deserialized(engine: &HostEngine, raw: wasmtime::Module) -> (m: HostModule)
        ensures
            m.config_spec() == engine.config_spec(),
    {
        let eng = module_engine_raw(&raw);
        HostModule { raw, engine: eng, cfg: engine.config() }
    }
}

/// Within the crate: the export view is the raw module's table.
pub(crate) proof fn lemma_module_exports(m: &HostModule)
    ensures
        m.func_exports_spec() == module_func_exports(m.raw),
{
}

} // verus!
