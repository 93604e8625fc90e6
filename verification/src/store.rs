//! Stores: isolated, mutable execution contexts. A store owns every
//! instance created in it and every function handle resolved in it, tracks
//! a fuel budget when metering is enabled, and exposes an interruption
//! control when interruption is enabled. Two stores never share mutable
//! WebAssembly state.

use vstd::prelude::*;

use crate::config::HostConfig;
use crate::engine::{lemma_engine_backend, HostEngine};
use crate::errors::{CallError, ExportError, FuelError, InstantiationError, InterruptError};
use crate::module::{lemma_module_exports, HostModule};
use crate::outside::{
    engine_clone_raw, engine_increment_epoch_raw, engines_same_raw, func_call_raw, func_signature,
    instance_func_exports, instance_get_func_raw, instance_new_raw, store_get_fuel_raw,
    store_meters_fuel, store_new_raw, store_set_epoch_deadline_raw, store_set_fuel_raw,
    val_to_value_raw, value_to_val_raw,
};
use crate::value::{args_match, args_match_spec, Value, ValueKind};

verus! {

/// One resolved function export: the runtime handle and its declared
/// parameter and result kinds.
pub(crate) struct FuncEntry {
    pub(crate) raw: wasmtime::Func,
    pub(crate) params: Vec<ValueKind>,
    pub(crate) results: Vec<ValueKind>,
}

/// A cross-thread control requesting interruption of execution. Its scope
/// is the engine: one request interrupts running and later calls in every
/// interruptible store of the engine the handle came from, not only the
/// store that handed the handle out. Delivery happens at the next
/// checkpoint of an affected call, never mid-instruction.
pub struct InterruptHandle {
    pub(crate) engine: wasmtime::Engine,
}

impl InterruptHandle {
    /// Asynchronously requests interruption: every call running in an
    /// interruptible store of this engine traps with `Interrupted` at its
    /// next checkpoint. The request is permanent — those stores' later
    /// calls keep trapping with `Interrupted` too; they stay well-defined
    /// for inspection but are not resumed.
    pub fn interrupt(&self) {
        engine_increment_epoch_raw(&self.engine);
    }
}

/// An isolated execution context bound to one engine. Instances and
/// function handles are named by the indices this store hands out, so a
/// handle can never be replayed against a different store.
pub struct HostStore<T> {
    raw: wasmtime::Store<()>,
    engine: wasmtime::Engine,
    cfg: HostConfig,
    instances: Vec<wasmtime::Instance>,
    funcs: Vec<FuncEntry>,
    fuel_added: u64,
    fuel_used: u64,
    data: T,
}

impl<T> HostStore<T> {
    /// The recorded model agrees with the runtime: the store meters fuel
    /// exactly when the configuration says so, and every recorded function
    /// handle carries its declared signature.
    pub closed spec fn backend_consistent(self) -> bool {
        &&& store_meters_fuel(self.raw) == self.cfg.fuel_metering
        &&& forall|j: int|
            0 <= j < self.funcs@.len() ==> func_signature(#[trigger] self.funcs@[j].raw) == (
            self.funcs@[j].params@,
            self.funcs@[j].results@,
            )
    }

    /// Well-formedness, established by the constructor and preserved by
    /// every method: fuel consumed never exceeds fuel added, and the
    /// recorded model agrees with the runtime store.
    pub open spec fn wf(self) -> bool {
        &&& self.fuel_used_spec() <= self.fuel_added_spec()
        &&& self.backend_consistent()
    }

    /// The configuration of the engine this store was created for.
    pub closed spec fn config_spec(self) -> HostConfig {
        self.cfg
    }

    /// Whether fuel metering is active in this store.
    pub open spec fn metering_spec(self) -> bool {
        self.config_spec().fuel_metering
    }

    /// Whether an interruption control is available for this store.
    pub open spec fn interruptible_spec(self) -> bool {
        self.config_spec().interruptible
    }

    /// Cumulative fuel added by the owner.
    pub closed spec fn fuel_added_spec(self) -> u64 {
        self.fuel_added
    }

    /// Fuel observed consumed so far.
    pub closed spec fn fuel_used_spec(self) -> u64 {
        self.fuel_used
    }

    /// Number of instances created in this store.
    pub closed spec fn instance_count(self) -> nat {
        self.instances@.len()
    }

    /// Function exports of instance `i`: export name to declared
    /// (parameter kinds, result kinds).
    pub closed spec fn instance_exports_spec(self, i: int) -> Map<
        Seq<char>,
        (Seq<ValueKind>, Seq<ValueKind>),
    > {
        instance_func_exports(self.instances@[i])
    }

    /// Number of function handles resolved in this store.
    pub closed spec fn func_count(self) -> nat {
        self.funcs@.len()
    }

    /// Declared parameter kinds of function handle `f`.
    pub closed spec fn func_params(self, f: int) -> Seq<ValueKind> {
        self.funcs@[f].params@
    }

    /// Declared result kinds of function handle `f`.
    pub closed spec fn func_results(self, f: int) -> Seq<ValueKind> {
        self.funcs@[f].results@
    }

    /// The opaque host-data slot.
    pub closed spec fn data_spec(self) -> T {
        self.data
    }

    /// Creates an empty store for `engine`, holding `data` in its host-data
    /// slot. When interruption is enabled the store is armed so that one
    /// interruption request traps its running and subsequent calls.
    pub fn new(engine: &HostEngine, data: T) -> (s: HostStore<T>)
        requires
            engine.wf(),
        ensures
            s.wf(),
            s.config_spec() == engine.config_spec(),
            s.fuel_added_spec() == 0,
            s.fuel_used_spec() == 0,
            s.instance_count() == 0,
            s.func_count() == 0,
            s.data_spec() == data,
    {
        proof {
            lemma_engine_backend(engine);
        }
        let cfg = engine.config();
        let mut raw = store_new_raw(&engine.raw);
        if cfg.interruptible {
            store_set_epoch_deadline_raw(&mut raw, 1);
        }
        HostStore {
            raw,
            engine: engine_clone_raw(&engine.raw),
            cfg,
            instances: Vec::new(),
            funcs: Vec::new(),
            fuel_added: 0,
            fuel_used: 0,
            data,
        }
    }

    /// Reads the host-data slot.
    pub fn data(&self) -> (r: &T)
        ensures
            *r == self.data_spec(),
    {
        &self.data
    }

    /// Replaces the host-data slot, leaving all execution state unchanged.
    pub fn set_data(&mut self, data: T)
        requires
            old(self).wf(),
        ensures
            final(self).wf(),
            final(self).data_spec() == data,
            final(self).config_spec() == old(self).config_spec(),
            final(self).fuel_added_spec() == old(self).fuel_added_spec(),
            final(self).fuel_used_spec() == old(self).fuel_used_spec(),
            final(self).instance_count() == old(self).instance_count(),
            final(self).func_count() == old(self).func_count(),
            forall|j: int|
                0 <= j < old(self).instance_count() ==> final(self).instance_exports_spec(j) == old(
                    self,
                ).instance_exports_spec(j),
            forall|j: int|
                0 <= j < old(self).func_count() ==> final(self).func_params(j) == old(
                    self,
                ).func_params(j) && final(self).func_results(j) == old(self).func_results(j),
    {
        self.data = data;
    }

    /// Reads the fuel remaining from the runtime and folds it into the
    /// consumption model: consumption only grows and never exceeds the
    /// budget, whatever the runtime reported.
    fn refresh_fuel(&mut self)
        requires
            old(self).wf(),
        ensures
            final(self).wf(),
            final(self).fuel_used >= old(self).fuel_used,
            final(self).fuel_used <= final(self).fuel_added,
            final(self).fuel_added == old(self).fuel_added,
            final(self).raw == old(self).raw,
            final(self).engine == old(self).engine,
            final(self).cfg == old(self).cfg,
            final(self).instances == old(self).instances,
            final(self).funcs == old(self).funcs,
            final(self).data == old(self).data,
    {
        if self.cfg.fuel_metering {
            match store_get_fuel_raw(&self.raw) {
                Ok(rem) => {
                    let budget = self.fuel_added;
                    let clamped = if rem > budget {
                        budget
                    } else {
                        rem
                    };
                    let used = budget - clamped;
                    if used > self.fuel_used {
                        self.fuel_used = used;
                    }
                },
                Err(_) => {},
            }
        }
    }

    /// Binds `module` into this store: rejects a module of another engine
    /// — a differing configuration is rejected outright, and even an
    /// identically configured but distinct engine falls to the runtime's
    /// identity check — otherwise runs the module's start behavior to
    /// completion and returns the new instance's handle, whose exports are
    /// the module's. On any error no instance is added. Start-up runs under
    /// the store's metering, so fuel consumption may grow.
    pub fn instantiate(&mut self, module: &HostModule) -> (r: Result<usize, InstantiationError>)
        requires
            old(self).wf(),
        ensures
            final(self).wf(),
            old(self).config_spec() != module.config_spec() ==> r == Err::<
                usize,
                InstantiationError,
            >(InstantiationError::EngineMismatch),
            r matches Ok(i) ==> i == old(self).instance_count() && final(self).instance_count()
                == old(self).instance_count() + 1 && final(self).instance_exports_spec(i as int)
                == module.func_exports_spec(),
            r is Err ==> final(self).instance_count() == old(self).instance_count(),
            forall|j: int|
                0 <= j < old(self).instance_count() ==> final(self).instance_exports_spec(j) == old(
                    self,
                ).instance_exports_spec(j),
            final(self).config_spec() == old(self).config_spec(),
            final(self).data_spec() == old(self).data_spec(),
            final(self).fuel_added_spec() == old(self).fuel_added_spec(),
            final(self).fuel_used_spec() >= old(self).fuel_used_spec(),
            final(self).fuel_used_spec() <= final(self).fuel_added_spec(),
            final(self).func_count() == old(self).func_count(),
            forall|j: int|
                0 <= j < old(self).func_count() ==> final(self).func_params(j) == old(
                    self,
                ).func_params(j) && final(self).func_results(j) == old(self).func_results(j),
    {
        let mcfg = module.config();
        let same_cfg = self.cfg.static_memory_max_size == mcfg.static_memory_max_size
            && self.cfg.static_memory_guard_size == mcfg.static_memory_guard_size
            && self.cfg.debug_info == mcfg.debug_info && self.cfg.fuel_metering
            == mcfg.fuel_metering && self.cfg.interruptible == mcfg.interruptible;
        if !same_cfg {
            return Err(InstantiationError::EngineMismatch);
        }
        proof {
            assert(self.cfg == mcfg);
        }
        if !engines_same_raw(&self.engine, &module.engine) {
            return Err(InstantiationError::EngineMismatch);
        }
        let outcome = instance_new_raw(&mut self.raw, &module.raw);
        self.refresh_fuel();
        match outcome {
            Ok(inst) => {
                let i = self.instances.len();
                self.instances.push(inst);
                proof {
                    lemma_module_exports(module);
                }
                Ok(i)
            },
            Err(m) => Err(InstantiationError::Failed(m)),
        }
    }

    /// Looks up a function export of instance `instance` by exact,
    /// case-sensitive name. A handle that this store never issued is
    /// `NoSuchInstance`; a name the instance does not export as a function
    /// is exactly `NotFound`; a name it does export yields exactly the new
    /// function handle, recorded with the export's declared signature.
    pub fn get_export_func(&mut self, instance: usize, name: &str) -> (r: Result<
        usize,
        ExportError,
    >)
        requires
            old(self).wf(),
        ensures
            final(self).wf(),
            instance >= old(self).instance_count() <==> r == Err::<usize, ExportError>(
                ExportError::NoSuchInstance,
            ),
            instance < old(self).instance_count() ==> ((r is Ok) <==> old(
                self,
            ).instance_exports_spec(instance as int).contains_key(name@)),
            instance < old(self).instance_count() ==> (r == Err::<usize, ExportError>(
                ExportError::NotFound,
            ) <==> !old(self).instance_exports_spec(instance as int).contains_key(name@)),
            r matches Ok(f) ==> f == old(self).func_count() && final(self).func_count() == old(
                self,
            ).func_count() + 1 && final(self).func_params(f as int) == old(
                self,
            ).instance_exports_spec(instance as int)[name@].0 && final(self).func_results(f as int)
                == old(self).instance_exports_spec(instance as int)[name@].1,
            r is Err ==> final(self).func_count() == old(self).func_count(),
            final(self).instance_count() == old(self).instance_count(),
            forall|j: int|
                0 <= j < old(self).instance_count() ==> final(self).instance_exports_spec(j) == old(
                    self,
                ).instance_exports_spec(j),
            final(self).config_spec() == old(self).config_spec(),
            final(self).data_spec() == old(self).data_spec(),
            final(self).fuel_added_spec() == old(self).fuel_added_spec(),
            final(self).fuel_used_spec() == old(self).fuel_used_spec(),
            forall|j: int|
                0 <= j < old(self).func_count() ==> final(self).func_params(j) == old(
                    self,
                ).func_params(j) && final(self).func_results(j) == old(self).func_results(j),
    {
        if instance >= self.instances.len() {
            return Err(ExportError::NoSuchInstance);
        }
        let inst = self.instances[instance];
        match instance_get_func_raw(&mut self.raw, &inst, name) {
            None => Err(ExportError::NotFound),
            Some((f, params, results)) => {
                let idx = self.funcs.len();
                self.funcs.push(FuncEntry { raw: f, params, results });
                Ok(idx)
            },
        }
    }

    /// Calls function handle `func` with `args`. An argument list whose
    /// arity or kinds disagree with the declared parameters never begins
    /// execution and is exactly `TypeMismatch`. Execution runs under the
    /// store's metering and interruption; fuel consumed only grows and
    /// never exceeds the fuel added. On success the results arrive in
    /// declared order, one per declared result, each carrying its declared
    /// kind; `UnsupportedValue` can only arise from a declared reference
    /// result, which the host cannot carry.
    #[verifier::loop_isolation(false)]
    pub fn call(&mut self, func: usize, args: &Vec<Value>) -> (r: Result<Vec<Value>, CallError>)
        requires
            old(self).wf(),
        ensures
            final(self).wf(),
            func >= old(self).func_count() <==> r == Err::<Vec<Value>, CallError>(
                CallError::NoSuchFunction,
            ),
            func < old(self).func_count() ==> (r == Err::<Vec<Value>, CallError>(
                CallError::TypeMismatch,
            ) <==> !args_match_spec(old(self).func_params(func as int), args@)),
            r == Err::<Vec<Value>, CallError>(CallError::NoSuchFunction) || r == Err::<
                Vec<Value>,
                CallError,
            >(CallError::TypeMismatch) ==> *final(self) == *old(self),
            r matches Ok(vals) ==> vals@.len() == old(self).func_results(func as int).len()
                && forall|k: int|
                0 <= k < vals@.len() ==> (#[trigger] vals@[k]).kind_spec() == old(
                    self,
                ).func_results(func as int)[k],
            r == Err::<Vec<Value>, CallError>(CallError::UnsupportedValue) ==> exists|k: int|
                0 <= k < old(self).func_results(func as int).len() && old(self).func_results(
                    func as int,
                )[k] == ValueKind::Ref,
            final(self).instance_count() == old(self).instance_count(),
            forall|j: int|
                0 <= j < old(self).instance_count() ==> final(self).instance_exports_spec(j) == old(
                    self,
                ).instance_exports_spec(j),
            final(self).func_count() == old(self).func_count(),
            forall|j: int|
                0 <= j < old(self).func_count() ==> final(self).func_params(j) == old(
                    self,
                ).func_params(j) && final(self).func_results(j) == old(self).func_results(j),
            final(self).config_spec() == old(self).config_spec(),
            final(self).data_spec() == old(self).data_spec(),
            final(self).fuel_added_spec() == old(self).fuel_added_spec(),
            final(self).fuel_used_spec() >= old(self).fuel_used_spec(),
            final(self).fuel_used_spec() <= final(self).fuel_added_spec(),
    {
        if func >= self.funcs.len() {
            return Err(CallError::NoSuchFunction);
        }
        if !args_match(&self.funcs[func].params, args) {
            return Err(CallError::TypeMismatch);
        }
        let mut raw_args: Vec<wasmtime::Val> = Vec::new();
        let mut k: usize = 0;
        while k < args.len()
            invariant
                k <= args@.len(),
            decreases args@.len() - k,
        {
            let a = args[k];
            raw_args.push(value_to_val_raw(&a));
            k += 1;
        }
        let nresults = self.funcs[func].results.len();
        let fres = func_call_raw(&mut self.raw, &self.funcs[func].raw, &raw_args, nresults);
        self.refresh_fuel();
        match fres {
            Ok(raw_vals) => {
                let mut vals: Vec<Value> = Vec::new();
                let n = raw_vals.len();
                let mut j: usize = 0;
                while j < n
                    invariant
                        j <= n,
                        n == raw_vals@.len(),
                        vals@.len() == j,
                        forall|t: int|
                            0 <= t < j ==> (#[trigger] vals@[t]).kind_spec() == old(
                                self,
                            ).func_results(func as int)[t],
                    decreases n - j,
                {
                    match val_to_value_raw(&raw_vals[j]) {
                        Some(v) => vals.push(v),
                        None => {
                            return Err(CallError::UnsupportedValue);
                        },
                    }
                    j += 1;
                }
                Ok(vals)
            },
            Err(e) => Err(e),
        }
    }

    /// Cumulative fuel consumed by calls in this store so far: `None`
    /// exactly when metering is disabled, otherwise a value that never
    /// exceeds the fuel added.
    pub fn fuel_consumed(&self) -> (r: Option<u64>)
        requires
            self.wf(),
        ensures
            r is Some <==> self.metering_spec(),
            r matches Some(c) ==> c == self.fuel_used_spec() && c <= self.fuel_added_spec(),
    {
        if self.cfg.fuel_metering {
            Some(self.fuel_used)
        } else {
            None
        }
    }

    /// Adds `amount` to the fuel budget: exactly `MeteringDisabled` when
    /// the engine does not meter fuel, exactly `Overflow` when the
    /// cumulative budget would leave the counter's range, and otherwise
    /// success is owed: the budget grows by `amount` and consumption is
    /// unchanged.
    pub fn add_fuel(&mut self, amount: u64) -> (r: Result<(), FuelError>)
        requires
            old(self).wf(),
        ensures
            final(self).wf(),
            !old(self).metering_spec() <==> r == Err::<(), FuelError>(FuelError::MeteringDisabled),
            old(self).metering_spec() && old(self).fuel_added_spec() + amount > u64::MAX <==> r
                == Err::<(), FuelError>(FuelError::Overflow),
            r is Ok <==> old(self).metering_spec() && old(self).fuel_added_spec() + amount
                <= u64::MAX,
            r is Ok ==> final(self).fuel_added_spec() == old(self).fuel_added_spec() + amount,
            r is Err ==> final(self).fuel_added_spec() == old(self).fuel_added_spec(),
            final(self).fuel_used_spec() == old(self).fuel_used_spec(),
            final(self).config_spec() == old(self).config_spec(),
            final(self).data_spec() == old(self).data_spec(),
            final(self).instance_count() == old(self).instance_count(),
            forall|j: int|
                0 <= j < old(self).instance_count() ==> final(self).instance_exports_spec(j) == old(
                    self,
                ).instance_exports_spec(j),
            final(self).func_count() == old(self).func_count(),
            forall|j: int|
                0 <= j < old(self).func_count() ==> final(self).func_params(j) == old(
                    self,
                ).func_params(j) && final(self).func_results(j) == old(self).func_results(j),
    {
        if !self.cfg.fuel_metering {
            return Err(FuelError::MeteringDisabled);
        }
        if amount > u64::MAX - self.fuel_added {
            return Err(FuelError::Overflow);
        }
        let new_budget = self.fuel_added + amount;
        let remaining = new_budget - self.fuel_used;
        let backend = store_set_fuel_raw(&mut self.raw, remaining);
        proof {
            assert(backend is Ok);
        }
        self.fuel_added = new_budget;
        Ok(())
    }

    /// Obtains the interruption control: available exactly when
    /// interruption was enabled at engine construction, otherwise the
    /// recoverable `Disabled` error. The control is engine-scoped — one
    /// request permanently interrupts running and later calls in every
    /// interruptible store of this store's engine, this store included —
    /// so give each store that must be interruptible alone its own engine.
    pub fn interrupt_handle(&self) -> (r: Result<InterruptHandle, InterruptError>)
        ensures
            r is Ok <==> self.interruptible_spec(),
    {
        if self.cfg.interruptible {
            Ok(InterruptHandle { engine: engine_clone_raw(&self.engine) })
        } else {
            Err(InterruptError::Disabled)
        }
    }
}

} // verus!
