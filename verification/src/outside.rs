//! The trusted boundary to the wasmtime runtime. Every function here is
//! `external_body`: its body holds the named runtime call (or, for the
//! engine builder and the export lookup, the few named calls) plus
//! one-for-one argument and result conversion, and its contract states no
//! more than the runtime's own source shows. The uninterpreted spec
//! functions below name fixed properties of the runtime's opaque values;
//! only the contracts in this file say anything about them. Everything
//! else in the crate is verified against these contracts.

use vstd::prelude::*;

use crate::config::HostConfig;
use crate::errors::CallError;
use crate::value::{Value, ValueKind};

verus! {

#[verifier::external_type_specification]
#[verifier::external_body]
pub struct ExEngine(wasmtime::Engine);

#[verifier::external_type_specification]
#[verifier::external_body]
pub struct ExModule(wasmtime::Module);

#[verifier::external_type_specification]
#[verifier::external_body]
#[verifier::reject_recursive_types(T)]
pub struct ExStore<T: 'static>(wasmtime::Store<T>);

#[verifier::external_type_specification]
#[verifier::external_body]
pub struct ExInstance(wasmtime::Instance);

#[verifier::external_type_specification]
#[verifier::external_body]
pub struct ExFunc(wasmtime::Func);

#[verifier::external_type_specification]
#[verifier::external_body]
pub struct ExVal(wasmtime::Val);

#[verifier::external_type_specification]
#[verifier::external_body]
pub struct ExValType(wasmtime::ValType);

// Whether an engine was configured to meter fuel: fixed when the engine is
// built, shared by every handle to it.
pub uninterp spec fn engine_meters_fuel(e: wasmtime::Engine) -> bool;

// Whether a store's engine was configured to meter fuel: the store binds
// its engine at creation and never changes it.
pub uninterp spec fn store_meters_fuel(s: wasmtime::Store<()>) -> bool;

// Whether a module can be serialized: true of every module the runtime
// compiles from source or deserializes from an image; only a module lifted
// out of a component lacks it.
pub uninterp spec fn module_serializable(m: wasmtime::Module) -> bool;

// A module's function exports: export name to declared (parameter kinds,
// result kinds), fixed at compilation.
pub uninterp spec fn module_func_exports(m: wasmtime::Module) -> Map<
    Seq<char>,
    (Seq<ValueKind>, Seq<ValueKind>),
>;

// An instance's function exports. An instance handle names one instance of
// one store (it carries both identifiers), so its export table is a fixed
// function of the handle.
pub uninterp spec fn instance_func_exports(i: wasmtime::Instance) -> Map<
    Seq<char>,
    (Seq<ValueKind>, Seq<ValueKind>),
>;

// A function handle's declared (parameter kinds, result kinds), fixed when
// the function is created.
pub uninterp spec fn func_signature(f: wasmtime::Func) -> (Seq<ValueKind>, Seq<ValueKind>);

// The kind tag of a runtime value, every reference kind as `Ref`.
pub uninterp spec fn val_kind(v: wasmtime::Val) -> ValueKind;

/// Relies on wasmtime::Config's setters and wasmtime::Engine::new: builds an
/// engine from the given configuration; `Err` carries the backend's message.
/// The engine records the fuel-metering choice permanently.
#[verifier::external_body]
pub(crate) fn engine_new_raw(cfg: &HostConfig) -> (r: Result<wasmtime::Engine, String>)
    ensures
        r matches Ok(e) ==> engine_meters_fuel(e) == cfg.fuel_metering,
{
    let mut c = wasmtime::Config::new();
    c.memory_reservation(cfg.static_memory_max_size);
    c.memory_guard_size(cfg.static_memory_guard_size);
    c.debug_info(cfg.debug_info);
    c.consume_fuel(cfg.fuel_metering);
    c.epoch_interruption(cfg.interruptible);
    match wasmtime::Engine::new(&c) {
        Ok(e) => Ok(e),
        Err(e) => Err(e.to_string()),
    }
}

/// Relies on wasmtime::Engine::clone: an engine is a shared handle, and the
/// clone controls the same engine (in particular, the same epoch counter).
#[verifier::external_body]
pub(crate) fn engine_clone_raw(e: &wasmtime::Engine) -> (r: wasmtime::Engine) {
    e.clone()
}

/// Relies on wasmtime::Engine::same: true exactly when both handles name one
/// engine, the condition under which wasmtime accepts a module in a store.
#[verifier::external_body]
pub(crate) fn engines_same_raw(a: &wasmtime::Engine, b: &wasmtime::Engine) -> (r: bool) {
    wasmtime::Engine::same(a, b)
}

/// Relies on wasmtime::Engine::increment_epoch: advances the engine's epoch,
/// so any execution whose store's deadline has passed traps at its next
/// checkpoint.
#[verifier::external_body]
pub(crate) fn engine_increment_epoch_raw(e: &wasmtime::Engine) {
    e.increment_epoch();
}

/// Relies on wasmtime::Module::new: compiles and validates source bytes
/// (text or binary); `Err` carries the backend's message. Every module this
/// constructor yields is serializable.
#[verifier::external_body]
pub(crate) fn module_compile_raw(
    e: &wasmtime::Engine,
    source: &Vec<u8>,
) -> (r: Result<wasmtime::Module, String>)
    ensures
        r matches Ok(m) ==> module_serializable(m),
{
    match wasmtime::Module::new(e, source.as_slice()) {
        Ok(m) => Ok(m),
        Err(e) => Err(e.to_string()),
    }
}

/// Relies on wasmtime::Module::serialize: yields the compiled image of the
/// module as bytes. Its only failure is a module that cannot be serialized
/// (one lifted out of a component), so a serializable module succeeds.
#[verifier::external_body]
pub(crate) fn module_serialize_raw(m: &wasmtime::Module) -> (r: Result<Vec<u8>, String>)
    ensures
        module_serializable(*m) ==> r is Ok,
{
    match m.serialize() {
        Ok(b) => Ok(b),
        Err(e) => Err(e.to_string()),
    }
}

/// Relies on wasmtime::Module::engine and wasmtime::Engine::clone: a handle
/// to the engine this module was actually compiled for.
#[verifier::external_body]
pub(crate) fn module_engine_raw(m: &wasmtime::Module) -> (r: wasmtime::Engine) {
    m.engine().clone()
}

/// Relies on wasmtime::Store::new: a fresh, empty, isolated execution
/// context bound to the given engine, metering fuel exactly when that
/// engine does.
#[verifier::external_body]
pub(crate) fn store_new_raw(e: &wasmtime::Engine) -> (r: wasmtime::Store<()>)
    ensures
        store_meters_fuel(r) == engine_meters_fuel(*e),
{
    wasmtime::Store::new(e, ())
}

/// Relies on wasmtime::Store::set_epoch_deadline: the store's executions
/// trap at their next checkpoint once the engine's epoch has advanced
/// `ticks` beyond the epoch current at this call. The store's engine
/// binding is untouched.
#[verifier::external_body]
pub(crate) fn store_set_epoch_deadline_raw(s: &mut wasmtime::Store<()>, ticks: u64)
    ensures
        store_meters_fuel(*final(s)) == store_meters_fuel(*old(s)),
    no_unwind
{
    s.set_epoch_deadline(ticks);
}

/// Relies on wasmtime::Store::get_fuel: the fuel remaining for execution;
/// `Err` exactly when the engine does not meter fuel.
#[verifier::external_body]
pub(crate) fn store_get_fuel_raw(s: &wasmtime::Store<()>) -> (r: Result<u64, String>)
    ensures
        store_meters_fuel(*s) ==> r is Ok,
{
    match s.get_fuel() {
        Ok(f) => Ok(f),
        Err(e) => Err(e.to_string()),
    }
}

/// Relies on wasmtime::Store::set_fuel: sets the fuel remaining for
/// execution; `Err` exactly when the engine does not meter fuel. The
/// store's engine binding is untouched.
#[verifier::external_body]
pub(crate) fn store_set_fuel_raw(s: &mut wasmtime::Store<()>, fuel: u64) -> (r: Result<
    (),
    String,
>)
    ensures
        store_meters_fuel(*old(s)) ==> r is Ok,
        store_meters_fuel(*final(s)) == store_meters_fuel(*old(s)),
    no_unwind
{
    match s.set_fuel(fuel) {
        Ok(()) => Ok(()),
        Err(e) => Err(e.to_string()),
    }
}

/// Relies on wasmtime::Instance::new with no imports: runs the module's
/// start function to completion and yields the instance, whose function
/// exports are exactly the module's; or an error for a module that declares
/// imports, was built by another engine, trapped during start-up, or
/// exhausted resources. With an empty import list the call cannot panic:
/// its only panic condition is an import owned by another store. The
/// store's engine binding is untouched.
#[verifier::external_body]
pub(crate) fn instance_new_raw(
    s: &mut wasmtime::Store<()>,
    m: &wasmtime::Module,
) -> (r: Result<wasmtime::Instance, String>)
    ensures
        r matches Ok(i) ==> instance_func_exports(i) == module_func_exports(*m),
        store_meters_fuel(*final(s)) == store_meters_fuel(*old(s)),
    no_unwind
{
    match wasmtime::Instance::new(&mut *s, m, &[]) {
        Ok(i) => Ok(i),
        Err(e) => Err(e.to_string()),
    }
}

/// Relies on wasmtime::Instance::get_func and wasmtime::Func::ty:
/// case-sensitive lookup of a function export — `Some` exactly when the
/// instance exports a function of that name — yielding the handle together
/// with its declared parameter and result kinds in declaration order.
/// wasmtime panics on an instance a store does not own — a condition no
/// spec over these opaque types can state — so the library only ever passes
/// instances out of the store's own list, all created in that store.
#[verifier::external_body]
pub(crate) fn instance_get_func_raw(
    s: &mut wasmtime::Store<()>,
    i: &wasmtime::Instance,
    name: &str,
) -> (r: Option<(wasmtime::Func, Vec<ValueKind>, Vec<ValueKind>)>)
    ensures
        r is Some <==> instance_func_exports(*i).contains_key(name@),
        r matches Some(t) ==> instance_func_exports(*i)[name@] == (t.1@, t.2@)
            && func_signature(t.0) == (t.1@, t.2@),
        store_meters_fuel(*final(s)) == store_meters_fuel(*old(s)),
{
    let f = i.get_func(&mut *s, name)?;
    let ty = f.ty(&*s);
    let params = ty.params().map(|t| valtype_kind_raw(&t)).collect();
    let results = ty.results().map(|t| valtype_kind_raw(&t)).collect();
    Some((f, params, results))
}

/// Relies on wasmtime::ValType: maps each of its variants to the host-side
/// kind tag, every reference type to `Ref`.
#[verifier::external_body]
pub(crate) fn valtype_kind_raw(t: &wasmtime::ValType) -> (r: ValueKind) {
    match t {
        wasmtime::ValType::I32 => ValueKind::I32,
        wasmtime::ValType::I64 => ValueKind::I64,
        wasmtime::ValType::F32 => ValueKind::F32,
        wasmtime::ValType::F64 => ValueKind::F64,
        wasmtime::ValType::V128 => ValueKind::V128,
        wasmtime::ValType::Ref(_) => ValueKind::Ref,
    }
}

/// Relies on wasmtime::Val's constructors: the runtime value carrying the
/// given host value — bit patterns for the floating-point kinds — with the
/// same kind tag.
#[verifier::external_body]
pub(crate) fn value_to_val_raw(v: &Value) -> (r: wasmtime::Val)
    ensures
        val_kind(r) == v.kind_spec(),
{
    match v {
        Value::I32(x) => wasmtime::Val::I32(*x),
        Value::I64(x) => wasmtime::Val::I64(*x),
        Value::F32Bits(x) => wasmtime::Val::F32(*x),
        Value::F64Bits(x) => wasmtime::Val::F64(*x),
        Value::V128(x) => wasmtime::Val::V128((*x).into()),
    }
}

/// Relies on wasmtime::Val's accessors: the host value carried by the
/// runtime value, of the same kind tag, or `None` exactly for a reference,
/// which the host cannot carry.
#[verifier::external_body]
pub(crate) fn val_to_value_raw(v: &wasmtime::Val) -> (r: Option<Value>)
    ensures
        r is Some <==> val_kind(*v) != ValueKind::Ref,
        r matches Some(x) ==> x.kind_spec() == val_kind(*v),
{
    match v {
        wasmtime::Val::I32(x) => Some(Value::I32(*x)),
        wasmtime::Val::I64(x) => Some(Value::I64(*x)),
        wasmtime::Val::F32(x) => Some(Value::F32Bits(*x)),
        wasmtime::Val::F64(x) => Some(Value::F64Bits(*x)),
        wasmtime::Val::V128(x) => Some(Value::V128(x.as_u128())),
        _ => None,
    }
}

/// Relies on wasmtime::Func::call: runs the function under the store's
/// metering and interruption. On success the result buffer, sized here to
/// `nresults`, is filled in declared order with values of the declared
/// result kinds (a buffer not matching the declared arity is an `Err`, so
/// success also fixes `nresults`). A fuel-exhaustion trap is reported as
/// `OutOfFuel`, an epoch-deadline trap as `Interrupted`, every other
/// failure (including a mismatched argument list) as `Trap` with the
/// runtime's message. wasmtime panics on a function a store does not own —
/// a condition no spec over these opaque types can state — so the library
/// only ever passes functions out of the store's own list, all resolved in
/// that store. The store's engine binding is untouched.
#[verifier::external_body]
pub(crate) fn func_call_raw(
    s: &mut wasmtime::Store<()>,
    f: &wasmtime::Func,
    args: &Vec<wasmtime::Val>,
    nresults: usize,
) -> (r: Result<Vec<wasmtime::Val>, CallError>)
    ensures
        r matches Ok(vals) ==> vals@.len() == nresults && nresults == func_signature(
            *f,
        ).1.len() && forall|k: int|
            0 <= k < vals@.len() ==> val_kind(#[trigger] vals@[k]) == func_signature(*f).1[k],
        r matches Err(e) ==> e is OutOfFuel || e is Interrupted || e is Trap,
        store_meters_fuel(*final(s)) == store_meters_fuel(*old(s)),
{
    let mut outs = vec![wasmtime::Val::I32(0); nresults];
    match f.call(&mut *s, args.as_slice(), &mut outs) {
        Ok(()) => Ok(outs),
        Err(e) => Err(match e.downcast_ref::<wasmtime::Trap>() {
            Some(wasmtime::Trap::OutOfFuel) => CallError::OutOfFuel,
            Some(wasmtime::Trap::Interrupt) => CallError::Interrupted,
            _ => CallError::Trap(e.to_string()),
        }),
    }
}

} // verus!
