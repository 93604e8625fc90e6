//! End-to-end scenarios: compilation, instantiation, invocation, metering,
//! interruption, isolation, and containment.

use wasm_host::config::HostConfig;
use wasm_host::engine::HostEngine;
use wasm_host::errors::{
    CallError, CompileError, ConfigError, ExportError, FuelError, InstantiationError,
    InterruptError,
};
use wasm_host::module::HostModule;
use wasm_host::store::HostStore;
use wasm_host::value::Value;

const ADD_WAT: &str =
    "(module (func (export \"add\") (param i32 i32) (result i32) local.get 0 local.get 1 i32.add))";

const SPIN_WAT: &str = "(module (func (export \"spin\") (loop $l (br $l))))";

const COUNTER_WAT: &str = "(module
  (global $g (mut i32) (i32.const 0))
  (func (export \"bump\") (result i32)
    global.get $g
    i32.const 1
    i32.add
    global.set $g
    global.get $g))";

const BOOM_WAT: &str = "(module (func (export \"boom\") unreachable))";

const OOB_WAT: &str =
    "(module (memory 1) (func (export \"oob\") (result i32) (i32.load (i32.const 99999999))))";

fn cfg(fuel: bool, interruptible: bool) -> HostConfig {
    HostConfig {
        static_memory_max_size: 1_024_000,
        static_memory_guard_size: 512_000,
        debug_info: true,
        fuel_metering: fuel,
        interruptible,
    }
}

fn engine(fuel: bool, interruptible: bool) -> HostEngine {
    HostEngine::new(cfg(fuel, interruptible)).expect("engine")
}

fn compile(engine: &HostEngine, wat: &str) -> HostModule {
    HostModule::compile(engine, &wat.as_bytes().to_vec()).expect("compile")
}

#[test]
fn add_two_and_thirty_four() {
    let engine = engine(false, false);
    let module = compile(&engine, ADD_WAT);
    let mut store: HostStore<()> = HostStore::new(&engine, ());
    let inst = store.instantiate(&module).expect("instantiate");
    let add = store.get_export_func(inst, "add").expect("export");
    let ret = store.call(add, &vec![Value::I32(2), Value::I32(34)]).expect("call");
    assert_eq!(ret, vec![Value::I32(36)]);
}

#[test]
fn add_larger_operands() {
    let engine = engine(false, false);
    let module = compile(&engine, ADD_WAT);
    let mut store: HostStore<()> = HostStore::new(&engine, ());
    let inst = store.instantiate(&module).expect("instantiate");
    let add = store.get_export_func(inst, "add").expect("export");
    let ret = store.call(add, &vec![Value::I32(232), Value::I32(3423)]).expect("call");
    assert_eq!(ret, vec![Value::I32(3655)]);
}

#[test]
fn same_module_twice_in_one_store() {
    let engine = engine(false, false);
    let module = compile(&engine, ADD_WAT);
    let mut store: HostStore<()> = HostStore::new(&engine, ());
    let inst1 = store.instantiate(&module).expect("instantiate 1");
    let inst2 = store.instantiate(&module).expect("instantiate 2");
    assert_ne!(inst1, inst2);
    let add1 = store.get_export_func(inst1, "add").expect("export 1");
    let add2 = store.get_export_func(inst2, "add").expect("export 2");
    let args = vec![Value::I32(7), Value::I32(11)];
    let r1 = store.call(add1, &args).expect("call 1");
    let r2 = store.call(add2, &args).expect("call 2");
    assert_eq!(r1, r2);
    assert_eq!(r1, vec![Value::I32(18)]);
}

#[test]
fn out_of_fuel_rather_than_wrong_result() {
    let engine = engine(true, false);
    let module = compile(&engine, SPIN_WAT);
    let mut store: HostStore<()> = HostStore::new(&engine, ());
    let inst = store.instantiate(&module).expect("instantiate");
    let spin = store.get_export_func(inst, "spin").expect("export");
    store.add_fuel(1000).expect("add_fuel");
    let ret = store.call(spin, &vec![]);
    assert_eq!(ret, Err(CallError::OutOfFuel));
    let consumed = store.fuel_consumed().expect("metered");
    assert!(consumed <= 1000);
    assert!(consumed > 0);
}

#[test]
fn missing_export_is_not_found() {
    let engine = engine(false, false);
    let module = compile(&engine, ADD_WAT);
    let mut store: HostStore<()> = HostStore::new(&engine, ());
    let inst = store.instantiate(&module).expect("instantiate");
    let r = store.get_export_func(inst, "nonexistent");
    assert_eq!(r, Err(ExportError::NotFound));
}

#[test]
fn unknown_instance_handle_is_rejected() {
    let engine = engine(false, false);
    let mut store: HostStore<()> = HostStore::new(&engine, ());
    let r = store.get_export_func(3, "add");
    assert_eq!(r, Err(ExportError::NoSuchInstance));
}

#[test]
fn unknown_function_handle_is_rejected() {
    let engine = engine(false, false);
    let mut store: HostStore<()> = HostStore::new(&engine, ());
    let r = store.call(0, &vec![]);
    assert_eq!(r, Err(CallError::NoSuchFunction));
}

#[test]
fn wrong_arity_is_type_mismatch() {
    let engine = engine(false, false);
    let module = compile(&engine, ADD_WAT);
    let mut store: HostStore<()> = HostStore::new(&engine, ());
    let inst = store.instantiate(&module).expect("instantiate");
    let add = store.get_export_func(inst, "add").expect("export");
    let r = store.call(add, &vec![Value::I32(2)]);
    assert_eq!(r, Err(CallError::TypeMismatch));
}

#[test]
fn wrong_kind_is_type_mismatch() {
    let engine = engine(false, false);
    let module = compile(&engine, ADD_WAT);
    let mut store: HostStore<()> = HostStore::new(&engine, ());
    let inst = store.instantiate(&module).expect("instantiate");
    let add = store.get_export_func(inst, "add").expect("export");
    let r = store.call(add, &vec![Value::I64(2), Value::I32(34)]);
    assert_eq!(r, Err(CallError::TypeMismatch));
}

#[test]
fn isolation_between_stores() {
    let engine = engine(false, false);
    let module = compile(&engine, COUNTER_WAT);
    let mut store1: HostStore<()> = HostStore::new(&engine, ());
    let mut store2: HostStore<()> = HostStore::new(&engine, ());
    let inst1 = store1.instantiate(&module).expect("instantiate 1");
    let inst2 = store2.instantiate(&module).expect("instantiate 2");
    let bump1 = store1.get_export_func(inst1, "bump").expect("export 1");
    let bump2 = store2.get_export_func(inst2, "bump").expect("export 2");
    assert_eq!(store1.call(bump1, &vec![]).unwrap(), vec![Value::I32(1)]);
    assert_eq!(store1.call(bump1, &vec![]).unwrap(), vec![Value::I32(2)]);
    assert_eq!(store2.call(bump2, &vec![]).unwrap(), vec![Value::I32(1)]);
    assert_eq!(store1.call(bump1, &vec![]).unwrap(), vec![Value::I32(3)]);
}

#[test]
fn isolation_between_instances_in_one_store() {
    let engine = engine(false, false);
    let module = compile(&engine, COUNTER_WAT);
    let mut store: HostStore<()> = HostStore::new(&engine, ());
    let inst1 = store.instantiate(&module).expect("instantiate 1");
    let inst2 = store.instantiate(&module).expect("instantiate 2");
    let bump1 = store.get_export_func(inst1, "bump").expect("export 1");
    let bump2 = store.get_export_func(inst2, "bump").expect("export 2");
    assert_eq!(store.call(bump1, &vec![]).unwrap(), vec![Value::I32(1)]);
    assert_eq!(store.call(bump1, &vec![]).unwrap(), vec![Value::I32(2)]);
    assert_eq!(store.call(bump2, &vec![]).unwrap(), vec![Value::I32(1)]);
}

#[test]
fn trap_is_contained() {
    let engine = engine(false, false);
    let boom = compile(&engine, BOOM_WAT);
    let add = compile(&engine, ADD_WAT);
    let mut store: HostStore<()> = HostStore::new(&engine, ());
    let boom_inst = store.instantiate(&boom).expect("instantiate boom");
    let boom_fn = store.get_export_func(boom_inst, "boom").expect("export boom");
    let r = store.call(boom_fn, &vec![]);
    assert!(matches!(r, Err(CallError::Trap(_))));
    // The host survives and the store stays usable for further work.
    let add_inst = store.instantiate(&add).expect("instantiate add");
    let add_fn = store.get_export_func(add_inst, "add").expect("export add");
    let ret = store.call(add_fn, &vec![Value::I32(1), Value::I32(2)]).expect("call add");
    assert_eq!(ret, vec![Value::I32(3)]);
}

#[test]
fn out_of_bounds_access_is_contained() {
    let engine = engine(false, false);
    let module = compile(&engine, OOB_WAT);
    let mut store: HostStore<()> = HostStore::new(&engine, ());
    let inst = store.instantiate(&module).expect("instantiate");
    let oob = store.get_export_func(inst, "oob").expect("export");
    let r = store.call(oob, &vec![]);
    assert!(matches!(r, Err(CallError::Trap(_))));
}

#[test]
fn reference_result_is_unsupported() {
    let engine = engine(false, false);
    let module = compile(
        &engine,
        "(module (func (export \"refr\") (result funcref) ref.null func))",
    );
    let mut store: HostStore<()> = HostStore::new(&engine, ());
    let inst = store.instantiate(&module).expect("instantiate");
    let f = store.get_export_func(inst, "refr").expect("export");
    assert_eq!(store.call(f, &vec![]), Err(CallError::UnsupportedValue));
}

#[test]
fn reference_parameter_cannot_be_supplied() {
    let engine = engine(false, false);
    let module = compile(&engine, "(module (func (export \"refp\") (param funcref)))");
    let mut store: HostStore<()> = HostStore::new(&engine, ());
    let inst = store.instantiate(&module).expect("instantiate");
    let f = store.get_export_func(inst, "refp").expect("export");
    assert_eq!(store.call(f, &vec![Value::I64(0)]), Err(CallError::TypeMismatch));
    assert_eq!(store.call(f, &vec![]), Err(CallError::TypeMismatch));
}

#[test]
fn interrupt_terminates_call() {
    let engine = engine(false, true);
    let module = compile(&engine, SPIN_WAT);
    let mut store: HostStore<()> = HostStore::new(&engine, ());
    let inst = store.instantiate(&module).expect("instantiate");
    let spin = store.get_export_func(inst, "spin").expect("export");
    let handle = store.interrupt_handle().expect("handle");
    handle.interrupt();
    let r = store.call(spin, &vec![]);
    assert_eq!(r, Err(CallError::Interrupted));
}

#[test]
fn interrupt_handle_unavailable_when_disabled() {
    let engine = engine(false, false);
    let store: HostStore<()> = HostStore::new(&engine, ());
    let r = store.interrupt_handle();
    assert!(matches!(r, Err(InterruptError::Disabled)));
}

#[test]
fn fuel_calls_fail_when_metering_disabled() {
    let engine = engine(false, false);
    let mut store: HostStore<()> = HostStore::new(&engine, ());
    assert_eq!(store.add_fuel(10), Err(FuelError::MeteringDisabled));
    assert_eq!(store.fuel_consumed(), None);
}

#[test]
fn fuel_overflow_is_rejected() {
    let engine = engine(true, false);
    let mut store: HostStore<()> = HostStore::new(&engine, ());
    store.add_fuel(u64::MAX).expect("first add");
    assert_eq!(store.add_fuel(1), Err(FuelError::Overflow));
}

#[test]
fn fuel_consumption_grows_and_stays_bounded() {
    let engine = engine(true, false);
    let module = compile(&engine, ADD_WAT);
    let mut store: HostStore<()> = HostStore::new(&engine, ());
    let inst = store.instantiate(&module).expect("instantiate");
    let add = store.get_export_func(inst, "add").expect("export");
    store.add_fuel(10_000).expect("add_fuel");
    assert_eq!(store.fuel_consumed(), Some(0));
    store.call(add, &vec![Value::I32(1), Value::I32(2)]).expect("call 1");
    let c1 = store.fuel_consumed().expect("metered");
    store.call(add, &vec![Value::I32(3), Value::I32(4)]).expect("call 2");
    let c2 = store.fuel_consumed().expect("metered");
    assert!(c1 > 0);
    assert!(c2 >= c1);
    assert!(c2 <= 10_000);
}

#[test]
fn calling_without_fuel_runs_out_immediately() {
    let engine = engine(true, false);
    let module = compile(&engine, ADD_WAT);
    let mut store: HostStore<()> = HostStore::new(&engine, ());
    let inst = store.instantiate(&module).expect("instantiate");
    let add = store.get_export_func(inst, "add").expect("export");
    let r = store.call(add, &vec![Value::I32(1), Value::I32(2)]);
    assert_eq!(r, Err(CallError::OutOfFuel));
}

#[test]
fn cross_engine_module_is_rejected() {
    let engine_a = engine(false, false);
    let engine_b = engine(false, false);
    let module = compile(&engine_a, ADD_WAT);
    let mut store: HostStore<()> = HostStore::new(&engine_b, ());
    let r = store.instantiate(&module);
    assert_eq!(r, Err(InstantiationError::EngineMismatch));
}

#[test]
fn differently_configured_module_is_rejected() {
    let engine_a = engine(false, false);
    let engine_b = engine(true, false);
    let module = compile(&engine_a, ADD_WAT);
    let mut store: HostStore<()> = HostStore::new(&engine_b, ());
    let r = store.instantiate(&module);
    assert_eq!(r, Err(InstantiationError::EngineMismatch));
}

#[test]
fn unsatisfied_import_fails_instantiation() {
    let engine = engine(false, false);
    let module = compile(&engine, "(module (import \"env\" \"f\" (func)))");
    let mut store: HostStore<()> = HostStore::new(&engine, ());
    let r = store.instantiate(&module);
    assert!(matches!(r, Err(InstantiationError::Failed(_))));
}

#[test]
fn invalid_source_fails_compilation() {
    let engine = engine(false, false);
    let r = HostModule::compile(&engine, &b"(module (this is not wasm".to_vec());
    assert!(matches!(r, Err(CompileError::Invalid(_))));
}

#[test]
fn inconsistent_config_is_rejected() {
    let mut c = cfg(false, false);
    c.static_memory_max_size = u64::MAX;
    let r = HostEngine::new(c);
    assert!(matches!(r, Err(ConfigError::Inconsistent)));
}

#[test]
fn engine_reports_its_config() {
    let c = cfg(true, true);
    let e = HostEngine::new(c).expect("engine");
    assert_eq!(e.config(), c);
}

#[test]
fn store_data_slot_round_trips() {
    let engine = engine(false, false);
    let mut store: HostStore<u32> = HostStore::new(&engine, 7);
    assert_eq!(*store.data(), 7);
    store.set_data(42);
    assert_eq!(*store.data(), 42);
}
