use wasmhost::fuel::{run_metered, Checkpoint, FuelConfig, Outcome, RefillPolicy};
use wasmhost::lifecycle::{StoreState, Trap};
use wasmhost::linker::{DuplicatePolicy, LinkerRegistry};
use wasmhost::memory::MemoryError;
use wasmhost::module::{CompiledModule, EntryError, ExportDescriptor, ImportDescriptor};
use wasmhost::signature::{FuncSig, Limits, Signature, ValKind};
use wasmhost::store::{CallError, InstantiateError, InvokeError, ExecutionStore};

fn func(params: Vec<ValKind>, results: Vec<ValKind>) -> Signature {
    Signature::Func(FuncSig::new(params, results))
}

fn config(quantum: u64, threshold: u64, refill: RefillPolicy) -> FuelConfig {
    FuelConfig::cooperative(quantum, threshold, refill).unwrap()
}

fn log_module() -> CompiledModule {
    CompiledModule::new(
        vec![ImportDescriptor::new("", "", func(vec![ValKind::I32, ValKind::I32], vec![]))],
        vec![
            ExportDescriptor::new("foo", func(vec![], vec![])),
            ExportDescriptor::new("memory", Signature::Memory(Limits { minimum: 1, maximum: None })),
        ],
    )
}

fn log_registry() -> LinkerRegistry<&'static str> {
    let mut registry = LinkerRegistry::new(DuplicatePolicy::Reject);
    registry.register("", "", func(vec![ValKind::I32, ValKind::I32], vec![]), "log_str").unwrap();
    registry
}

#[test]
fn a_fresh_store_is_created_with_a_full_meter() {
    let store = ExecutionStore::new(7u32, config(10, 4, RefillPolicy::Bounded(1)));
    assert_eq!(store.current_state(), StoreState::Created);
    assert_eq!(*store.data(), 7);
    assert_eq!(store.fuel(), 10);
    assert_eq!(store.suspension_count(), 0);
    assert!(!store.has_memory());
    assert_eq!(store.memory_size(), None);
    assert_eq!(store.grant(), 0);
    assert_eq!(store.read_str(4, 13), Err(MemoryError::NoMemoryExport));
}

#[test]
fn instantiation_binds_imports_and_makes_the_memory() {
    let registry = log_registry();
    let module = log_module();
    let mut store = ExecutionStore::new((), FuelConfig::blocking(100).unwrap());
    let instance = store.instantiate(&registry, &module).unwrap();
    assert_eq!(store.current_state(), StoreState::Linked);
    assert_eq!(instance.import_count(), 1);
    assert_eq!(*instance.binding(0), "log_str");
    assert_eq!(instance.module().exports().len(), 2);
    assert_eq!(store.memory_size(), Some(65536));
    assert_eq!(store.read_str(0, 4), Ok("\0\0\0\0"));
}

#[test]
fn the_memory_of_a_store_grows_within_its_declared_limits() {
    let registry: LinkerRegistry<()> = LinkerRegistry::new(DuplicatePolicy::Reject);
    let module = CompiledModule::new(
        vec![],
        vec![ExportDescriptor::new(
            "memory",
            Signature::Memory(Limits { minimum: 1, maximum: Some(3) }),
        )],
    );
    let mut store = ExecutionStore::new((), FuelConfig::blocking(100).unwrap());
    assert_eq!(store.limits_of_memory().map(|l| (l.minimum, l.maximum)), None);
    assert_eq!(store.grow_memory(1), None);
    store.instantiate(&registry, &module).unwrap();
    assert_eq!(store.limits_of_memory().map(|l| (l.minimum, l.maximum)), Some((1, Some(3))));
    assert_eq!(store.write_memory(65530, b"at the end"), Err(MemoryError::OutOfBounds));
    assert_eq!(store.write_memory(10, b"kept"), Ok(()));
    assert_eq!(store.grow_memory(1), Some(1));
    assert_eq!(store.memory_size(), Some(2 * 65536));
    assert_eq!(store.write_memory(65530, b"at the end"), Ok(()));
    assert_eq!(store.read_str(65530, 10), Ok("at the end"));
    assert_eq!(store.read_str(10, 4), Ok("kept"));
    assert_eq!(store.grow_memory(2), None);
    assert_eq!(store.memory_size(), Some(2 * 65536));
    assert_eq!(store.grow_memory(1), Some(2));
    assert_eq!(store.grow_memory(0), Some(3));
    assert_eq!(store.grow_memory(1), None);
    assert_eq!(store.memory_size(), Some(3 * 65536));
    assert_eq!(store.read_str(2 * 65536, 3), Ok("\0\0\0"));
    assert_eq!(store.limits_of_memory().map(|l| (l.minimum, l.maximum)), Some((1, Some(3))));
    assert_eq!(store.current_state(), StoreState::Linked);
}

#[test]
fn failed_instantiation_leaves_the_store_untouched() {
    let registry: LinkerRegistry<&str> = LinkerRegistry::new(DuplicatePolicy::Reject);
    let module = log_module();
    let mut store = ExecutionStore::new((), FuelConfig::blocking(100).unwrap());
    match store.instantiate(&registry, &module) {
        Err(InstantiateError::Link(error)) => {
            assert!(error.is_unresolved());
            assert_eq!((error.module(), error.name()), ("", ""));
        }
        _ => panic!("the import is not registered"),
    }
    assert_eq!(store.current_state(), StoreState::Created);
    assert!(!store.has_memory());
    assert_eq!(store.begin_call(), Err(CallError::WrongState));
    let registry = log_registry();
    assert!(store.instantiate(&registry, &module).is_ok());
}

#[test]
fn a_store_is_instantiated_once() {
    let registry = log_registry();
    let module = log_module();
    let mut store = ExecutionStore::new((), FuelConfig::blocking(100).unwrap());
    assert!(store.instantiate(&registry, &module).is_ok());
    assert!(matches!(store.instantiate(&registry, &module), Err(InstantiateError::StoreNotFresh)));
    assert_eq!(store.current_state(), StoreState::Linked);
}

#[test]
fn memory_limits_that_cannot_be_met_fail_instantiation() {
    let registry: LinkerRegistry<&str> = LinkerRegistry::new(DuplicatePolicy::Reject);
    let module = CompiledModule::new(
        vec![],
        vec![ExportDescriptor::new(
            "memory",
            Signature::Memory(Limits { minimum: 3, maximum: Some(2) }),
        )],
    );
    let mut store = ExecutionStore::new((), FuelConfig::blocking(100).unwrap());
    assert!(matches!(store.instantiate(&registry, &module), Err(InstantiateError::MemoryLimits)));
    assert_eq!(store.current_state(), StoreState::Created);
}

#[test]
fn host_function_reads_hello_world_from_the_store() {
    let registry = log_registry();
    let module = log_module();
    let mut store = ExecutionStore::new(Vec::<String>::new(), FuelConfig::blocking(100).unwrap());
    let instance = store.instantiate(&registry, &module).unwrap();
    assert_eq!(store.write_memory(4, b"Hello, world!"), Ok(()));
    assert!(store.invoke(&instance, "foo", &FuncSig::new(vec![], vec![])).is_ok());
    let text = store.read_str(4, 13).map(|s| s.to_owned());
    assert_eq!(text.as_deref(), Ok("Hello, world!"));
    let mut log = store.replace_data(Vec::new());
    log.push(text.unwrap());
    store.replace_data(log);
    assert_eq!(store.finish_call(), Ok(()));
    assert_eq!(store.current_state(), StoreState::Completed);
    assert_eq!(store.data(), &vec!["Hello, world!".to_owned()]);
}

#[test]
fn host_function_failure_becomes_a_trap() {
    let registry = log_registry();
    let module = log_module();
    let mut store = ExecutionStore::new((), FuelConfig::blocking(100).unwrap());
    let instance = store.instantiate(&registry, &module).unwrap();
    store.invoke(&instance, "foo", &FuncSig::new(vec![], vec![])).unwrap();
    let error = store.read_str(65000, 1000).unwrap_err();
    assert_eq!(error, MemoryError::OutOfBounds);
    assert_eq!(store.fail(Trap::from_memory_error(error)), Ok(()));
    assert_eq!(
        store.current_state(),
        StoreState::Failed(Trap::from_memory_error(MemoryError::OutOfBounds))
    );
    assert_eq!(store.begin_call(), Err(CallError::WrongState));
    assert_eq!(
        store.invoke(&instance, "foo", &FuncSig::new(vec![], vec![])),
        Err(InvokeError::WrongState)
    );
}

#[test]
fn entry_point_type_is_checked_before_the_call_begins() {
    let registry = log_registry();
    let module = log_module();
    let mut store = ExecutionStore::new((), FuelConfig::blocking(100).unwrap());
    let instance = store.instantiate(&registry, &module).unwrap();
    assert_eq!(
        store.invoke(&instance, "foo", &FuncSig::new(vec![ValKind::I32], vec![])),
        Err(InvokeError::Entry(EntryError::TypeMismatch))
    );
    assert_eq!(
        store.invoke(&instance, "bar", &FuncSig::new(vec![], vec![])),
        Err(InvokeError::Entry(EntryError::ExportNotFound))
    );
    assert_eq!(
        store.invoke(&instance, "memory", &FuncSig::new(vec![], vec![])),
        Err(InvokeError::Entry(EntryError::TypeMismatch))
    );
    assert_eq!(store.current_state(), StoreState::Linked);
    assert_eq!(store.invoke(&instance, "foo", &FuncSig::new(vec![], vec![])), Ok(100));
    assert_eq!(store.current_state(), StoreState::Running { depth: 1 });
}

#[test]
fn a_call_suspends_and_resumes_under_its_budget() {
    let registry: LinkerRegistry<()> = LinkerRegistry::new(DuplicatePolicy::Reject);
    let module = CompiledModule::new(vec![], vec![]);
    let mut store = ExecutionStore::new((), config(10, 4, RefillPolicy::Bounded(0)));
    store.instantiate(&registry, &module).unwrap();
    assert_eq!(store.consume(1), Err(CallError::WrongState));
    assert_eq!(store.suspend(), Err(CallError::WrongState));
    assert_eq!(store.resume(), Err(CallError::WrongState));
    assert_eq!(store.finish_call(), Err(CallError::WrongState));
    assert_eq!(store.fail(Trap::Unreachable), Err(CallError::WrongState));
    assert_eq!(store.begin_call(), Ok(4));
    assert_eq!(store.consume(5), Err(CallError::OverBudget));
    assert_eq!(store.consume(4), Ok(()));
    assert_eq!(store.grant(), 0);
    assert_eq!(store.suspend(), Ok(Checkpoint::Yield));
    assert_eq!(store.current_state(), StoreState::Suspended { depth: 1 });
    assert_eq!(store.consume(1), Err(CallError::WrongState));
    assert_eq!(store.begin_call(), Err(CallError::WrongState));
    assert_eq!(store.resume(), Ok(4));
    assert_eq!(store.consume(4), Ok(()));
    assert_eq!(store.suspend(), Ok(Checkpoint::Yield));
    assert_eq!(store.resume(), Ok(2));
    assert_eq!(store.consume(2), Ok(()));
    assert_eq!(store.fuel(), 0);
    assert_eq!(store.suspend(), Ok(Checkpoint::Exhausted));
    assert_eq!(store.current_state(), StoreState::Failed(Trap::FuelExhausted));
    assert_eq!(store.suspension_count(), 2);
    assert_eq!(store.resume(), Err(CallError::WrongState));
}

#[test]
fn a_suspended_call_can_be_abandoned() {
    let registry: LinkerRegistry<()> = LinkerRegistry::new(DuplicatePolicy::Reject);
    let module = CompiledModule::new(vec![], vec![]);
    let mut store = ExecutionStore::new("kept".to_owned(), config(10, 4, RefillPolicy::Unbounded));
    store.instantiate(&registry, &module).unwrap();
    assert_eq!(store.begin_call(), Ok(4));
    assert_eq!(store.consume(4), Ok(()));
    assert_eq!(store.suspend(), Ok(Checkpoint::Yield));
    assert_eq!(store.into_data(), "kept");
    assert!(!registry.contains("", ""));
    let mut other = ExecutionStore::new((), config(10, 4, RefillPolicy::Unbounded));
    assert!(other.instantiate(&registry, &module).is_ok());
}

#[test]
fn run_to_end_completes_or_exhausts() {
    let registry: LinkerRegistry<()> = LinkerRegistry::new(DuplicatePolicy::Reject);
    let module = CompiledModule::new(vec![], vec![]);
    let mut store = ExecutionStore::new((), config(10, 4, RefillPolicy::Bounded(1)));
    assert_eq!(store.run_to_end(5), Err(CallError::WrongState));
    store.instantiate(&registry, &module).unwrap();
    assert_eq!(store.run_to_end(15), Ok(Outcome::Completed { suspensions: 4 }));
    assert_eq!(store.current_state(), StoreState::Completed);
    assert_eq!(store.suspension_count(), 4);
    assert_eq!(store.run_to_end(1), Err(CallError::WrongState));

    let mut store = ExecutionStore::new((), config(10, 4, RefillPolicy::Bounded(1)));
    store.instantiate(&registry, &module).unwrap();
    assert_eq!(
        store.run_to_end(21),
        Ok(Outcome::FuelExhausted { suspensions: 5, consumed: 20 })
    );
    assert_eq!(store.current_state(), StoreState::Failed(Trap::FuelExhausted));
}

#[test]
fn two_stores_from_one_module_and_registry_do_not_see_each_other() {
    let registry = log_registry();
    let module = log_module();
    let fuel = config(10, 4, RefillPolicy::Unbounded);
    let mut first = ExecutionStore::new(0u32, fuel);
    let mut second = ExecutionStore::new(0u32, fuel);
    let a = first.instantiate(&registry, &module).unwrap();
    let b = second.instantiate(&registry, &module).unwrap();
    assert_eq!(a.binding(0), b.binding(0));
    assert_eq!(first.write_memory(4, b"first"), Ok(()));
    assert_eq!(second.read_str(4, 5), Ok("\0\0\0\0\0"));
    assert_eq!(second.write_memory(4, b"other"), Ok(()));
    assert_eq!(first.read_str(4, 5), Ok("first"));
    first.replace_data(1);
    assert_eq!(*second.data(), 0);
    let one = first.run_to_end(1000);
    assert_eq!(second.current_state(), StoreState::Linked);
    assert_eq!(second.fuel(), 10);
    assert_eq!(second.suspension_count(), 0);
    let two = second.run_to_end(1000);
    assert_eq!(one, two);
    assert_eq!(first.current_state(), second.current_state());
    assert_eq!(first.suspension_count(), second.suspension_count());
    assert_eq!(first.read_str(4, 5), Ok("first"));
    assert_eq!(second.read_str(4, 5), Ok("other"));
}

#[test]
fn three_named_stores_interleave_and_all_complete() {
    let registry: LinkerRegistry<()> = LinkerRegistry::new(DuplicatePolicy::Reject);
    let module = CompiledModule::new(
        vec![],
        vec![ExportDescriptor::new("memory", Signature::Memory(Limits { minimum: 1, maximum: None }))],
    );
    let fuel = config(8, 3, RefillPolicy::Unbounded);
    let names = ["alpha", "beta", "gamma"];
    let work = [20u64, 5, 11];
    let start = [0usize, 2, 4];
    let mut stores: Vec<ExecutionStore<Vec<String>>> = Vec::new();
    let mut left = work;
    let mut outputs: Vec<Vec<String>> = vec![Vec::new(); 3];
    for _ in 0..3 {
        let mut store = ExecutionStore::new(Vec::new(), fuel);
        store.instantiate(&registry, &module).unwrap();
        stores.push(store);
    }
    let mut tick = 0usize;
    while stores.iter().any(|s| !s.current_state().is_terminal()) {
        for k in 0..3 {
            let store = &mut stores[k];
            if tick < start[k] || store.current_state().is_terminal() {
                continue;
            }
            let grant = match store.current_state() {
                StoreState::Linked => {
                    store.write_memory(0, names[k].as_bytes()).unwrap();
                    store.begin_call().unwrap()
                }
                StoreState::Suspended { .. } => store.resume().unwrap(),
                _ => panic!("a store is never left running between turns"),
            };
            let units = grant.min(left[k]);
            store.consume(units).unwrap();
            left[k] -= units;
            if left[k] == 0 {
                let name = store.read_str(0, names[k].len() as i32).unwrap().to_owned();
                outputs[k].push(format!("hello from {name}"));
                store.finish_call().unwrap();
            } else {
                assert_eq!(store.suspend(), Ok(Checkpoint::Yield));
            }
        }
        tick += 1;
    }
    for k in 0..3 {
        assert_eq!(stores[k].current_state(), StoreState::Completed);
        assert_eq!(outputs[k], vec![format!("hello from {}", names[k])]);
        assert_eq!(stores[k].read_str(0, names[k].len() as i32), Ok(names[k]));
    }
    assert_eq!(stores[0].suspension_count(), 7);
    assert_eq!(stores[1].suspension_count(), 1);
    assert_eq!(stores[2].suspension_count(), 3);
    for k in 0..3 {
        assert_eq!(
            run_metered(fuel, work[k]),
            Outcome::Completed { suspensions: stores[k].suspension_count() }
        );
    }
}
