//! The bridge to the engine that compiles and runs the modules.
//!
//! The engine is `wasmtime`. What this layer believes of it without proof is
//! in the few functions below that are marked as such; everything built on
//! them is verified against those statements.

use crate::imports::{
    arrange,
    arranged,
    entry_views,
    HostCallback,
    ImportEntry,
    ImportEntryView,
    ImportType,
};
use crate::fuel::{FuelConfig, RefillPolicy};
use crate::lifecycle::{HostFault, Trap};
use crate::linker::{LinkError, LinkErrorView};
use crate::memory::{read_str, str_at, MemoryError};
use crate::signature::{ExternKind, FuncSig, ValKind};
use vstd::prelude::*;

verus! {

/// `wasmtime::Engine`, carried through as an opaque value.
#[verifier::external_type_specification]
#[verifier::external_body]
pub struct ExEngine(wasmtime::Engine);

/// `wasmtime::Module`, opaque but for the imports it declares.
#[verifier::external_type_specification]
#[verifier::external_body]
pub struct ExModule(wasmtime::Module);

/// `wasmtime::Error`, carried through as an opaque value.
#[verifier::external_type_specification]
#[verifier::external_body]
pub struct ExError(wasmtime::Error);

/// `wasmtime::Store`, carried through as an opaque value.
#[verifier::external_type_specification]
#[verifier::external_body]
#[verifier::reject_recursive_types(T)]
pub struct ExStore<T: 'static>(wasmtime::Store<T>);

/// `wasmtime::Caller`, carried through as an opaque value.
#[verifier::external_type_specification]
#[verifier::external_body]
#[verifier::reject_recursive_types(T)]
pub struct ExCaller<'a, T: 'static>(wasmtime::Caller<'a, T>);

/// `wasmtime::ValType`, carried through as an opaque value.
#[verifier::external_type_specification]
#[verifier::external_body]
pub struct ExValType(wasmtime::ValType);

/// The imports that a compiled module declares, in declaration order: of
/// each its module name, its field name and its declared type.
pub uninterp spec fn module_imports(module: wasmtime::Module) -> Seq<ImportEntryView>;

/// Whether import `i` of a list is a function with a parameter `j`.
pub open spec fn has_param(imports: Seq<ImportEntryView>, i: int, j: int) -> bool {
    &&& 0 <= i < imports.len()
    &&& imports[i].ty is Func
    &&& 0 <= j < imports[i].ty->Func_0.params.len()
}

/// Whether import `i` of a list is a function with a result `j`.
pub open spec fn has_result(imports: Seq<ImportEntryView>, i: int, j: int) -> bool {
    &&& 0 <= i < imports.len()
    &&& imports[i].ty is Func
    &&& 0 <= j < imports[i].ty->Func_0.results.len()
}

/// The kind of a value type of the engine.
pub uninterp spec fn value_type_kind(ty: wasmtime::ValType) -> ValKind;

/// Whether an engine compiles a module source. The engine and the source
/// decide that between them.
pub uninterp spec fn engine_accepts(engine: wasmtime::Engine, source: Seq<u8>) -> bool;

/// What an error of the engine says went wrong.
pub uninterp spec fn error_fault(error: wasmtime::Error) -> EngineFault;

/// The imports that a module source declares, in declaration order. They are
/// written in the source, in its binary or its text form, and are the same
/// whichever engine compiles it.
pub uninterp spec fn source_imports(source: Seq<u8>) -> Seq<ImportEntryView>;

/// A module source that the engine rejected.
#[derive(Debug)]
pub struct CompileError {
    /// The engine's account of what is wrong.
    pub message: String,
}

/// A store that the engine would not give fuel to.
#[derive(Debug)]
pub struct FuelError {
    /// The engine's account of what is wrong.
    pub message: String,
}

/// What an engine store is given for an execution.
#[derive(Clone, Copy, Debug, PartialEq, Eq)]
pub struct FuelGrant {
    /// The fuel put into the store.
    pub fuel: u64,
    /// The fuel after which a call gives control back, `None` for a call
    /// that runs until it returns or the fuel is gone.
    pub yield_interval: Option<u64>,
}

/// The names and the kind of one import, as the engine hands them out.
struct ImportHead {
    module: String,
    name: String,
    kind: ExternKind,
}

/// What the engine says went wrong in a call.
#[derive(Clone, Copy, Debug, PartialEq, Eq, Structural)]
pub enum EngineFault {
    OutOfFuel,
    Unreachable,
    MemoryOutOfBounds,
    DivisionByZero,
    IntegerOverflow,
    /// A trap of another kind.
    OtherTrap,
    /// An error that is no trap: a host function failed.
    NotATrap,
}

/// `wasmtime::Module::new`: compiles a module from its binary or text form.
/// It succeeds exactly where the engine accepts the source, which the two
/// decide between them; nothing more is claimed of when that is. A module
/// that it returns declares the imports of its source.
#[verifier::external_body]
fn module_new(engine: &wasmtime::Engine, source: &[u8]) -> (made: Result<
    wasmtime::Module,
    wasmtime::Error,
>)
    ensures
        made is Ok == engine_accepts(*engine, source@),
        made matches Ok(module) ==> module_imports(module) == source_imports(source@),
{
    wasmtime::Module::new(engine, source)
}

/// `wasmtime::Module::imports`, with `ImportType::module`, `ImportType::name`
/// and `ImportType::ty`: the names and the kind of the import at position `i`
/// of the module's import list, or `None` past its end.
#[verifier::external_body]
fn import_at(module: &wasmtime::Module, i: usize) -> (head: Option<ImportHead>)
    ensures
        head.is_some() == (i < module_imports(*module).len()),
        head matches Some(h) ==> {
            &&& h.module@ == module_imports(*module)[i as int].module
            &&& h.name@ == module_imports(*module)[i as int].name
            &&& h.kind == module_imports(*module)[i as int].ty.kind()
        },
{
    match module.imports().nth(i) {
        None => None,
        Some(import) => Some(ImportHead {
            module: import.module().to_owned(),
            name: import.name().to_owned(),
            kind: match import.ty() {
                wasmtime::ExternType::Func(_) => ExternKind::Func,
                wasmtime::ExternType::Global(_) => ExternKind::Global,
                wasmtime::ExternType::Table(_) => ExternKind::Table,
                wasmtime::ExternType::Memory(_) => ExternKind::Memory,
                wasmtime::ExternType::Tag(_) => ExternKind::Tag,
            },
        }),
    }
}

/// `wasmtime::FuncType::param`, on the type of the import at position `i`:
/// the type of parameter `j` of that function import, or `None` where the
/// import is no function or has no such parameter.
#[verifier::external_body]
fn import_param(module: &wasmtime::Module, i: usize, j: usize) -> (ty: Option<wasmtime::ValType>)
    ensures
        ty.is_some() == has_param(module_imports(*module), i as int, j as int),
        ty matches Some(t) ==> value_type_kind(t) == module_imports(
            *module,
        )[i as int].ty->Func_0.params[j as int],
{
    module.imports().nth(i)?.ty().func()?.param(j)
}

/// `wasmtime::FuncType::result`, on the type of the import at position `i`:
/// the type of result `j` of that function import, or `None` where the
/// import is no function or has no such result.
#[verifier::external_body]
fn import_result(module: &wasmtime::Module, i: usize, j: usize) -> (ty: Option<wasmtime::ValType>)
    ensures
        ty.is_some() == has_result(module_imports(*module), i as int, j as int),
        ty matches Some(t) ==> value_type_kind(t) == module_imports(
            *module,
        )[i as int].ty->Func_0.results[j as int],
{
    module.imports().nth(i)?.ty().func()?.result(j)
}

/// The variants of `wasmtime::ValType`, with `ValType::is_funcref` and
/// `ValType::is_externref` for its references: the kind of a value type.
#[verifier::external_body]
fn value_kind(ty: &wasmtime::ValType) -> (kind: ValKind)
    ensures
        kind == value_type_kind(*ty),
{
    match ty {
        wasmtime::ValType::I32 => ValKind::I32,
        wasmtime::ValType::I64 => ValKind::I64,
        wasmtime::ValType::F32 => ValKind::F32,
        wasmtime::ValType::F64 => ValKind::F64,
        wasmtime::ValType::V128 => ValKind::V128,
        wasmtime::ValType::Ref(_) if ty.is_funcref() => ValKind::FuncRef,
        wasmtime::ValType::Ref(_) if ty.is_externref() => ValKind::ExternRef,
        wasmtime::ValType::Ref(_) => ValKind::OtherRef,
    }
}

/// The `Display` form of a `wasmtime::Error`, with its chain of causes.
/// Nothing is claimed of the text.
#[verifier::external_body]
fn error_message(error: &wasmtime::Error) -> (message: String) {
    format!("{error:#}")
}

/// `wasmtime::Error::downcast_ref` to `wasmtime::Trap`: which trap an error
/// of the engine carries, if any. The error alone decides that.
#[verifier::external_body]
fn engine_fault(error: &wasmtime::Error) -> (fault: EngineFault)
    ensures
        fault == error_fault(*error),
{
    match error.downcast_ref::<wasmtime::Trap>() {
        Some(wasmtime::Trap::OutOfFuel) => EngineFault::OutOfFuel,
        Some(wasmtime::Trap::UnreachableCodeReached) => EngineFault::Unreachable,
        Some(wasmtime::Trap::MemoryOutOfBounds) => EngineFault::MemoryOutOfBounds,
        Some(wasmtime::Trap::IntegerDivisionByZero) => EngineFault::DivisionByZero,
        Some(wasmtime::Trap::IntegerOverflow) => EngineFault::IntegerOverflow,
        Some(_) => EngineFault::OtherTrap,
        None => EngineFault::NotATrap,
    }
}

/// `wasmtime::Caller::get_export` and `wasmtime::Memory::data`: the bytes of
/// the memory that the calling instance exports under `name`, or `None` where
/// it exports no memory under that name. Nothing is claimed of the bytes.
#[verifier::external_body]
fn exported_memory<'c, 'a, T: 'static>(
    caller: &'c mut wasmtime::Caller<'a, T>,
    name: &str,
) -> (memory: Option<&'c [u8]>) {
    match caller.get_export(name) {
        Some(wasmtime::Extern::Memory(memory)) => Some(memory.data(&*caller)),
        _ => None,
    }
}

/// `wasmtime::Store::set_fuel`: gives the store this much fuel, or fails
/// where the engine does not meter fuel. Nothing is claimed of the result.
#[verifier::external_body]
fn store_set_fuel<T: 'static>(store: &mut wasmtime::Store<T>, fuel: u64) -> (done: Result<
    (),
    wasmtime::Error,
>) {
    store.set_fuel(fuel)
}

/// `wasmtime::Store::fuel_async_yield_interval`: lets calls in the store give
/// control back after every `interval` units of fuel. Nothing is claimed of
/// the result.
#[verifier::external_body]
fn store_yield_interval<T: 'static>(store: &mut wasmtime::Store<T>, interval: u64) -> (done: Result<
    (),
    wasmtime::Error,
>) {
    store.fuel_async_yield_interval(Some(interval))
}

/// Compiles a module. It succeeds exactly where the engine accepts the
/// source, and the module that comes back declares the imports of its
/// source. A source that the engine rejects gives a [`CompileError`] with the
/// engine's message; no store is involved.
pub fn compile(engine: &wasmtime::Engine, source: &[u8]) -> (compiled: Result<
    wasmtime::Module,
    CompileError,
>)
    ensures
        compiled is Ok == engine_accepts(*engine, source@),
        compiled matches Ok(module) ==> module_imports(module) == source_imports(source@),
{
    match module_new(engine, source) {
        Ok(module) => Ok(module),
        Err(error) => Err(CompileError { message: error_message(&error) }),
    }
}

/// The parameter types of the function import at position `i`.
fn read_params(module: &wasmtime::Module, i: usize) -> (kinds: Vec<ValKind>)
    requires
        i < module_imports(*module).len(),
        module_imports(*module)[i as int].ty is Func,
    ensures
        kinds@ == module_imports(*module)[i as int].ty->Func_0.params,
{
    let ghost params = module_imports(*module)[i as int].ty->Func_0.params;
    let mut kinds: Vec<ValKind> = Vec::new();
    let mut j: usize = 0;
    loop
        invariant
            i < module_imports(*module).len(),
            module_imports(*module)[i as int].ty is Func,
            params == module_imports(*module)[i as int].ty->Func_0.params,
            j == kinds@.len(),
            j <= params.len(),
            forall|k: int| 0 <= k < j ==> kinds@[k] == params[k],
        ensures
            j == params.len(),
            j == kinds@.len(),
            forall|k: int| 0 <= k < j ==> kinds@[k] == params[k],
        decreases params.len() - j,
    {
        match import_param(module, i, j) {
            Some(ty) => {
                kinds.push(value_kind(&ty));
                j = kinds.len();
            },
            None => {
                break ;
            },
        }
    }
    assert(kinds@ =~= params);
    kinds
}

/// The result types of the function import at position `i`.
fn read_results(module: &wasmtime::Module, i: usize) -> (kinds: Vec<ValKind>)
    requires
        i < module_imports(*module).len(),
        module_imports(*module)[i as int].ty is Func,
    ensures
        kinds@ == module_imports(*module)[i as int].ty->Func_0.results,
{
    let ghost results = module_imports(*module)[i as int].ty->Func_0.results;
    let mut kinds: Vec<ValKind> = Vec::new();
    let mut j: usize = 0;
    loop
        invariant
            i < module_imports(*module).len(),
            module_imports(*module)[i as int].ty is Func,
            results == module_imports(*module)[i as int].ty->Func_0.results,
            j == kinds@.len(),
            j <= results.len(),
            forall|k: int| 0 <= k < j ==> kinds@[k] == results[k],
        ensures
            j == results.len(),
            j == kinds@.len(),
            forall|k: int| 0 <= k < j ==> kinds@[k] == results[k],
        decreases results.len() - j,
    {
        match import_result(module, i, j) {
            Some(ty) => {
                kinds.push(value_kind(&ty));
                j = kinds.len();
            },
            None => {
                break ;
            },
        }
    }
    assert(kinds@ =~= results);
    kinds
}

/// Reads the imports that a compiled module declares, in declaration order:
/// of each its two-part name and its declared type, which for a function is
/// its whole function type.
pub fn read_imports(module: &wasmtime::Module) -> (entries: Vec<ImportEntry>)
    ensures
        entry_views(entries@) == module_imports(*module),
{
    let mut entries: Vec<ImportEntry> = Vec::new();
    let mut i: usize = 0;
    loop
        invariant
            i == entries@.len(),
            i <= module_imports(*module).len(),
            forall|j: int| 0 <= j < i ==> (#[trigger] entries@[j])@ == module_imports(*module)[j],
        ensures
            i == module_imports(*module).len(),
            i == entries@.len(),
            forall|j: int| 0 <= j < i ==> (#[trigger] entries@[j])@ == module_imports(*module)[j],
        decreases module_imports(*module).len() - i,
    {
        match import_at(module, i) {
            Some(head) => {
                let ty = match head.kind {
                    ExternKind::Func => ImportType::Func(
                        FuncSig::new(read_params(module, i), read_results(module, i)),
                    ),
                    ExternKind::Global => ImportType::Global,
                    ExternKind::Table => ImportType::Table,
                    ExternKind::Memory => ImportType::Memory,
                    ExternKind::Tag => ImportType::Tag,
                };
                let entry = ImportEntry { module: head.module, name: head.name, ty };
                assert(entry@ == module_imports(*module)[i as int]);
                entries.push(entry);
                i = entries.len();
            },
            None => {
                break ;
            },
        }
    }
    assert(entry_views(entries@) =~= module_imports(*module));
    entries
}

/// Arranges the host's callbacks in the order in which a compiled module
/// imports them. The function imports from the module `wapc` are bound, each
/// to the callback of its name where that callback has the declared function
/// type; other imports are passed over. The first such import that cannot be
/// bound is reported by name: as unresolved where the name is unknown, as a
/// signature mismatch where the declared type is another.
pub fn arrange_imports(module: &wasmtime::Module) -> (callbacks: Result<
    Vec<HostCallback>,
    LinkError,
>)
    ensures
        match callbacks {
            Ok(list) => arranged(module_imports(*module)) == Ok::<
                Seq<HostCallback>,
                LinkErrorView,
            >(list@),
            Err(e) => arranged(module_imports(*module)) == Err::<
                Seq<HostCallback>,
                LinkErrorView,
            >(e@),
        },
{
    let entries = read_imports(module);
    arrange(&entries)
}

/// The text that a guest passed to a host function by pointer and length,
/// read from the memory that the calling instance exports as `memory`.
///
/// The result is what [`str_at`] gives for the memory as the engine
/// presents it: `NoMemoryExport` without such an export, `OutOfBounds` for a
/// range that passes its end, `InvalidEncoding` for bytes that are no UTF-8.
pub fn read_guest_str<'c, 'a, T: 'static>(
    caller: &'c mut wasmtime::Caller<'a, T>,
    ptr: i32,
    len: i32,
) -> (text: Result<&'c str, MemoryError>)
    ensures
        exists|memory: Option<Seq<u8>>|
            match text {
                Ok(s) => #[trigger] str_at(memory, ptr, len) == Ok::<Seq<char>, MemoryError>(s@),
                Err(e) => str_at(memory, ptr, len) == Err::<Seq<char>, MemoryError>(e),
            },
{
    let memory = exported_memory(caller, "memory");
    let text = read_str(memory, ptr, len);
    assert(match text {
        Ok(s) => str_at(crate::memory::memory_view(memory), ptr, len) == Ok::<
            Seq<char>,
            MemoryError,
        >(s@),
        Err(e) => str_at(crate::memory::memory_view(memory), ptr, len) == Err::<
            Seq<char>,
            MemoryError,
        >(e),
    });
    text
}

/// The fuel that the engine is given for an execution under `config`: all
/// the fuel that the quantum and the refills allow, and the largest amount
/// there is where they set no bound or one beyond 64 bits.
pub open spec fn engine_fuel(config: FuelConfig) -> int {
    match config.refill() {
        RefillPolicy::Unbounded => u64::MAX as int,
        RefillPolicy::Bounded(refills) => if config.quantum() * (refills + 1) <= u64::MAX {
            config.quantum() * (refills + 1)
        } else {
            u64::MAX as int
        },
    }
}

/// The fuel that the engine is given for an execution under `config`.
pub fn fuel_for_engine(config: &FuelConfig) -> (fuel: u64)
    ensures
        fuel == engine_fuel(*config),
{
    match config.total_fuel() {
        Some(fuel) => fuel,
        None => u64::MAX,
    }
}

/// Gives an engine store the fuel of `config` for a blocking call: the call
/// runs until it returns or the fuel is gone.
///
/// On success the result is what the store was given: all the fuel that
/// `config` allows, and no yield interval. Where the engine refuses, the
/// error carries its message.
pub fn prepare_blocking<T: 'static>(
    store: &mut wasmtime::Store<T>,
    config: &FuelConfig,
) -> (done: Result<FuelGrant, FuelError>)
    ensures
        done matches Ok(grant) ==> grant.fuel == engine_fuel(*config) && grant.yield_interval
            is None,
{
    let fuel = fuel_for_engine(config);
    match store_set_fuel(store, fuel) {
        Ok(()) => Ok(FuelGrant { fuel, yield_interval: None }),
        Err(error) => Err(FuelError { message: error_message(&error) }),
    }
}

/// Gives an engine store the fuel of `config` for a cooperative call: the
/// call gives control back whenever it has consumed the threshold, and fails
/// once the fuel is gone.
///
/// The engine knows no refill. It is given all the fuel at once and
/// suspends at the threshold only, not at the points where a
/// [`crate::fuel::FuelMeter`] would refill: the two agree on whether a call
/// completes, not on how often it suspends.
///
/// On success the result is what the store was given: all the fuel that
/// `config` allows, and the threshold as the yield interval. Where the engine
/// refuses either, the error carries its message.
pub fn prepare_cooperative<T: 'static>(
    store: &mut wasmtime::Store<T>,
    config: &FuelConfig,
) -> (done: Result<FuelGrant, FuelError>)
    ensures
        done matches Ok(grant) ==> grant.fuel == engine_fuel(*config) && grant.yield_interval
            == Some(config.threshold()),
{
    let fuel = fuel_for_engine(config);
    let interval = config.threshold();
    match store_set_fuel(store, fuel) {
        Ok(()) => {},
        Err(error) => {
            return Err(FuelError { message: error_message(&error) });
        },
    }
    match store_yield_interval(store, interval) {
        Ok(()) => Ok(FuelGrant { fuel, yield_interval: Some(interval) }),
        Err(error) => Err(FuelError { message: error_message(&error) }),
    }
}

/// The trap that stands for a fault of the engine.
pub open spec fn fault_trap(fault: EngineFault) -> Trap {
    match fault {
        EngineFault::OutOfFuel => Trap::FuelExhausted,
        EngineFault::Unreachable => Trap::Unreachable,
        EngineFault::MemoryOutOfBounds => Trap::MemoryAccess,
        EngineFault::DivisionByZero => Trap::IntegerDivision,
        EngineFault::IntegerOverflow => Trap::IntegerDivision,
        EngineFault::OtherTrap => Trap::Other,
        EngineFault::NotATrap => Trap::Host(HostFault::Failed),
    }
}

/// The trap that stands for a fault of the engine: a spent budget stays
/// apart from faults in the logic, and an error that is no trap is a host
/// function's failure.
pub fn trap_of_fault(fault: EngineFault) -> (trap: Trap)
    ensures
        trap == fault_trap(fault),
{
    match fault {
        EngineFault::OutOfFuel => Trap::FuelExhausted,
        EngineFault::Unreachable => Trap::Unreachable,
        EngineFault::MemoryOutOfBounds => Trap::MemoryAccess,
        EngineFault::DivisionByZero => Trap::IntegerDivision,
        EngineFault::IntegerOverflow => Trap::IntegerDivision,
        EngineFault::OtherTrap => Trap::Other,
        EngineFault::NotATrap => Trap::Host(HostFault::Failed),
    }
}

/// The trap with which a call ended, read from the engine's error.
pub fn classify(error: &wasmtime::Error) -> (trap: Trap)
    ensures
        trap == fault_trap(error_fault(*error)),
{
    trap_of_fault(engine_fault(error))
}

} // verus!
