//! The execution store: everything that one execution may change.
//!
//! A store owns its host state, its memory, its fuel meter and its place in
//! the life cycle. Nothing in it is shared: two stores built from the same
//! module and registry cannot see each other.
//!
//! The call in flight is part of the store: its fuel, the number of times it
//! has suspended and whether it runs or waits are all here, so a suspended
//! call can be resumed where it stopped, or abandoned by dropping the store,
//! without anything else being touched. A host function works on the store
//! through the mutable reference it is handed for the length of the call.

use crate::fuel::{Checkpoint, FuelConfig, FuelMeter, Meter, Outcome, meter_after, run};
use crate::lifecycle::{Event, StoreState, Trap};
use crate::linker::{LinkError, LinkErrorView, LinkerRegistry, link_result};
use crate::memory::{
    limits_valid,
    page_bound,
    str_at,
    LinearMemory,
    MemoryError,
    PAGE_SIZE,
};
use crate::module::{CompiledModule, EntryError, ExportView, entry_check};
use crate::signature::{FuncSig, Limits, Signature, SignatureView};
use vstd::prelude::*;

verus! {

/// Why a store refused an operation on its running call.
#[derive(Clone, Copy, Debug, PartialEq, Eq, Structural)]
pub enum CallError {
    /// The store is not in a state that allows the operation.
    WrongState,
    /// The guest reports more consumption than it was granted.
    OverBudget,
}

/// Why an entry point was not invoked.
#[derive(Clone, Copy, Debug, PartialEq, Eq, Structural)]
pub enum InvokeError {
    /// The export is missing or has another type than the caller expects.
    Entry(EntryError),
    /// The store cannot begin a call.
    WrongState,
}

/// Why a module was not instantiated.
#[derive(Debug)]
pub enum InstantiateError {
    /// The store already holds an instance.
    StoreNotFresh,
    /// An import could not be resolved.
    Link(LinkError),
    /// The module exports a memory whose limits cannot be met.
    MemoryLimits,
}

/// The mathematical content of an [`InstantiateError`].
pub enum InstantiateErrorView {
    StoreNotFresh,
    Link(LinkErrorView),
    MemoryLimits,
}

impl View for InstantiateError {
    type V = InstantiateErrorView;

    open spec fn view(&self) -> InstantiateErrorView {
        match *self {
            InstantiateError::StoreNotFresh => InstantiateErrorView::StoreNotFresh,
            InstantiateError::Link(e) => InstantiateErrorView::Link(e@),
            InstantiateError::MemoryLimits => InstantiateErrorView::MemoryLimits,
        }
    }
}

/// Whether `i` is the first export that is a memory.
pub open spec fn is_first_memory(exports: Seq<ExportView>, i: int) -> bool {
    &&& 0 <= i < exports.len()
    &&& exports[i].signature is Memory
    &&& forall|j: int| 0 <= j < i ==> !((#[trigger] exports[j]).signature is Memory)
}

/// The limits of the memory that a module exports, if it exports one.
pub open spec fn memory_export(exports: Seq<ExportView>) -> Option<Limits> {
    if exists|i: int| is_first_memory(exports, i) {
        Some(exports[choose|i: int| is_first_memory(exports, i)].signature->Memory_0)
    } else {
        None
    }
}

/// Whether a memory of these limits can be made on this machine.
pub open spec fn memory_fits(limits: Limits) -> bool {
    limits_valid(limits) && limits.minimum * PAGE_SIZE <= usize::MAX
}

/// Whether instantiation goes through, and if not, why: the store's state is
/// checked first, then the imports in declaration order, then the memory.
pub open spec fn instantiate_check<C>(
    state: StoreState,
    registry: Map<crate::module::Key, crate::linker::BindingView<C>>,
    module: crate::module::ModuleView,
) -> Result<(), InstantiateErrorView> {
    if state != StoreState::Created {
        Err(InstantiateErrorView::StoreNotFresh)
    } else {
        match link_result(registry, module.imports) {
            Err(e) => Err(InstantiateErrorView::Link(e)),
            Ok(_) => match memory_export(module.exports) {
                Some(limits) => if memory_fits(limits) {
                    Ok(())
                } else {
                    Err(InstantiateErrorView::MemoryLimits)
                },
                None => Ok(()),
            },
        }
    }
}

/// A memory of `pages` zeroed pages.
pub open spec fn zeroed(pages: u64) -> Seq<u8> {
    Seq::new((pages * PAGE_SIZE) as nat, |i: int| 0u8)
}

/// Whether a memory of `size` bytes and these limits can grow by `delta`
/// pages: the result is within the declared maximum and fits this machine.
pub open spec fn growth_fits(size: nat, limits: Limits, delta: u64) -> bool {
    &&& size as int / (PAGE_SIZE as int) + delta <= page_bound(limits)
    &&& (size as int / (PAGE_SIZE as int) + delta) * PAGE_SIZE <= usize::MAX
}

/// A memory after it has grown by `delta` zeroed pages.
pub open spec fn grown(memory: Seq<u8>, delta: u64) -> Seq<u8> {
    memory + Seq::new((delta * PAGE_SIZE) as nat, |i: int| 0u8)
}

/// Everything that can be observed of a store.
pub struct StoreView<H> {
    pub host: H,
    pub config: FuelConfig,
    pub state: StoreState,
    pub meter: Meter,
    pub suspensions: nat,
    pub memory: Option<Seq<u8>>,
    /// The declared limits of the memory, if the store has one.
    pub memory_limits: Option<Limits>,
}

/// Something that is done to one store.
pub enum Operation<H> {
    /// A module that exports a memory of these limits, or none, is linked.
    Link { memory: Option<Limits> },
    /// The embedder replaces its state.
    ReplaceData { host: H },
    /// Bytes are written to the memory.
    WriteMemory { offset: u32, bytes: Seq<u8> },
    /// The memory grows by a number of pages.
    GrowMemory { delta: u64 },
    /// A call begins.
    BeginCall,
    /// The running call reports the fuel it has consumed.
    Consume { units: u64 },
    /// The running call stops with more to do.
    Suspend,
    /// The suspended call goes on.
    Resume,
    /// The innermost call returns.
    FinishCall,
    /// A trap ends the call chain.
    Fail { trap: Trap },
}

impl<H> StoreView<H> {
    /// The store in another state of its life cycle, if the event is allowed.
    pub open spec fn moved(self, event: Event) -> StoreView<H> {
        match self.state.next(event) {
            Some(next) => StoreView { state: next, ..self },
            None => self,
        }
    }

    /// The store after an operation. An operation that the store refuses
    /// leaves it as it was.
    pub open spec fn apply(self, operation: Operation<H>) -> StoreView<H> {
        match operation {
            Operation::Link { memory } => if self.state == StoreState::Created && (memory
                matches Some(limits) ==> memory_fits(limits)) {
                StoreView {
                    state: StoreState::Linked,
                    memory: match memory {
                        Some(limits) => Some(zeroed(limits.minimum)),
                        None => None,
                    },
                    memory_limits: memory,
                    ..self
                }
            } else {
                self
            },
            Operation::ReplaceData { host } => StoreView { host, ..self },
            Operation::WriteMemory { offset, bytes } => match self.memory {
                Some(m) => if offset + bytes.len() <= m.len() {
                    StoreView {
                        memory: Some(
                            m.subrange(0, offset as int) + bytes + m.subrange(
                                offset + bytes.len(),
                                m.len() as int,
                            ),
                        ),
                        ..self
                    }
                } else {
                    self
                },
                None => self,
            },
            Operation::GrowMemory { delta } => match (self.memory, self.memory_limits) {
                (Some(m), Some(limits)) => if growth_fits(m.len(), limits, delta) {
                    StoreView { memory: Some(grown(m, delta)), ..self }
                } else {
                    self
                },
                _ => self,
            },
            Operation::BeginCall => self.moved(Event::Invoke),
            Operation::Consume { units } => if self.state is Running && units
                <= self.meter.budget() {
                StoreView { meter: self.meter.consume(units as nat), ..self }
            } else {
                self
            },
            Operation::Suspend => if self.state is Running {
                match self.meter.decide() {
                    Checkpoint::Yield => StoreView {
                        state: StoreState::Suspended { depth: self.state->Running_depth },
                        meter: self.meter.checkpoint(),
                        suspensions: if self.suspensions < u64::MAX {
                            self.suspensions + 1
                        } else {
                            self.suspensions
                        },
                        ..self
                    },
                    Checkpoint::Exhausted => StoreView {
                        state: StoreState::Failed(Trap::FuelExhausted),
                        ..self
                    },
                }
            } else {
                self
            },
            Operation::Resume => self.moved(Event::Resume),
            Operation::FinishCall => self.moved(Event::Return),
            Operation::Fail { trap } => self.moved(Event::Fail(trap)),
        }
    }
}

/// A module linked against a store: every import is bound.
pub struct Instance<'a, C> {
    module: &'a CompiledModule,
    bound: Vec<&'a C>,
}

impl<'a, C> Instance<'a, C> {
    /// The module that the instance was made from.
    pub closed spec fn module_view(&self) -> crate::module::ModuleView {
        self.module@
    }

    /// The callables bound to the imports, in declaration order.
    pub closed spec fn bindings_view(&self) -> Seq<C> {
        Seq::new(self.bound@.len(), |i: int| *self.bound@[i])
    }

    /// The module that the instance was made from.
    pub fn module(&self) -> (module: &'a CompiledModule)
        ensures
            module@ == self.module_view(),
    {
        self.module
    }

    /// Number of bound imports.
    pub fn import_count(&self) -> (n: usize)
        ensures
            n == self.bindings_view().len(),
    {
        self.bound.len()
    }

    /// The callable bound to import `i`.
    pub fn binding(&self, i: usize) -> (callable: &'a C)
        requires
            i < self.bindings_view().len(),
        ensures
            *callable == self.bindings_view()[i as int],
    {
        self.bound[i]
    }
}

/// The mutable state of one execution, with host state of type `H`.
pub struct ExecutionStore<H> {
    host: H,
    config: FuelConfig,
    state: StoreState,
    meter: FuelMeter,
    suspensions: u64,
    memory: Option<LinearMemory>,
}

impl<H> ExecutionStore<H> {
    /// The embedder's state.
    pub closed spec fn host(&self) -> H {
        self.host
    }

    /// The fuel parameters that the store was made with.
    pub closed spec fn config(&self) -> FuelConfig {
        self.config
    }

    /// Where the store stands in its life.
    pub closed spec fn state(&self) -> StoreState {
        self.state
    }

    /// The fuel meter.
    pub closed spec fn meter(&self) -> Meter {
        self.meter@
    }

    /// How often the call has suspended.
    pub closed spec fn suspensions(&self) -> nat {
        self.suspensions as nat
    }

    /// The bytes of the memory, if the store has one.
    pub closed spec fn memory(&self) -> Option<Seq<u8>> {
        match self.memory {
            Some(m) => Some(m@),
            None => None,
        }
    }

    /// The declared limits of the memory, if the store has one.
    pub closed spec fn memory_limits(&self) -> Option<Limits> {
        match self.memory {
            Some(m) => Some(m.limits()),
            None => None,
        }
    }

    /// Everything that can be observed of the store.
    pub open spec fn snapshot(&self) -> StoreView<H> {
        StoreView {
            host: self.host(),
            config: self.config(),
            state: self.state(),
            meter: self.meter(),
            suspensions: self.suspensions(),
            memory: self.memory(),
            memory_limits: self.memory_limits(),
        }
    }

    /// The invariant of a store.
    pub closed spec fn wf(&self) -> bool {
        &&& self.config.wf()
        &&& self.meter@.wf()
        &&& self.meter@.quantum == self.config.quantum()
        &&& self.meter@.threshold == self.config.threshold()
        &&& (self.memory matches Some(m) ==> m.wf())
        &&& (self.state is Created || self.state is Linked) ==> self.suspensions == 0
            && self.meter@ == Meter::fresh(self.config)
        &&& self.state is Suspended ==> self.meter@.budget() > 0
    }

    /// A fresh store: nothing linked, a full meter, no memory.
    pub fn new(host: H, config: FuelConfig) -> (store: ExecutionStore<H>)
        ensures
            config.wf(),
            store.wf(),
            store.host() == host,
            store.config() == config,
            store.state() == StoreState::Created,
            store.meter() == Meter::fresh(config),
            store.suspensions() == 0,
            store.memory() is None,
            store.memory_limits() is None,
    {
        ExecutionStore {
            host,
            config,
            state: StoreState::Created,
            meter: FuelMeter::new(config),
            suspensions: 0,
            memory: None,
        }
    }

    /// The embedder's state.
    pub fn data(&self) -> (host: &H)
        ensures
            *host == self.host(),
    {
        &self.host
    }

    /// Gives up the store and hands back the embedder's state. A suspended
    /// call that is given up this way is never resumed.
    pub fn into_data(self) -> (host: H)
        ensures
            host == self.host(),
    {
        self.host
    }

    /// Replaces the embedder's state and returns the old one.
    pub fn replace_data(&mut self, host: H) -> (previous: H)
        ensures
            final(self).snapshot() == old(self).snapshot().apply(Operation::ReplaceData { host }),
            previous == old(self).host(),
            final(self).host() == host,
            final(self).config() == old(self).config(),
            final(self).state() == old(self).state(),
            final(self).meter() == old(self).meter(),
            final(self).suspensions() == old(self).suspensions(),
            final(self).memory() == old(self).memory(),
            final(self).memory_limits() == old(self).memory_limits(),
            old(self).wf() ==> final(self).wf(),
    {
        let mut host = host;
        core::mem::swap(&mut self.host, &mut host);
        host
    }

    /// Where the store stands in its life.
    pub fn current_state(&self) -> (state: StoreState)
        ensures
            state == self.state(),
    {
        self.state
    }

    /// Fuel left in the meter.
    pub fn fuel(&self) -> (fuel: u64)
        ensures
            fuel == self.meter().remaining,
    {
        self.meter.remaining()
    }

    /// How often the call has suspended; the count stops at the largest
    /// 64-bit number.
    pub fn suspension_count(&self) -> (count: u64)
        ensures
            count == self.suspensions(),
    {
        self.suspensions
    }

    /// Whether the store has a memory.
    pub fn has_memory(&self) -> (b: bool)
        ensures
            b == self.memory().is_some(),
    {
        self.memory.is_some()
    }

    /// Size of the memory in bytes.
    pub fn memory_size(&self) -> (size: Option<usize>)
        ensures
            match size {
                Some(n) => self.memory() matches Some(m) && m.len() == n,
                None => self.memory() is None,
            },
    {
        match &self.memory {
            Some(m) => Some(m.size()),
            None => None,
        }
    }

    /// Reads the text that a guest passed by pointer and length: the memory
    /// must exist, the range must lie inside it, and its bytes must be UTF-8.
    pub fn read_str(&self, ptr: i32, len: i32) -> (text: Result<&str, MemoryError>)
        ensures
            match text {
                Ok(s) => str_at(self.memory(), ptr, len) == Ok::<Seq<char>, MemoryError>(s@),
                Err(e) => str_at(self.memory(), ptr, len) == Err::<Seq<char>, MemoryError>(e),
            },
    {
        match &self.memory {
            Some(m) => m.read_str(ptr, len),
            None => Err(MemoryError::NoMemoryExport),
        }
    }

    /// Copies `bytes` into the memory at `offset`.
    pub fn write_memory(&mut self, offset: u32, bytes: &[u8]) -> (done: Result<(), MemoryError>)
        requires
            old(self).wf(),
        ensures
            final(self).snapshot() == old(self).snapshot().apply(
                Operation::WriteMemory { offset, bytes: bytes@ },
            ),
            final(self).wf(),
            final(self).host() == old(self).host(),
            final(self).config() == old(self).config(),
            final(self).state() == old(self).state(),
            final(self).meter() == old(self).meter(),
            final(self).suspensions() == old(self).suspensions(),
            final(self).memory_limits() == old(self).memory_limits(),
            match done {
                Ok(()) => old(self).memory() matches Some(m) && offset + bytes@.len() <= m.len()
                    && final(self).memory() == Some(
                    m.subrange(0, offset as int) + bytes@ + m.subrange(
                        offset + bytes@.len(),
                        m.len() as int,
                    ),
                ),
                Err(e) => final(self).memory() == old(self).memory() && match old(self).memory() {
                    None => e == MemoryError::NoMemoryExport,
                    Some(m) => e == MemoryError::OutOfBounds && offset + bytes@.len() > m.len(),
                },
            },
    {
        match &mut self.memory {
            Some(m) => m.write(offset, bytes),
            None => Err(MemoryError::NoMemoryExport),
        }
    }
}

impl<H> ExecutionStore<H> {
    /// Whether two stores agree in everything but their place in the life
    /// cycle, their meter and their suspension count.
    pub open spec fn same_data(&self, other: &ExecutionStore<H>) -> bool {
        &&& self.host() == other.host()
        &&& self.config() == other.config()
        &&& self.memory() == other.memory()
        &&& self.memory_limits() == other.memory_limits()
    }

    /// Whether two stores agree in everything but their memory.
    pub open spec fn same_control(&self, other: &ExecutionStore<H>) -> bool {
        &&& self.host() == other.host()
        &&& self.config() == other.config()
        &&& self.state() == other.state()
        &&& self.meter() == other.meter()
        &&& self.suspensions() == other.suspensions()
    }

    /// The declared limits of the memory, if the store has one.
    pub fn limits_of_memory(&self) -> (limits: Option<Limits>)
        ensures
            limits == self.memory_limits(),
    {
        match &self.memory {
            Some(m) => Some(m.declared_limits()),
            None => None,
        }
    }

    /// Grows the memory by `delta` zeroed pages and returns the page count
    /// before. Without a memory, or where the result would pass the declared
    /// maximum or this machine's address space, nothing changes.
    pub fn grow_memory(&mut self, delta: u64) -> (previous: Option<u64>)
        requires
            old(self).wf(),
        ensures
            final(self).wf(),
            final(self).same_control(old(self)),
            final(self).memory_limits() == old(self).memory_limits(),
            final(self).snapshot() == old(self).snapshot().apply(Operation::GrowMemory { delta }),
            match previous {
                Some(pages) => {
                    &&& old(self).memory() matches Some(m)
                    &&& old(self).memory_limits() matches Some(limits)
                    &&& growth_fits(m.len(), limits, delta)
                    &&& pages == m.len() as int / (PAGE_SIZE as int)
                    &&& final(self).memory() == Some(grown(m, delta))
                },
                None => {
                    &&& final(self).memory() == old(self).memory()
                    &&& (old(self).memory() matches Some(m) ==> old(self).memory_limits()
                        matches Some(limits) && !growth_fits(m.len(), limits, delta))
                },
            },
    {
        match &mut self.memory {
            None => None,
            Some(m) => {
                let ghost before = m@;
                let previous = m.grow(delta);
                proof {
                    if previous.is_some() {
                        assert(m@ =~= grown(before, delta));
                    }
                }
                previous
            },
        }
    }

    /// The limits of the first memory that the module exports.
    fn find_memory(module: &CompiledModule) -> (limits: Option<Limits>)
        ensures
            limits == memory_export(module@.exports),
    {
        let exports = module.exports();
        let mut i: usize = 0;
        while i < exports.len()
            invariant
                i <= exports.len(),
                crate::module::export_views(exports@) == module@.exports,
                forall|j: int|
                    0 <= j < i ==> !((#[trigger] module@.exports[j]).signature is Memory),
            decreases exports.len() - i,
        {
            assert(module@.exports[i as int] == exports[i as int]@);
            if let Signature::Memory(limits) = &exports[i].signature {
                proof {
                    assert(is_first_memory(module@.exports, i as int));
                    let k = choose|k: int| is_first_memory(module@.exports, k);
                    assert(is_first_memory(module@.exports, k));
                    if k < i {
                        assert(!(module@.exports[k].signature is Memory));
                    } else if i < k {
                        assert(!(module@.exports[i as int].signature is Memory));
                    }
                }
                return Some(*limits);
            }
            i += 1;
        }
        None
    }

    /// Links `module` against this store: resolves every import through
    /// `registry` and gives the store the memory that the module exports.
    ///
    /// On failure nothing has changed: no partly linked state can be seen.
    pub fn instantiate<'a, C>(
        &mut self,
        registry: &'a LinkerRegistry<C>,
        module: &'a CompiledModule,
    ) -> (linked: Result<Instance<'a, C>, InstantiateError>)
        requires
            old(self).wf(),
            registry.wf(),
        ensures
            final(self).snapshot() == if linked is Ok {
                old(self).snapshot().apply(
                    Operation::Link { memory: memory_export(module@.exports) },
                )
            } else {
                old(self).snapshot()
            },
            final(self).wf(),
            final(self).host() == old(self).host(),
            final(self).config() == old(self).config(),
            final(self).meter() == old(self).meter(),
            final(self).suspensions() == old(self).suspensions(),
            match linked {
                Ok(instance) => {
                    &&& instantiate_check(old(self).state(), registry@, module@) is Ok
                    &&& final(self).state() == StoreState::Linked
                    &&& instance.module_view() == module@
                    &&& instance.bindings_view() == link_result(registry@, module@.imports)->Ok_0
                    &&& final(self).memory() == match memory_export(module@.exports) {
                        Some(limits) => Some(zeroed(limits.minimum)),
                        None => None,
                    }
                    &&& final(self).memory_limits() == memory_export(module@.exports)
                },
                Err(e) => {
                    &&& instantiate_check(old(self).state(), registry@, module@) == Err::<
                        (),
                        InstantiateErrorView,
                    >(e@)
                    &&& final(self).state() == old(self).state()
                    &&& final(self).memory() == old(self).memory()
                    &&& final(self).memory_limits() == old(self).memory_limits()
                },
            },
    {
        match self.state {
            StoreState::Created => {},
            _ => {
                return Err(InstantiateError::StoreNotFresh);
            },
        }
        let bound = match registry.link(module.imports()) {
            Ok(bound) => bound,
            Err(e) => {
                return Err(InstantiateError::Link(e));
            },
        };
        let memory = match Self::find_memory(module) {
            None => None,
            Some(limits) => match LinearMemory::new(limits) {
                Some(m) => {
                    assert(m@ =~= zeroed(limits.minimum));
                    Some(m)
                },
                None => {
                    return Err(InstantiateError::MemoryLimits);
                },
            },
        };
        self.memory = memory;
        self.state = StoreState::Linked;
        let instance = Instance { module, bound };
        assert(instance.bindings_view() =~= link_result(registry@, module@.imports)->Ok_0);
        Ok(instance)
    }

    /// Units that the running call may consume before it must stop; zero
    /// where no call is running.
    pub fn grant(&self) -> (units: u64)
        requires
            self.wf(),
        ensures
            units == if self.state() is Running {
                self.meter().budget()
            } else {
                0
            },
    {
        match self.state {
            StoreState::Running { .. } => self.meter.budget(),
            _ => 0,
        }
    }

    /// Begins a call of an exported function and returns the units it may
    /// consume before it must stop.
    pub fn begin_call(&mut self) -> (begun: Result<u64, CallError>)
        requires
            old(self).wf(),
        ensures
            final(self).snapshot() == old(self).snapshot().apply(Operation::BeginCall),
            final(self).wf(),
            final(self).same_data(old(self)),
            final(self).meter() == old(self).meter(),
            final(self).suspensions() == old(self).suspensions(),
            match begun {
                Ok(units) => old(self).state().next(Event::Invoke) == Some(final(self).state())
                    && units == final(self).meter().budget(),
                Err(e) => e == CallError::WrongState && old(self).state().next(Event::Invoke)
                    is None && final(self).state() == old(self).state(),
            },
    {
        match self.state.transition(Event::Invoke) {
            Some(next) => {
                self.state = next;
                Ok(self.meter.budget())
            },
            None => Err(CallError::WrongState),
        }
    }

    /// Checks the entry point, then begins the call. The type check comes
    /// first: a mismatch is reported before any guest code runs, and leaves
    /// the store as it was.
    pub fn invoke<'a, C>(&mut self, instance: &Instance<'a, C>, name: &str, expected: &FuncSig)
        -> (begun: Result<u64, InvokeError>)
        requires
            old(self).wf(),
        ensures
            final(self).wf(),
            final(self).same_data(old(self)),
            final(self).meter() == old(self).meter(),
            final(self).suspensions() == old(self).suspensions(),
            match begun {
                Ok(units) => {
                    &&& entry_check(
                        instance.module_view().exports,
                        name@,
                        SignatureView::Func(expected@),
                    ) is Ok
                    &&& old(self).state().next(Event::Invoke) == Some(final(self).state())
                    &&& units == final(self).meter().budget()
                },
                Err(e) => {
                    &&& final(self).state() == old(self).state()
                    &&& match entry_check(
                        instance.module_view().exports,
                        name@,
                        SignatureView::Func(expected@),
                    ) {
                        Err(entry) => e == InvokeError::Entry(entry),
                        Ok(_) => e == InvokeError::WrongState && old(self).state().next(
                            Event::Invoke,
                        ) is None,
                    }
                },
            },
    {
        match instance.module().check_entry(name, expected) {
            Err(e) => Err(InvokeError::Entry(e)),
            Ok(_) => match self.begin_call() {
                Ok(units) => Ok(units),
                Err(_) => Err(InvokeError::WrongState),
            },
        }
    }

    /// Records that the running call consumed `units` of its grant.
    pub fn consume(&mut self, units: u64) -> (done: Result<(), CallError>)
        requires
            old(self).wf(),
        ensures
            final(self).snapshot() == old(self).snapshot().apply(Operation::Consume { units }),
            final(self).wf(),
            final(self).same_data(old(self)),
            final(self).state() == old(self).state(),
            final(self).suspensions() == old(self).suspensions(),
            match done {
                Ok(()) => old(self).state() is Running && units <= old(self).meter().budget()
                    && final(self).meter() == old(self).meter().consume(units as nat),
                Err(e) => final(self).meter() == old(self).meter() && if old(self).state()
                    is Running {
                    e == CallError::OverBudget && units > old(self).meter().budget()
                } else {
                    e == CallError::WrongState
                },
            },
    {
        match self.state {
            StoreState::Running { .. } => {},
            _ => {
                return Err(CallError::WrongState);
            },
        }
        if units > self.meter.budget() {
            return Err(CallError::OverBudget);
        }
        self.meter.consume(units);
        Ok(())
    }

    /// The running call stops with more to do. It is suspended, with the
    /// meter refilled if it was empty; or, where the fuel is gone for good,
    /// it fails with [`Trap::FuelExhausted`].
    pub fn suspend(&mut self) -> (stopped: Result<Checkpoint, CallError>)
        requires
            old(self).wf(),
        ensures
            final(self).snapshot() == old(self).snapshot().apply(Operation::Suspend),
            final(self).wf(),
            final(self).same_data(old(self)),
            match stopped {
                Ok(decision) => {
                    &&& old(self).state() is Running
                    &&& decision == old(self).meter().decide()
                    &&& final(self).meter() == old(self).meter().checkpoint()
                    &&& match decision {
                        Checkpoint::Yield => {
                            &&& old(self).state().next(Event::Suspend) == Some(final(self).state())
                            &&& final(self).suspensions() == if old(self).suspensions()
                                < u64::MAX {
                                old(self).suspensions() + 1
                            } else {
                                old(self).suspensions()
                            }
                        },
                        Checkpoint::Exhausted => {
                            &&& final(self).state() == StoreState::Failed(Trap::FuelExhausted)
                            &&& final(self).suspensions() == old(self).suspensions()
                        },
                    }
                },
                Err(e) => {
                    &&& e == CallError::WrongState
                    &&& !(old(self).state() is Running)
                    &&& final(self).same_control(old(self))
                },
            },
    {
        let depth = match self.state {
            StoreState::Running { depth } => depth,
            _ => {
                return Err(CallError::WrongState);
            },
        };
        match self.meter.checkpoint() {
            Checkpoint::Exhausted => {
                self.state = StoreState::Failed(Trap::FuelExhausted);
                Ok(Checkpoint::Exhausted)
            },
            Checkpoint::Yield => {
                self.state = StoreState::Suspended { depth };
                if self.suspensions < u64::MAX {
                    self.suspensions = self.suspensions + 1;
                }
                Ok(Checkpoint::Yield)
            },
        }
    }

    /// The suspended call goes on, exactly where it stopped. Returns the
    /// units it may consume before the next stop, which is at least one.
    pub fn resume(&mut self) -> (resumed: Result<u64, CallError>)
        requires
            old(self).wf(),
        ensures
            final(self).snapshot() == old(self).snapshot().apply(Operation::Resume),
            final(self).wf(),
            final(self).same_data(old(self)),
            final(self).meter() == old(self).meter(),
            final(self).suspensions() == old(self).suspensions(),
            match resumed {
                Ok(units) => old(self).state().next(Event::Resume) == Some(final(self).state())
                    && units == final(self).meter().budget() && units > 0,
                Err(e) => e == CallError::WrongState && old(self).state().next(Event::Resume)
                    is None && final(self).state() == old(self).state(),
            },
    {
        match self.state.transition(Event::Resume) {
            Some(next) => {
                self.state = next;
                Ok(self.meter.budget())
            },
            None => Err(CallError::WrongState),
        }
    }

    /// The innermost running call returns.
    pub fn finish_call(&mut self) -> (done: Result<(), CallError>)
        requires
            old(self).wf(),
        ensures
            final(self).snapshot() == old(self).snapshot().apply(Operation::FinishCall),
            final(self).wf(),
            final(self).same_data(old(self)),
            final(self).meter() == old(self).meter(),
            final(self).suspensions() == old(self).suspensions(),
            match done {
                Ok(()) => old(self).state().next(Event::Return) == Some(final(self).state()),
                Err(e) => e == CallError::WrongState && old(self).state().next(Event::Return)
                    is None && final(self).state() == old(self).state(),
            },
    {
        match self.state.transition(Event::Return) {
            Some(next) => {
                self.state = next;
                Ok(())
            },
            None => Err(CallError::WrongState),
        }
    }

    /// A trap ends the running call chain.
    pub fn fail(&mut self, trap: Trap) -> (done: Result<(), CallError>)
        requires
            old(self).wf(),
        ensures
            final(self).snapshot() == old(self).snapshot().apply(Operation::Fail { trap }),
            final(self).wf(),
            final(self).same_data(old(self)),
            final(self).meter() == old(self).meter(),
            final(self).suspensions() == old(self).suspensions(),
            match done {
                Ok(()) => old(self).state() is Running && final(self).state() == StoreState::Failed(
                    trap,
                ),
                Err(e) => e == CallError::WrongState && !(old(self).state() is Running)
                    && final(self).state() == old(self).state(),
            },
    {
        match self.state.transition(Event::Fail(trap)) {
            Some(next) => {
                self.state = next;
                Ok(())
            },
            None => Err(CallError::WrongState),
        }
    }

    /// Drives a call that needs `work` units of fuel from its beginning to
    /// its end: it runs as far as each grant allows, suspends and resumes in
    /// between, and ends completed or out of fuel.
    pub fn run_to_end(&mut self, work: u64) -> (ended: Result<Outcome, CallError>)
        requires
            old(self).wf(),
        ensures
            final(self).wf(),
            final(self).same_data(old(self)),
            match ended {
                Ok(outcome) => {
                    &&& old(self).state() == StoreState::Linked
                    &&& outcome@ == run(Meter::fresh(old(self).config()), work as nat, 0, 0)
                    &&& final(self).meter() == meter_after(
                        Meter::fresh(old(self).config()),
                        work as nat,
                    )
                    &&& final(self).state() == match outcome {
                        Outcome::Completed { .. } => StoreState::Completed,
                        Outcome::FuelExhausted { .. } => StoreState::Failed(Trap::FuelExhausted),
                    }
                    &&& final(self).suspensions() == match outcome {
                        Outcome::Completed { suspensions } => suspensions,
                        Outcome::FuelExhausted { suspensions, .. } => suspensions,
                    }
                },
                Err(e) => {
                    &&& e == CallError::WrongState
                    &&& old(self).state() != StoreState::Linked
                    &&& final(self).same_control(old(self))
                },
            },
    {
        match self.state {
            StoreState::Linked => {},
            _ => {
                return Err(CallError::WrongState);
            },
        }
        let ghost start = Meter::fresh(self.config);
        match self.begin_call() {
            Ok(_) => {},
            Err(e) => {
                return Err(e);
            },
        }
        let mut left: u64 = work;
        let mut consumed: u64 = 0;
        loop
            invariant
                self.wf(),
                self.same_data(old(self)),
                self.state() == (StoreState::Running { depth: 1 }),
                old(self).state() == StoreState::Linked,
                start == Meter::fresh(old(self).config()),
                consumed + left == work,
                self.suspensions() <= consumed,
                self.meter().budget() == 0 ==> self.suspensions() < consumed,
                run(start, work as nat, 0, 0) == run(
                    self.meter(),
                    left as nat,
                    self.suspensions(),
                    consumed as nat,
                ),
                meter_after(start, work as nat) == meter_after(self.meter(), left as nat),
            decreases left, (if self.meter().budget() == 0 { 1nat } else { 0nat }),
        {
            if left == 0 {
                match self.finish_call() {
                    Ok(()) => {},
                    Err(e) => {
                        return Err(e);
                    },
                }
                return Ok(Outcome::Completed { suspensions: self.suspensions });
            }
            let budget = self.grant();
            if budget > 0 {
                let units = if left <= budget {
                    left
                } else {
                    budget
                };
                match self.consume(units) {
                    Ok(()) => {},
                    Err(e) => {
                        return Err(e);
                    },
                }
                left = left - units;
                consumed = consumed + units;
            } else {
                match self.suspend() {
                    Ok(Checkpoint::Exhausted) => {
                        return Ok(
                            Outcome::FuelExhausted { suspensions: self.suspensions, consumed },
                        );
                    },
                    Ok(Checkpoint::Yield) => {},
                    Err(e) => {
                        return Err(e);
                    },
                }
                match self.resume() {
                    Ok(_) => {},
                    Err(e) => {
                        return Err(e);
                    },
                }
            }
        }
    }
}

} // verus!
