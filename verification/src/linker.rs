//! The registry of host bindings and the resolution of a module's imports.
//!
//! A registry maps a two-part name to one binding. Linking walks a module's
//! imports in declaration order, so that the import it reports on failure is
//! always the first one that cannot be satisfied. Linking never changes the
//! registry.

use crate::module::{ExportDescriptor, ImportDescriptor, ImportView, Key};
use crate::signature::{Signature, SignatureView};
use crate::text::str_eq;
use vstd::prelude::*;

verus! {

/// What happens when a name is registered a second time.
#[derive(Clone, Copy, Debug, PartialEq, Eq, Structural)]
pub enum DuplicatePolicy {
    /// The second registration fails and the first binding stays.
    Reject,
    /// The second registration replaces the first binding.
    Overwrite,
}

/// Where a binding comes from.
#[derive(Clone, Copy, Debug, PartialEq, Eq, Structural)]
pub enum BindingSource {
    /// A function that the embedder defined.
    Host,
    /// An export of an instance, offered to other modules.
    ReExport,
}

/// A registration that the policy refused.
#[derive(Clone, Copy, Debug, PartialEq, Eq, Structural)]
pub enum RegisterError {
    /// The name is taken and the policy is [`DuplicatePolicy::Reject`].
    DuplicateImport,
}

/// A callable with its declared signature, under its name.
struct Binding<C> {
    module: String,
    name: String,
    signature: Signature,
    source: BindingSource,
    callable: C,
}

/// What a registry holds under one name.
pub struct BindingView<C> {
    pub signature: SignatureView,
    pub source: BindingSource,
    pub callable: C,
}

impl<C> Binding<C> {
    /// The name under which the binding is registered.
    spec fn key(self) -> Key {
        (self.module@, self.name@)
    }

    /// What the registry holds for the binding.
    spec fn value(self) -> BindingView<C> {
        BindingView { signature: self.signature@, source: self.source, callable: self.callable }
    }
}

/// Whether entry `i` is registered under `key`.
spec fn has_key_at<C>(entries: Seq<Binding<C>>, i: int, key: Key) -> bool {
    0 <= i < entries.len() && entries[i].key() == key
}

/// No name is registered twice.
spec fn keys_unique<C>(entries: Seq<Binding<C>>) -> bool {
    forall|i: int, j: int|
        0 <= i < entries.len() && 0 <= j < entries.len() && i != j ==> (#[trigger] entries[i]).key()
            != (#[trigger] entries[j]).key()
}

/// The mapping that a list of entries stands for.
spec fn entries_map<C>(entries: Seq<Binding<C>>) -> Map<Key, BindingView<C>> {
    Map::new(
        |key: Key| exists|i: int| has_key_at(entries, i, key),
        |key: Key| entries[choose|i: int| has_key_at(entries, i, key)].value(),
    )
}

/// Under unique names, the mapping holds each entry's value under its key.
proof fn lemma_entry_in_map<C>(entries: Seq<Binding<C>>, i: int)
    requires
        keys_unique(entries),
        0 <= i < entries.len(),
    ensures
        entries_map(entries).contains_key(entries[i].key()),
        entries_map(entries)[entries[i].key()] == entries[i].value(),
{
    let key = entries[i].key();
    assert(has_key_at(entries, i, key));
    let k = choose|k: int| has_key_at(entries, k, key);
    assert(has_key_at(entries, k, key));
    assert(k == i);
}

/// Putting an entry at one position, in place of the entry of the same name
/// or behind all the others, puts its value under its key and leaves every
/// other name as it was.
proof fn lemma_entry_put<C>(before: Seq<Binding<C>>, after: Seq<Binding<C>>, at: int)
    requires
        keys_unique(before),
        0 <= at < after.len(),
        at <= before.len() <= after.len() <= before.len() + 1,
        after.len() == before.len() <==> at < before.len(),
        at < before.len() ==> before[at].key() == after[at].key(),
        forall|j: int|
            0 <= j < after.len() && j != at ==> j < before.len() && after[j] == before[j],
        forall|j: int| 0 <= j < before.len() && j != at ==> before[j].key() != after[at].key(),
    ensures
        keys_unique(after),
        entries_map(after) == entries_map(before).insert(after[at].key(), after[at].value()),
{
    let key = after[at].key();
    let value = after[at].value();
    assert forall|a: int, b: int|
        0 <= a < after.len() && 0 <= b < after.len() && a != b implies (#[trigger] after[a]).key()
        != (#[trigger] after[b]).key() by {
        if a != at && b != at {
            assert(before[a].key() != before[b].key());
        }
    }
    assert forall|q: Key| #[trigger]
        entries_map(after).contains_key(q) == entries_map(before).insert(key, value).contains_key(
            q,
        ) by {
        if q == key {
            assert(has_key_at(after, at, q));
        } else if entries_map(before).contains_key(q) {
            let k = choose|k: int| has_key_at(before, k, q);
            assert(has_key_at(after, k, q));
        } else if entries_map(after).contains_key(q) {
            let k = choose|k: int| has_key_at(after, k, q);
            assert(has_key_at(before, k, q));
        }
    }
    assert forall|q: Key| #[trigger] entries_map(after).contains_key(q) implies entries_map(
        after,
    )[q] == entries_map(before).insert(key, value)[q] by {
        let k = choose|k: int| has_key_at(after, k, q);
        assert(has_key_at(after, k, q));
        lemma_entry_in_map(after, k);
        if q != key {
            assert(has_key_at(before, k, q));
            lemma_entry_in_map(before, k);
        } else {
            assert(k == at);
        }
    }
    assert(entries_map(after) =~= entries_map(before).insert(key, value));
}

/// A link failure, naming the import that caused it.
#[derive(Debug)]
pub enum LinkError {
    /// Nothing is registered under the import's name.
    UnresolvedImport { module: String, name: String },
    /// A binding is registered, with another signature than the import declares.
    SignatureMismatch { module: String, name: String },
}

/// The mathematical content of a [`LinkError`].
pub enum LinkErrorView {
    UnresolvedImport { module: Seq<char>, name: Seq<char> },
    SignatureMismatch { module: Seq<char>, name: Seq<char> },
}

impl LinkErrorView {
    /// The name of the offending import.
    pub open spec fn key(self) -> Key {
        match self {
            LinkErrorView::UnresolvedImport { module, name } => (module, name),
            LinkErrorView::SignatureMismatch { module, name } => (module, name),
        }
    }
}

impl View for LinkError {
    type V = LinkErrorView;

    open spec fn view(&self) -> LinkErrorView {
        match *self {
            LinkError::UnresolvedImport { module, name } => LinkErrorView::UnresolvedImport {
                module: module@,
                name: name@,
            },
            LinkError::SignatureMismatch { module, name } => LinkErrorView::SignatureMismatch {
                module: module@,
                name: name@,
            },
        }
    }
}

impl LinkError {
    /// The module name of the offending import.
    pub fn module(&self) -> (module: &str)
        ensures
            module@ == self@.key().0,
    {
        match self {
            LinkError::UnresolvedImport { module, .. } => module.as_str(),
            LinkError::SignatureMismatch { module, .. } => module.as_str(),
        }
    }

    /// The field name of the offending import.
    pub fn name(&self) -> (name: &str)
        ensures
            name@ == self@.key().1,
    {
        match self {
            LinkError::UnresolvedImport { name, .. } => name.as_str(),
            LinkError::SignatureMismatch { name, .. } => name.as_str(),
        }
    }

    /// Whether the import was missing, as opposed to mistyped.
    pub fn is_unresolved(&self) -> (b: bool)
        ensures
            b == (self@ is UnresolvedImport),
    {
        match self {
            LinkError::UnresolvedImport { .. } => true,
            LinkError::SignatureMismatch { .. } => false,
        }
    }
}

/// Whether the registry satisfies one import: a binding under its name, with a
/// structurally identical signature.
pub open spec fn resolves<C>(registry: Map<Key, BindingView<C>>, import: ImportView) -> bool {
    registry.contains_key(import.key()) && registry[import.key()].signature == import.signature
}

/// The error for an import that the registry does not satisfy.
pub open spec fn import_failure<C>(registry: Map<Key, BindingView<C>>, import: ImportView)
    -> LinkErrorView {
    if registry.contains_key(import.key()) {
        LinkErrorView::SignatureMismatch { module: import.module, name: import.name }
    } else {
        LinkErrorView::UnresolvedImport { module: import.module, name: import.name }
    }
}

/// Whether every import is satisfied.
pub open spec fn all_resolve<C>(registry: Map<Key, BindingView<C>>, imports: Seq<ImportView>)
    -> bool {
    forall|i: int| 0 <= i < imports.len() ==> resolves(registry, #[trigger] imports[i])
}

/// Whether import `i` is the first, in declaration order, that is not satisfied.
pub open spec fn is_first_failure<C>(
    registry: Map<Key, BindingView<C>>,
    imports: Seq<ImportView>,
    i: int,
) -> bool {
    &&& 0 <= i < imports.len()
    &&& !resolves(registry, imports[i])
    &&& forall|j: int| 0 <= j < i ==> resolves(registry, #[trigger] imports[j])
}

/// What linking yields: the callables bound to the imports, in declaration
/// order, or the failure of the first unsatisfied import.
pub open spec fn link_result<C>(registry: Map<Key, BindingView<C>>, imports: Seq<ImportView>)
    -> Result<Seq<C>, LinkErrorView> {
    if all_resolve(registry, imports) {
        Ok(Seq::new(imports.len(), |i: int| registry[imports[i].key()].callable))
    } else {
        Err(
            import_failure(
                registry,
                imports[choose|i: int| is_first_failure(registry, imports, i)],
            ),
        )
    }
}

/// At most one import is the first failure.
pub proof fn lemma_first_failure_unique<C>(
    registry: Map<Key, BindingView<C>>,
    imports: Seq<ImportView>,
    i: int,
)
    requires
        is_first_failure(registry, imports, i),
    ensures
        !all_resolve(registry, imports),
        (choose|k: int| is_first_failure(registry, imports, k)) == i,
{
    let k = choose|k: int| is_first_failure(registry, imports, k);
    assert(is_first_failure(registry, imports, k));
    if k < i {
        assert(resolves(registry, imports[k]));
    } else if i < k {
        assert(resolves(registry, imports[i]));
    }
}

/// Below any import that is not satisfied there is a first one.
pub proof fn lemma_first_failure_exists<C>(
    registry: Map<Key, BindingView<C>>,
    imports: Seq<ImportView>,
    k: int,
) -> (i: int)
    requires
        0 <= k < imports.len(),
        !resolves(registry, imports[k]),
    ensures
        is_first_failure(registry, imports, i),
        i <= k,
    decreases k,
{
    if exists|j: int| 0 <= j < k && !resolves(registry, #[trigger] imports[j]) {
        let j = choose|j: int| 0 <= j < k && !resolves(registry, #[trigger] imports[j]);
        lemma_first_failure_exists(registry, imports, j)
    } else {
        k
    }
}

/// Linking succeeds exactly when the registry holds, for every declared
/// import, a binding under the import's name with a structurally identical
/// signature. It then binds each import to that binding's callable. Otherwise
/// the error names the first import, in declaration order, that is missing or
/// mistyped, and says which of the two it is.
pub proof fn law_link_succeeds_iff_all_imports_match<C>(
    registry: Map<Key, BindingView<C>>,
    imports: Seq<ImportView>,
)
    ensures
        link_result(registry, imports) is Ok <==> (forall|i: int|
            0 <= i < imports.len() ==> registry.contains_key((#[trigger] imports[i]).key())
                && registry[imports[i].key()].signature == imports[i].signature),
        link_result(registry, imports) matches Ok(bound) ==> bound.len() == imports.len()
            && forall|i: int|
            0 <= i < imports.len() ==> #[trigger] bound[i] == registry[imports[i].key()].callable,
        link_result(registry, imports) matches Err(e) ==> exists|i: int|
            {
                &&& #[trigger] is_first_failure(registry, imports, i)
                &&& e.key() == imports[i].key()
                &&& e is UnresolvedImport <==> !registry.contains_key(imports[i].key())
                &&& e is SignatureMismatch <==> registry.contains_key(imports[i].key())
            },
{
    if all_resolve(registry, imports) {
        assert forall|i: int| 0 <= i < imports.len() implies registry.contains_key(
            (#[trigger] imports[i]).key(),
        ) && registry[imports[i].key()].signature == imports[i].signature by {
            assert(resolves(registry, imports[i]));
        }
    } else {
        let k = choose|k: int| 0 <= k < imports.len() && !resolves(registry, #[trigger] imports[k]);
        let i = lemma_first_failure_exists(registry, imports, k);
        lemma_first_failure_unique(registry, imports, i);
        assert(is_first_failure(registry, imports, i));
    }
}

/// Linking reads the bindings of the imports' names and nothing else: two
/// registries that agree on those names link alike.
pub proof fn law_link_reads_only_the_imported_names<C>(
    first: Map<Key, BindingView<C>>,
    second: Map<Key, BindingView<C>>,
    imports: Seq<ImportView>,
)
    requires
        forall|i: int|
            0 <= i < imports.len() ==> first.contains_key((#[trigger] imports[i]).key())
                == second.contains_key(imports[i].key()) && (first.contains_key(imports[i].key())
                ==> first[imports[i].key()] == second[imports[i].key()]),
    ensures
        link_result(first, imports) == link_result(second, imports),
{
    assert forall|i: int| 0 <= i < imports.len() implies resolves(first, #[trigger] imports[i])
        == resolves(second, imports[i]) by {}
    if all_resolve(first, imports) {
        assert(all_resolve(second, imports));
        assert(link_result(first, imports)->Ok_0 =~= link_result(second, imports)->Ok_0);
    } else {
        let k = choose|k: int| 0 <= k < imports.len() && !resolves(first, #[trigger] imports[k]);
        let i = lemma_first_failure_exists(first, imports, k);
        lemma_first_failure_unique(first, imports, i);
        assert(is_first_failure(second, imports, i));
        lemma_first_failure_unique(second, imports, i);
    }
}

/// What registering the exports of an instance one after the other leaves in
/// a registry: each export goes under `(module, export name)`; under
/// [`DuplicatePolicy::Reject`] the first name that is taken stops the
/// registration, and what was registered before it stays.
pub open spec fn exports_registered<C>(
    registry: Map<Key, BindingView<C>>,
    policy: DuplicatePolicy,
    module: Seq<char>,
    exports: Seq<(ExportDescriptor, C)>,
) -> (Map<Key, BindingView<C>>, Result<(), RegisterError>)
    decreases exports.len(),
{
    if exports.len() == 0 {
        (registry, Ok(()))
    } else {
        let key = (module, exports[0].0@.name);
        if policy == DuplicatePolicy::Reject && registry.contains_key(key) {
            (registry, Err(RegisterError::DuplicateImport))
        } else {
            exports_registered(
                registry.insert(
                    key,
                    BindingView {
                        signature: exports[0].0@.signature,
                        source: BindingSource::ReExport,
                        callable: exports[0].1,
                    },
                ),
                policy,
                module,
                exports.drop_first(),
            )
        }
    }
}

/// A name-indexed registry of bindings whose callables have type `C`.
pub struct LinkerRegistry<C> {
    policy: DuplicatePolicy,
    entries: Vec<Binding<C>>,
}

impl<C> View for LinkerRegistry<C> {
    type V = Map<Key, BindingView<C>>;

    closed spec fn view(&self) -> Map<Key, BindingView<C>> {
        entries_map(self.entries@)
    }
}

impl<C> LinkerRegistry<C> {
    /// The invariant of a registry: no name is registered twice.
    pub closed spec fn wf(&self) -> bool {
        keys_unique(self.entries@)
    }

    /// The policy that the registry was made with.
    pub closed spec fn duplicate_policy(&self) -> DuplicatePolicy {
        self.policy
    }

    /// An empty registry.
    pub fn new(policy: DuplicatePolicy) -> (registry: Self)
        ensures
            registry.wf(),
            registry.duplicate_policy() == policy,
            registry@ == Map::<Key, BindingView<C>>::empty(),
    {
        let registry = LinkerRegistry { policy, entries: Vec::new() };
        assert(registry@ =~= Map::<Key, BindingView<C>>::empty());
        registry
    }

    /// The policy that the registry was made with.
    pub fn policy(&self) -> (policy: DuplicatePolicy)
        ensures
            policy == self.duplicate_policy(),
    {
        self.policy
    }

    /// The position of the entry registered under a name.
    fn find(&self, module: &str, name: &str) -> (found: Option<usize>)
        ensures
            match found {
                Some(i) => has_key_at(self.entries@, i as int, (module@, name@)),
                None => forall|i: int| !has_key_at(self.entries@, i, (module@, name@)),
            },
    {
        let mut i: usize = 0;
        while i < self.entries.len()
            invariant
                i <= self.entries.len(),
                forall|j: int| 0 <= j < i ==> !has_key_at(self.entries@, j, (module@, name@)),
            decreases self.entries.len() - i,
        {
            if str_eq(self.entries[i].module.as_str(), module) && str_eq(
                self.entries[i].name.as_str(),
                name,
            ) {
                return Some(i);
            }
            i += 1;
        }
        None
    }

    /// Whether a binding is registered under `(module, name)`.
    pub fn contains(&self, module: &str, name: &str) -> (present: bool)
        requires
            self.wf(),
        ensures
            present == self@.contains_key((module@, name@)),
    {
        self.find(module, name).is_some()
    }

    /// The callable registered under `(module, name)`.
    pub fn get(&self, module: &str, name: &str) -> (callable: Option<&C>)
        requires
            self.wf(),
        ensures
            match callable {
                Some(c) => self@.contains_key((module@, name@)) && self@[(module@, name@)].callable
                    == *c,
                None => !self@.contains_key((module@, name@)),
            },
    {
        match self.find(module, name) {
            Some(i) => {
                proof {
                    lemma_entry_in_map(self.entries@, i as int);
                }
                Some(&self.entries[i].callable)
            },
            None => None,
        }
    }

    /// The signature registered under `(module, name)`.
    pub fn signature_of(&self, module: &str, name: &str) -> (signature: Option<&Signature>)
        requires
            self.wf(),
        ensures
            match signature {
                Some(s) => self@.contains_key((module@, name@)) && self@[(module@, name@)].signature
                    == s@,
                None => !self@.contains_key((module@, name@)),
            },
    {
        match self.find(module, name) {
            Some(i) => {
                proof {
                    lemma_entry_in_map(self.entries@, i as int);
                }
                Some(&self.entries[i].signature)
            },
            None => None,
        }
    }

    /// Puts `binding` under its name, as the policy rules.
    fn insert(&mut self, binding: Binding<C>) -> (done: Result<(), RegisterError>)
        requires
            old(self).wf(),
        ensures
            final(self).wf(),
            final(self).duplicate_policy() == old(self).duplicate_policy(),
            match done {
                Ok(()) => {
                    &&& old(self).duplicate_policy() == DuplicatePolicy::Overwrite
                        || !old(self)@.contains_key(binding.key())
                    &&& final(self)@ == old(self)@.insert(binding.key(), binding.value())
                },
                Err(e) => {
                    &&& e == RegisterError::DuplicateImport
                    &&& old(self).duplicate_policy() == DuplicatePolicy::Reject
                    &&& old(self)@.contains_key(binding.key())
                    &&& final(self)@ == old(self)@
                },
            },
    {
        let ghost key = binding.key();
        let ghost value = binding.value();
        let ghost before = self.entries@;
        match self.find(binding.module.as_str(), binding.name.as_str()) {
            Some(i) => {
                if self.policy == DuplicatePolicy::Reject {
                    return Err(RegisterError::DuplicateImport);
                }
                self.entries.set(i, binding);
                proof {
                    lemma_entry_put(before, self.entries@, i as int);
                }
                Ok(())
            },
            None => {
                self.entries.push(binding);
                proof {
                    assert forall|j: int| 0 <= j < before.len() implies before[j].key() != key by {
                        assert(!has_key_at(before, j, key));
                    }
                    lemma_entry_put(before, self.entries@, before.len() as int);
                    assert(!entries_map(before).contains_key(key));
                }
                Ok(())
            },
        }
    }

    /// Registers a host function under `(module_name, name)`.
    ///
    /// A name that is already taken is refused under [`DuplicatePolicy::Reject`]
    /// and replaced under [`DuplicatePolicy::Overwrite`]; nothing else changes.
    pub fn register(&mut self, module_name: &str, name: &str, signature: Signature, callable: C)
        -> (done: Result<(), RegisterError>)
        requires
            old(self).wf(),
        ensures
            final(self).wf(),
            final(self).duplicate_policy() == old(self).duplicate_policy(),
            match done {
                Ok(()) => {
                    &&& old(self).duplicate_policy() == DuplicatePolicy::Overwrite
                        || !old(self)@.contains_key((module_name@, name@))
                    &&& final(self)@ == old(self)@.insert(
                        (module_name@, name@),
                        BindingView {
                            signature: signature@,
                            source: BindingSource::Host,
                            callable,
                        },
                    )
                },
                Err(e) => {
                    &&& e == RegisterError::DuplicateImport
                    &&& old(self).duplicate_policy() == DuplicatePolicy::Reject
                    &&& old(self)@.contains_key((module_name@, name@))
                    &&& final(self)@ == old(self)@
                },
            },
    {
        self.insert(
            Binding {
                module: module_name.to_owned(),
                name: name.to_owned(),
                signature,
                source: BindingSource::Host,
                callable,
            },
        )
    }

    /// Registers one export of an instance under `(module_name, export.name)`,
    /// so that other modules can import it.
    pub fn register_export(&mut self, module_name: &str, export: &ExportDescriptor, callable: C)
        -> (done: Result<(), RegisterError>)
        requires
            old(self).wf(),
        ensures
            final(self).wf(),
            final(self).duplicate_policy() == old(self).duplicate_policy(),
            match done {
                Ok(()) => {
                    &&& old(self).duplicate_policy() == DuplicatePolicy::Overwrite
                        || !old(self)@.contains_key((module_name@, export@.name))
                    &&& final(self)@ == old(self)@.insert(
                        (module_name@, export@.name),
                        BindingView {
                            signature: export@.signature,
                            source: BindingSource::ReExport,
                            callable,
                        },
                    )
                },
                Err(e) => {
                    &&& e == RegisterError::DuplicateImport
                    &&& old(self).duplicate_policy() == DuplicatePolicy::Reject
                    &&& old(self)@.contains_key((module_name@, export@.name))
                    &&& final(self)@ == old(self)@
                },
            },
    {
        self.insert(
            Binding {
                module: module_name.to_owned(),
                name: export.name.clone(),
                signature: export.signature.clone(),
                source: BindingSource::ReExport,
                callable,
            },
        )
    }

    /// Registers the exports of an instance under `module_name`, in their
    /// order, so that other modules can import them by name.
    pub fn register_module(&mut self, module_name: &str, exports: Vec<(ExportDescriptor, C)>)
        -> (done: Result<(), RegisterError>)
        requires
            old(self).wf(),
        ensures
            final(self).wf(),
            final(self).duplicate_policy() == old(self).duplicate_policy(),
            (final(self)@, done) == exports_registered(
                old(self)@,
                old(self).duplicate_policy(),
                module_name@,
                exports@,
            ),
    {
        let ghost all = exports@;
        let mut later = exports;
        let mut pending: Vec<(ExportDescriptor, C)> = Vec::new();
        while later.len() > 0
            invariant
                later@.len() + pending@.len() == all.len(),
                forall|i: int| 0 <= i < later@.len() ==> later@[i] == all[i],
                forall|i: int|
                    0 <= i < pending@.len() ==> pending@[i] == all[all.len() - 1 - i],
            decreases later@.len(),
        {
            let item = later.pop().unwrap();
            pending.push(item);
        }
        assert(all.subrange(0, all.len() as int) =~= all);
        while pending.len() > 0
            invariant
                self.wf(),
                self.duplicate_policy() == old(self).duplicate_policy(),
                all == exports@,
                pending@.len() <= all.len(),
                forall|i: int|
                    0 <= i < pending@.len() ==> pending@[i] == all[all.len() - 1 - i],
                exports_registered(
                    old(self)@,
                    old(self).duplicate_policy(),
                    module_name@,
                    all,
                ) == exports_registered(
                    self@,
                    self.duplicate_policy(),
                    module_name@,
                    all.subrange(all.len() - pending@.len(), all.len() as int),
                ),
            decreases pending@.len(),
        {
            let ghost rest = all.subrange(all.len() - pending@.len(), all.len() as int);
            let ghost before = self@;
            let ghost policy = self.duplicate_policy();
            let (export, callable) = pending.pop().unwrap();
            proof {
                assert(rest[0] == (export, callable));
                assert(rest.drop_first() =~= all.subrange(
                    all.len() - pending@.len(),
                    all.len() as int,
                ));
            }
            match self.register_export(module_name, &export, callable) {
                Ok(()) => {
                    assert(exports_registered(before, policy, module_name@, rest)
                        == exports_registered(self@, policy, module_name@, rest.drop_first()));
                },
                Err(e) => {
                    assert(exports_registered(before, policy, module_name@, rest) == (
                        before,
                        Err::<(), RegisterError>(e),
                    ));
                    return Err(e);
                },
            }
        }
        Ok(())
    }

    /// Resolves the imports of a module, in declaration order.
    ///
    /// On success the result holds, for each import in turn, the callable
    /// registered under its name. On failure the error names the first import
    /// that has no binding or a binding of another signature. The registry is
    /// only read.
    pub fn link<'a>(&'a self, imports: &Vec<ImportDescriptor>) -> (linked: Result<
        Vec<&'a C>,
        LinkError,
    >)
        requires
            self.wf(),
        ensures
            match linked {
                Ok(bound) => {
                    &&& link_result(self@, crate::module::import_views(imports@)) is Ok
                    &&& bound@.len() == imports@.len()
                    &&& forall|i: int|
                        0 <= i < bound@.len() ==> *(#[trigger] bound@[i]) == link_result(
                            self@,
                            crate::module::import_views(imports@),
                        )->Ok_0[i]
                },
                Err(e) => link_result(self@, crate::module::import_views(imports@)) == Err::<
                    Seq<C>,
                    LinkErrorView,
                >(e@),
            },
    {
        let ghost views = crate::module::import_views(imports@);
        let mut bound: Vec<&'a C> = Vec::new();
        let mut i: usize = 0;
        while i < imports.len()
            invariant
                self.wf(),
                views == crate::module::import_views(imports@),
                i <= imports.len(),
                bound@.len() == i,
                forall|j: int| 0 <= j < i ==> resolves(self@, #[trigger] views[j]),
                forall|j: int|
                    0 <= j < i ==> *(#[trigger] bound@[j]) == self@[views[j].key()].callable,
            decreases imports.len() - i,
        {
            let import = &imports[i];
            assert(views[i as int] == import@);
            match self.find(import.module.as_str(), import.name.as_str()) {
                None => {
                    proof {
                        assert(!self@.contains_key(import@.key()));
                        assert(is_first_failure(self@, views, i as int));
                        lemma_first_failure_unique(self@, views, i as int);
                    }
                    return Err(
                        LinkError::UnresolvedImport {
                            module: import.module.clone(),
                            name: import.name.clone(),
                        },
                    );
                },
                Some(k) => {
                    proof {
                        lemma_entry_in_map(self.entries@, k as int);
                    }
                    if !self.entries[k].signature.same_as(&import.signature) {
                        proof {
                            assert(is_first_failure(self@, views, i as int));
                            lemma_first_failure_unique(self@, views, i as int);
                        }
                        return Err(
                            LinkError::SignatureMismatch {
                                module: import.module.clone(),
                                name: import.name.clone(),
                            },
                        );
                    }
                    bound.push(&self.entries[k].callable);
                },
            }
            i += 1;
        }
        assert(all_resolve(self@, views));
        Ok(bound)
    }
}

} // verus!
