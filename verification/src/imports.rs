//! Serving the imports of a guest that talks to its host through the `wapc`
//! namespace.
//!
//! Such a guest imports functions from the module `wapc`; whatever else it
//! imports (the system interface under its reserved name, memories, globals)
//! is somebody else's to provide. The host knows two callbacks by name, each
//! with one function type, and binds an import only where both agree.

use crate::linker::{LinkError, LinkErrorView};
use crate::module::ImportDescriptor;
use crate::signature::{ExternKind, FuncSig, FuncSigView, Signature, SignatureView, ValKind};
use crate::text::str_eq;
use vstd::prelude::*;

verus! {

/// A host function that a `wapc` guest can import.
#[derive(Clone, Copy, Debug, PartialEq, Eq, Structural)]
pub enum HostCallback {
    /// `__passing_key`: takes one 32-bit key and returns nothing.
    PassingKey,
    /// `__host_call`: takes nothing and returns nothing.
    HostCall,
}

impl HostCallback {
    /// The function type of the callback.
    pub open spec fn signature_view(self) -> FuncSigView {
        match self {
            HostCallback::PassingKey => FuncSigView {
                params: seq![ValKind::I32],
                results: Seq::empty(),
            },
            HostCallback::HostCall => FuncSigView { params: Seq::empty(), results: Seq::empty() },
        }
    }

    /// The function type of the callback.
    pub fn signature(&self) -> (signature: FuncSig)
        ensures
            signature@ == self.signature_view(),
    {
        let mut params: Vec<ValKind> = Vec::new();
        match self {
            HostCallback::PassingKey => {
                params.push(ValKind::I32);
            },
            HostCallback::HostCall => {},
        }
        let signature = FuncSig::new(params, Vec::new());
        assert(signature@.params =~= self.signature_view().params);
        assert(signature@.results =~= self.signature_view().results);
        signature
    }

    /// The name under which the guest imports the callback.
    pub fn name(&self) -> (name: &'static str)
        ensures
            callback_named(name@) == Some(*self),
    {
        match self {
            HostCallback::PassingKey => "__passing_key",
            HostCallback::HostCall => {
                proof {
                    reveal_strlit("__passing_key");
                    reveal_strlit("__host_call");
                    assert("__host_call"@.len() != "__passing_key"@.len());
                }
                "__host_call"
            },
        }
    }
}

/// What a module declares of the type of an import: for a function its whole
/// type, for anything else its kind.
#[derive(Debug)]
pub enum ImportType {
    Func(FuncSig),
    Global,
    Table,
    Memory,
    Tag,
}

/// The mathematical content of an [`ImportType`].
pub enum ImportTypeView {
    Func(FuncSigView),
    Global,
    Table,
    Memory,
    Tag,
}

impl ImportTypeView {
    /// The kind of thing that is imported.
    pub open spec fn kind(self) -> ExternKind {
        match self {
            ImportTypeView::Func(_) => ExternKind::Func,
            ImportTypeView::Global => ExternKind::Global,
            ImportTypeView::Table => ExternKind::Table,
            ImportTypeView::Memory => ExternKind::Memory,
            ImportTypeView::Tag => ExternKind::Tag,
        }
    }

    /// What is read of a declared signature.
    pub open spec fn of(signature: SignatureView) -> ImportTypeView {
        match signature {
            SignatureView::Func(f) => ImportTypeView::Func(f),
            SignatureView::Memory(_) => ImportTypeView::Memory,
            SignatureView::Table { .. } => ImportTypeView::Table,
            SignatureView::Global { .. } => ImportTypeView::Global,
        }
    }
}

impl View for ImportType {
    type V = ImportTypeView;

    open spec fn view(&self) -> ImportTypeView {
        match *self {
            ImportType::Func(f) => ImportTypeView::Func(f@),
            ImportType::Global => ImportTypeView::Global,
            ImportType::Table => ImportTypeView::Table,
            ImportType::Memory => ImportTypeView::Memory,
            ImportType::Tag => ImportTypeView::Tag,
        }
    }
}

impl ImportType {
    /// The kind of thing that is imported.
    pub fn kind(&self) -> (kind: ExternKind)
        ensures
            kind == self@.kind(),
    {
        match self {
            ImportType::Func(_) => ExternKind::Func,
            ImportType::Global => ExternKind::Global,
            ImportType::Table => ExternKind::Table,
            ImportType::Memory => ExternKind::Memory,
            ImportType::Tag => ExternKind::Tag,
        }
    }
}

/// What import resolution reads of one import: its two-part name and its
/// declared type.
#[derive(Debug)]
pub struct ImportEntry {
    pub module: String,
    pub name: String,
    pub ty: ImportType,
}

/// The mathematical content of an [`ImportEntry`].
pub struct ImportEntryView {
    pub module: Seq<char>,
    pub name: Seq<char>,
    pub ty: ImportTypeView,
}

impl View for ImportEntry {
    type V = ImportEntryView;

    open spec fn view(&self) -> ImportEntryView {
        ImportEntryView { module: self.module@, name: self.name@, ty: self.ty@ }
    }
}

impl ImportEntry {
    /// An entry with the given names and declared type.
    pub fn new(module: &str, name: &str, ty: ImportType) -> (entry: ImportEntry)
        ensures
            entry@ == (ImportEntryView { module: module@, name: name@, ty: ty@ }),
    {
        ImportEntry { module: module.to_owned(), name: name.to_owned(), ty }
    }

    /// What import resolution reads of a declared import.
    pub fn of(import: &ImportDescriptor) -> (entry: ImportEntry)
        ensures
            entry@ == (ImportEntryView {
                module: import@.module,
                name: import@.name,
                ty: ImportTypeView::of(import@.signature),
            }),
    {
        let ty = match &import.signature {
            Signature::Func(f) => ImportType::Func(f.clone()),
            Signature::Memory(_) => ImportType::Memory,
            Signature::Table { .. } => ImportType::Table,
            Signature::Global { .. } => ImportType::Global,
        };
        ImportEntry { module: import.module.clone(), name: import.name.clone(), ty }
    }
}

/// The views of a list of entries, in order.
pub open spec fn entry_views(entries: Seq<ImportEntry>) -> Seq<ImportEntryView> {
    Seq::new(entries.len(), |i: int| entries[i]@)
}

/// The callback of a name, if the host knows the name.
pub open spec fn callback_named(name: Seq<char>) -> Option<HostCallback> {
    if name == "__passing_key"@ {
        Some(HostCallback::PassingKey)
    } else if name == "__host_call"@ {
        Some(HostCallback::HostCall)
    } else {
        None
    }
}

/// Who provides what is imported from a module name.
#[derive(Clone, Copy, Debug, PartialEq, Eq, Structural)]
pub enum Provider {
    /// The system interface, under its reserved name `wasi_snapshot_preview1`.
    System,
    /// This host, under the name `wapc`.
    Host,
    /// Somebody else.
    Other,
}

/// The provider of a module name.
pub open spec fn provider_of(module: Seq<char>) -> Provider {
    if module == "wasi_snapshot_preview1"@ {
        Provider::System
    } else if module == "wapc"@ {
        Provider::Host
    } else {
        Provider::Other
    }
}

/// Whether the host serves the import: a function that the host provides.
pub open spec fn served(entry: ImportEntryView) -> bool {
    entry.ty is Func && provider_of(entry.module) == Provider::Host
}

/// Whether the host holds a binding for the import: it serves the import,
/// knows its name, and the callback of that name has exactly the declared
/// function type.
pub open spec fn held(entry: ImportEntryView) -> bool {
    &&& served(entry)
    &&& callback_named(entry.name) matches Some(callback)
    &&& entry.ty == ImportTypeView::Func(callback.signature_view())
}

/// The error for a served import that the host holds no binding for:
/// unresolved where the name is unknown, a mismatch where the name is known
/// and the declared type is another.
pub open spec fn refusal(entry: ImportEntryView) -> LinkErrorView {
    if callback_named(entry.name) is Some {
        LinkErrorView::SignatureMismatch { module: entry.module, name: entry.name }
    } else {
        LinkErrorView::UnresolvedImport { module: entry.module, name: entry.name }
    }
}

/// Whether import `i` is the first served import that the host holds no
/// binding for.
pub open spec fn is_first_refused(entries: Seq<ImportEntryView>, i: int) -> bool {
    &&& 0 <= i < entries.len()
    &&& served(entries[i]) && !held(entries[i])
    &&& forall|j: int| 0 <= j < i && served(#[trigger] entries[j]) ==> held(entries[j])
}

/// What binding one import by its name yields: the callback of that name, or
/// the unresolved import that an unknown name under `wapc` is.
pub open spec fn callback_or_unresolved(import: Seq<char>) -> Result<HostCallback, LinkErrorView> {
    match callback_named(import) {
        Some(callback) => Ok(callback),
        None => Err(LinkErrorView::UnresolvedImport { module: "wapc"@, name: import }),
    }
}

/// What arranging the imports yields: the callbacks bound to the served
/// imports, in declaration order, or the refusal of the first served import
/// that the host holds no binding for. Imports that the host does not serve
/// are passed over.
pub open spec fn arranged(entries: Seq<ImportEntryView>) -> Result<
    Seq<HostCallback>,
    LinkErrorView,
>
    decreases entries.len(),
{
    if entries.len() == 0 {
        Ok(Seq::empty())
    } else {
        let last = entries.last();
        match arranged(entries.drop_last()) {
            Err(e) => Err(e),
            Ok(before) => if !served(last) {
                Ok(before)
            } else if held(last) {
                Ok(before.push(callback_named(last.name)->Some_0))
            } else {
                Err(refusal(last))
            },
        }
    }
}

/// The provider of a module name.
pub fn provider(module: &str) -> (provider: Provider)
    ensures
        provider == provider_of(module@),
{
    if str_eq(module, "wasi_snapshot_preview1") {
        Provider::System
    } else if str_eq(module, "wapc") {
        Provider::Host
    } else {
        Provider::Other
    }
}

/// The callback of a name, if the host knows the name.
pub fn find_callback(import: &str) -> (callback: Option<HostCallback>)
    ensures
        callback == callback_named(import@),
{
    if str_eq(import, "__passing_key") {
        Some(HostCallback::PassingKey)
    } else if str_eq(import, "__host_call") {
        Some(HostCallback::HostCall)
    } else {
        None
    }
}

/// The callback that the host binds to an import of `wapc` by its name. A
/// name that the host does not know gives the unresolved import, named.
pub fn callback_for_import(import: &str) -> (bound: Result<HostCallback, LinkError>)
    ensures
        match bound {
            Ok(callback) => callback_or_unresolved(import@) == Ok::<HostCallback, LinkErrorView>(
                callback,
            ),
            Err(e) => callback_or_unresolved(import@) == Err::<HostCallback, LinkErrorView>(e@),
        },
{
    match find_callback(import) {
        Some(callback) => Ok(callback),
        None => Err(
            LinkError::UnresolvedImport { module: "wapc".to_owned(), name: import.to_owned() },
        ),
    }
}

/// Binds one served import: the callback of its name, if the host knows the
/// name and the callback has the declared function type.
fn bind(entry: &ImportEntry) -> (bound: Result<HostCallback, LinkError>)
    requires
        served(entry@),
    ensures
        match bound {
            Ok(callback) => held(entry@) && callback_named(entry@.name) == Some(callback),
            Err(e) => !held(entry@) && e@ == refusal(entry@),
        },
{
    let declared = match &entry.ty {
        ImportType::Func(declared) => declared,
        _ => {
            proof {
                assert(false);
            }
            return Err(
                LinkError::UnresolvedImport {
                    module: entry.module.clone(),
                    name: entry.name.clone(),
                },
            );
        },
    };
    match find_callback(entry.name.as_str()) {
        None => Err(
            LinkError::UnresolvedImport { module: entry.module.clone(), name: entry.name.clone() },
        ),
        Some(callback) => {
            if callback.signature().same_as(declared) {
                Ok(callback)
            } else {
                Err(
                    LinkError::SignatureMismatch {
                        module: entry.module.clone(),
                        name: entry.name.clone(),
                    },
                )
            }
        },
    }
}

/// Arranges the host's callbacks in the order in which the guest imports
/// them. Every served import must find a callback of its name and of its
/// declared function type; the first that does not is reported by name.
pub fn arrange(entries: &Vec<ImportEntry>) -> (callbacks: Result<Vec<HostCallback>, LinkError>)
    ensures
        match callbacks {
            Ok(list) => arranged(entry_views(entries@)) == Ok::<Seq<HostCallback>, LinkErrorView>(
                list@,
            ),
            Err(e) => arranged(entry_views(entries@)) == Err::<Seq<HostCallback>, LinkErrorView>(
                e@,
            ),
        },
{
    let ghost views = entry_views(entries@);
    let mut list: Vec<HostCallback> = Vec::new();
    let mut i: usize = 0;
    while i < entries.len()
        invariant
            i <= entries.len(),
            views == entry_views(entries@),
            arranged(views.take(i as int)) == Ok::<Seq<HostCallback>, LinkErrorView>(list@),
        decreases entries.len() - i,
    {
        let entry = &entries[i];
        proof {
            assert(views.take(i + 1).drop_last() =~= views.take(i as int));
            assert(views.take(i + 1).last() == entry@);
        }
        let by_host = match provider(entry.module.as_str()) {
            Provider::Host => true,
            Provider::System => false,
            Provider::Other => false,
        };
        let is_func = match &entry.ty {
            ImportType::Func(_) => true,
            _ => false,
        };
        if is_func && by_host {
            match bind(entry) {
                Ok(callback) => {
                    list.push(callback);
                },
                Err(e) => {
                    proof {
                        lemma_arranged_error_stays(views, i + 1);
                    }
                    return Err(e);
                },
            }
        }
        i += 1;
    }
    assert(views.take(entries.len() as int) =~= views);
    Ok(list)
}

/// Once a prefix of the imports fails, every longer prefix fails in the same way.
pub proof fn lemma_arranged_error_stays(entries: Seq<ImportEntryView>, n: int)
    requires
        0 <= n <= entries.len(),
        arranged(entries.take(n)) is Err,
    ensures
        arranged(entries) == arranged(entries.take(n)),
    decreases entries.len() - n,
{
    if n == entries.len() {
        assert(entries.take(n) =~= entries);
    } else {
        assert(entries.take(n + 1).drop_last() =~= entries.take(n));
        lemma_arranged_error_stays(entries, n + 1);
    }
}

/// Arranging succeeds exactly when the host holds a binding for every import
/// that it serves. It then yields one callback for each served import.
/// Otherwise the error is the refusal of the first served import without a
/// binding: it names that import, as unresolved where the name is unknown and
/// as a mismatch where the name is known and the declared type is another.
pub proof fn law_arrange_succeeds_iff_all_served_are_held(entries: Seq<ImportEntryView>)
    ensures
        arranged(entries) is Ok <==> (forall|i: int|
            0 <= i < entries.len() && served(#[trigger] entries[i]) ==> held(entries[i])),
        arranged(entries) matches Ok(list) ==> list.len() <= entries.len(),
        arranged(entries) matches Err(e) ==> exists|i: int|
            #[trigger] is_first_refused(entries, i) && e == refusal(entries[i]) && e.key() == (
                entries[i].module,
                entries[i].name,
            ),
    decreases entries.len(),
{
    if entries.len() > 0 {
        let before = entries.drop_last();
        let last = entries.last();
        let n = before.len() as int;
        law_arrange_succeeds_iff_all_served_are_held(before);
        assert forall|j: int| 0 <= j < n implies before[j] == entries[j] by {}
        match arranged(before) {
            Err(e) => {
                let i = choose|i: int|
                    #[trigger] is_first_refused(before, i) && e == refusal(before[i]);
                assert(is_first_refused(entries, i));
            },
            Ok(list) => {
                assert forall|j: int| 0 <= j < n && served(#[trigger] entries[j]) implies held(
                    entries[j],
                ) by {
                    assert(before[j] == entries[j]);
                }
                if served(last) && !held(last) {
                    assert(entries[n] == last);
                    assert(is_first_refused(entries, n));
                }
            },
        }
    }
}

/// Arranging yields a callback for every import, so that the module can be
/// instantiated with them alone, exactly when the host holds a binding for
/// every import: each is a function of `wapc` whose name the host knows and
/// whose declared type is the type of the callback of that name.
pub proof fn law_arrange_covers_all_imports_iff_all_are_held(entries: Seq<ImportEntryView>)
    ensures
        (arranged(entries) matches Ok(list) && list.len() == entries.len()) <==> (forall|i: int|
            0 <= i < entries.len() ==> held(#[trigger] entries[i])),
        arranged(entries) matches Ok(list) ==> list.len() <= entries.len(),
    decreases entries.len(),
{
    if entries.len() > 0 {
        let before = entries.drop_last();
        let last = entries.last();
        let n = before.len() as int;
        law_arrange_covers_all_imports_iff_all_are_held(before);
        assert forall|j: int| 0 <= j < n implies before[j] == entries[j] by {}
        assert(entries[n] == last);
        if forall|i: int| 0 <= i < entries.len() ==> held(#[trigger] entries[i]) {
            assert forall|j: int| 0 <= j < n implies held(#[trigger] before[j]) by {
                assert(held(entries[j]));
            }
            assert(held(entries[n]));
        }
        if arranged(entries) matches Ok(list) && list.len() == entries.len() {
            assert(held(last));
            assert forall|i: int| 0 <= i < entries.len() implies held(#[trigger] entries[i]) by {
                if i < n {
                    assert(held(before[i]));
                }
            }
        }
    }
}

} // verus!
