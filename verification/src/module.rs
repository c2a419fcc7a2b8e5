//! What a compiled module declares: its imports and its exports.
//!
//! The compiler that produces a module is somebody else's business. This layer
//! only reads the declarations, which never change once the module exists.

use crate::signature::{FuncSig, Signature, SignatureView};
use crate::text::str_eq;
use vstd::prelude::*;

verus! {

/// A two-part import name: module name, then field name.
pub type Key = (Seq<char>, Seq<char>);

/// One declared import.
#[derive(Debug)]
pub struct ImportDescriptor {
    pub module: String,
    pub name: String,
    pub signature: Signature,
}

/// The mathematical content of an [`ImportDescriptor`].
pub struct ImportView {
    pub module: Seq<char>,
    pub name: Seq<char>,
    pub signature: SignatureView,
}

impl ImportView {
    /// The name under which the import is looked up.
    pub open spec fn key(self) -> Key {
        (self.module, self.name)
    }
}

impl View for ImportDescriptor {
    type V = ImportView;

    open spec fn view(&self) -> ImportView {
        ImportView { module: self.module@, name: self.name@, signature: self.signature@ }
    }
}

impl ImportDescriptor {
    /// The import of `name` from `module`, with its declared signature.
    pub fn new(module: &str, name: &str, signature: Signature) -> (import: ImportDescriptor)
        ensures
            import@ == (ImportView { module: module@, name: name@, signature: signature@ }),
    {
        ImportDescriptor { module: module.to_owned(), name: name.to_owned(), signature }
    }
}

/// One declared export.
#[derive(Debug)]
pub struct ExportDescriptor {
    pub name: String,
    pub signature: Signature,
}

/// The mathematical content of an [`ExportDescriptor`].
pub struct ExportView {
    pub name: Seq<char>,
    pub signature: SignatureView,
}

impl View for ExportDescriptor {
    type V = ExportView;

    open spec fn view(&self) -> ExportView {
        ExportView { name: self.name@, signature: self.signature@ }
    }
}

impl ExportDescriptor {
    /// The export called `name`, with its declared signature.
    pub fn new(name: &str, signature: Signature) -> (export: ExportDescriptor)
        ensures
            export@ == (ExportView { name: name@, signature: signature@ }),
    {
        ExportDescriptor { name: name.to_owned(), signature }
    }
}

/// The views of a list of imports, in declaration order.
pub open spec fn import_views(imports: Seq<ImportDescriptor>) -> Seq<ImportView> {
    Seq::new(imports.len(), |i: int| imports[i]@)
}

/// The views of a list of exports, in declaration order.
pub open spec fn export_views(exports: Seq<ExportDescriptor>) -> Seq<ExportView> {
    Seq::new(exports.len(), |i: int| exports[i]@)
}

/// Whether `i` is the first export called `name`.
pub open spec fn is_first_export(exports: Seq<ExportView>, name: Seq<char>, i: int) -> bool {
    &&& 0 <= i < exports.len()
    &&& exports[i].name == name
    &&& forall|j: int| 0 <= j < i ==> (#[trigger] exports[j]).name != name
}

/// Whether some export is called `name`.
pub open spec fn has_export(exports: Seq<ExportView>, name: Seq<char>) -> bool {
    exists|i: int| 0 <= i < exports.len() && (#[trigger] exports[i]).name == name
}

/// Why an entry point cannot be invoked as the caller expects.
#[derive(Clone, Copy, Debug, PartialEq, Eq, Structural)]
pub enum EntryError {
    /// The module exports nothing under that name.
    ExportNotFound,
    /// The export is not a function of the expected parameter and result types.
    TypeMismatch,
}

/// What checking an entry point yields: the export's position, or the reason
/// why the call must not start.
pub open spec fn entry_check(exports: Seq<ExportView>, name: Seq<char>, expected: SignatureView)
    -> Result<int, EntryError> {
    if !has_export(exports, name) {
        Err(EntryError::ExportNotFound)
    } else {
        let i = choose|i: int| is_first_export(exports, name, i);
        if exports[i].signature == expected {
            Ok(i)
        } else {
            Err(EntryError::TypeMismatch)
        }
    }
}

/// The declarations of a compiled module. There is no way to change one.
#[derive(Debug)]
pub struct CompiledModule {
    imports: Vec<ImportDescriptor>,
    exports: Vec<ExportDescriptor>,
}

/// The mathematical content of a [`CompiledModule`].
pub struct ModuleView {
    pub imports: Seq<ImportView>,
    pub exports: Seq<ExportView>,
}

impl View for CompiledModule {
    type V = ModuleView;

    closed spec fn view(&self) -> ModuleView {
        ModuleView { imports: import_views(self.imports@), exports: export_views(self.exports@) }
    }
}

impl CompiledModule {
    /// The module that declares these imports and exports, in this order.
    pub fn new(imports: Vec<ImportDescriptor>, exports: Vec<ExportDescriptor>) -> (module:
        CompiledModule)
        ensures
            module@.imports == import_views(imports@),
            module@.exports == export_views(exports@),
    {
        CompiledModule { imports, exports }
    }

    /// The imports, in declaration order.
    pub fn imports(&self) -> (imports: &Vec<ImportDescriptor>)
        ensures
            import_views(imports@) == self@.imports,
    {
        &self.imports
    }

    /// The exports, in declaration order.
    pub fn exports(&self) -> (exports: &Vec<ExportDescriptor>)
        ensures
            export_views(exports@) == self@.exports,
    {
        &self.exports
    }

    /// The position of the first export called `name`.
    pub fn find_export(&self, name: &str) -> (found: Option<usize>)
        ensures
            match found {
                Some(i) => is_first_export(self@.exports, name@, i as int),
                None => !has_export(self@.exports, name@),
            },
    {
        let mut i: usize = 0;
        while i < self.exports.len()
            invariant
                i <= self.exports.len(),
                forall|j: int| 0 <= j < i ==> (#[trigger] self@.exports[j]).name != name@,
            decreases self.exports.len() - i,
        {
            if str_eq(self.exports[i].name.as_str(), name) {
                return Some(i);
            }
            i += 1;
        }
        None
    }

    /// Checks, before any guest code runs, that `name` is an exported function
    /// with exactly the expected parameter and result types.
    pub fn check_entry(&self, name: &str, expected: &FuncSig) -> (checked: Result<
        usize,
        EntryError,
    >)
        ensures
            match checked {
                Ok(i) => entry_check(self@.exports, name@, SignatureView::Func(expected@))
                    == Ok::<int, EntryError>(i as int),
                Err(e) => entry_check(self@.exports, name@, SignatureView::Func(expected@))
                    == Err::<int, EntryError>(e),
            },
    {
        match self.find_export(name) {
            None => Err(EntryError::ExportNotFound),
            Some(i) => {
                proof {
                    lemma_first_export_unique(self@.exports, name@, i as int);
                }
                let same = match &self.exports[i].signature {
                    Signature::Func(f) => f.same_as(expected),
                    _ => false,
                };
                if same {
                    Ok(i)
                } else {
                    Err(EntryError::TypeMismatch)
                }
            },
        }
    }
}

/// At most one position is the first export of a name, so "the" first export
/// is well defined.
pub proof fn lemma_first_export_unique(exports: Seq<ExportView>, name: Seq<char>, i: int)
    requires
        is_first_export(exports, name, i),
    ensures
        has_export(exports, name),
        (choose|k: int| is_first_export(exports, name, k)) == i,
{
    let k = choose|k: int| is_first_export(exports, name, k);
    assert(is_first_export(exports, name, k));
    if k < i {
        assert(exports[k].name != name);
    } else if i < k {
        assert(exports[i].name != name);
    }
}

} // verus!
