//! Structural type signatures of imports and exports.
//!
//! A signature is plain data: two signatures are interchangeable exactly when
//! their views are equal, and [`Signature::same_as`] decides that.

use vstd::prelude::*;

verus! {

/// The type of a single value crossing the host/guest boundary.
#[derive(Clone, Copy, Debug, PartialEq, Eq, Structural)]
pub enum ValKind {
    I32,
    I64,
    F32,
    F64,
    V128,
    /// A nullable reference to a function.
    FuncRef,
    /// A nullable reference to a value of the host.
    ExternRef,
    /// Any other reference type. Such types are told apart by the engine
    /// alone: here they are one kind.
    OtherRef,
}

/// The kind of thing that a module imports or exports.
#[derive(Clone, Copy, Debug, PartialEq, Eq, Structural)]
pub enum ExternKind {
    Func,
    Global,
    Table,
    Memory,
    Tag,
}

/// Size bounds of a memory (in pages) or of a table (in elements).
#[derive(Clone, Copy, Debug)]
pub struct Limits {
    pub minimum: u64,
    pub maximum: Option<u64>,
}

impl Limits {
    /// Whether two bounds are the same bounds.
    pub fn same_as(&self, other: &Limits) -> (same: bool)
        ensures
            same == (*self == *other),
    {
        let max_same = match (self.maximum, other.maximum) {
            (None, None) => true,
            (Some(a), Some(b)) => a == b,
            _ => false,
        };
        self.minimum == other.minimum && max_same
    }
}

/// Parameter and result types of a function, in order.
#[derive(Debug)]
pub struct FuncSig {
    pub params: Vec<ValKind>,
    pub results: Vec<ValKind>,
}

/// The mathematical content of a [`FuncSig`].
pub struct FuncSigView {
    pub params: Seq<ValKind>,
    pub results: Seq<ValKind>,
}

impl View for FuncSig {
    type V = FuncSigView;

    open spec fn view(&self) -> FuncSigView {
        FuncSigView { params: self.params@, results: self.results@ }
    }
}

/// Whether two lists of value types agree in length and element by element.
pub fn same_kinds(a: &Vec<ValKind>, b: &Vec<ValKind>) -> (same: bool)
    ensures
        same == (a@ == b@),
{
    if a.len() != b.len() {
        return false;
    }
    let mut i: usize = 0;
    while i < a.len()
        invariant
            i <= a.len(),
            a.len() == b.len(),
            forall|j: int| 0 <= j < i ==> a@[j] == b@[j],
        decreases a.len() - i,
    {
        if a[i] != b[i] {
            return false;
        }
        i += 1;
    }
    assert(a@ =~= b@);
    true
}

/// An element-by-element copy of a list of value types.
pub fn copy_kinds(kinds: &Vec<ValKind>) -> (copy: Vec<ValKind>)
    ensures
        copy@ == kinds@,
{
    let mut copy: Vec<ValKind> = Vec::new();
    let mut i: usize = 0;
    while i < kinds.len()
        invariant
            i <= kinds.len(),
            copy@ == kinds@.take(i as int),
        decreases kinds.len() - i,
    {
        copy.push(kinds[i]);
        assert(kinds@.take(i + 1) =~= kinds@.take(i as int).push(kinds@[i as int]));
        i += 1;
    }
    assert(kinds@.take(kinds.len() as int) =~= kinds@);
    copy
}

impl FuncSig {
    /// The function type with these parameters and results.
    pub fn new(params: Vec<ValKind>, results: Vec<ValKind>) -> (sig: FuncSig)
        ensures
            sig@ == (FuncSigView { params: params@, results: results@ }),
    {
        FuncSig { params, results }
    }

    /// Number of parameters.
    pub fn arity(&self) -> (n: usize)
        ensures
            n == self@.params.len(),
    {
        self.params.len()
    }

    /// Structural comparison: same arity, same parameter types, same result types.
    pub fn same_as(&self, other: &FuncSig) -> (same: bool)
        ensures
            same == (self@ == other@),
    {
        same_kinds(&self.params, &other.params) && same_kinds(&self.results, &other.results)
    }
}

impl Clone for FuncSig {
    fn clone(&self) -> (copy: FuncSig)
        ensures
            copy@ == self@,
    {
        FuncSig { params: copy_kinds(&self.params), results: copy_kinds(&self.results) }
    }
}

/// The declared type of an import or an export.
#[derive(Debug)]
pub enum Signature {
    Func(FuncSig),
    Memory(Limits),
    Table { element: ValKind, limits: Limits },
    Global { content: ValKind, mutable: bool },
}

/// The mathematical content of a [`Signature`].
pub enum SignatureView {
    Func(FuncSigView),
    Memory(Limits),
    Table { element: ValKind, limits: Limits },
    Global { content: ValKind, mutable: bool },
}

impl View for Signature {
    type V = SignatureView;

    open spec fn view(&self) -> SignatureView {
        match *self {
            Signature::Func(f) => SignatureView::Func(f@),
            Signature::Memory(l) => SignatureView::Memory(l),
            Signature::Table { element, limits } => SignatureView::Table { element, limits },
            Signature::Global { content, mutable } => SignatureView::Global { content, mutable },
        }
    }
}

impl SignatureView {
    /// The kind of thing that the signature describes.
    pub open spec fn kind(self) -> ExternKind {
        match self {
            SignatureView::Func(_) => ExternKind::Func,
            SignatureView::Memory(_) => ExternKind::Memory,
            SignatureView::Table { .. } => ExternKind::Table,
            SignatureView::Global { .. } => ExternKind::Global,
        }
    }
}

impl Signature {
    /// The kind of thing that the signature describes.
    pub fn kind(&self) -> (kind: ExternKind)
        ensures
            kind == self@.kind(),
    {
        match self {
            Signature::Func(_) => ExternKind::Func,
            Signature::Memory(_) => ExternKind::Memory,
            Signature::Table { .. } => ExternKind::Table,
            Signature::Global { .. } => ExternKind::Global,
        }
    }

    /// Whether this is the signature of a function.
    pub fn is_func(&self) -> (b: bool)
        ensures
            b == (self@ is Func),
    {
        match self {
            Signature::Func(_) => true,
            _ => false,
        }
    }

    /// Structural comparison of two signatures: same kind and same content.
    pub fn same_as(&self, other: &Signature) -> (same: bool)
        ensures
            same == (self@ == other@),
    {
        match (self, other) {
            (Signature::Func(a), Signature::Func(b)) => a.same_as(b),
            (Signature::Memory(a), Signature::Memory(b)) => a.same_as(b),
            (
                Signature::Table { element: ea, limits: la },
                Signature::Table { element: eb, limits: lb },
            ) => *ea == *eb && la.same_as(lb),
            (
                Signature::Global { content: ca, mutable: ma },
                Signature::Global { content: cb, mutable: mb },
            ) => *ca == *cb && *ma == *mb,
            _ => false,
        }
    }
}

impl Clone for Signature {
    fn clone(&self) -> (copy: Signature)
        ensures
            copy@ == self@,
    {
        match self {
            Signature::Func(f) => Signature::Func(f.clone()),
            Signature::Memory(l) => Signature::Memory(*l),
            Signature::Table { element, limits } => Signature::Table {
                element: *element,
                limits: *limits,
            },
            Signature::Global { content, mutable } => Signature::Global {
                content: *content,
                mutable: *mutable,
            },
        }
    }
}

} // verus!
