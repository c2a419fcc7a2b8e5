use wasmhost::linker::{BindingSource, DuplicatePolicy, LinkError, LinkerRegistry, RegisterError};
use wasmhost::module::{CompiledModule, EntryError, ExportDescriptor, ImportDescriptor};
use wasmhost::signature::{ExternKind, FuncSig, Limits, Signature, ValKind};

fn func(params: Vec<ValKind>, results: Vec<ValKind>) -> Signature {
    Signature::Func(FuncSig::new(params, results))
}

fn import(module: &str, name: &str, signature: Signature) -> ImportDescriptor {
    ImportDescriptor::new(module, name, signature)
}

#[test]
fn empty_registry_links_module_without_imports() {
    let registry: LinkerRegistry<u32> = LinkerRegistry::new(DuplicatePolicy::Reject);
    let bound = registry.link(&Vec::new()).unwrap();
    assert!(bound.is_empty());
}

#[test]
fn link_binds_imports_in_declaration_order() {
    let mut registry: LinkerRegistry<&str> = LinkerRegistry::new(DuplicatePolicy::Reject);
    registry.register("host", "a", func(vec![ValKind::I32], vec![]), "first").unwrap();
    registry.register("host", "b", func(vec![], vec![ValKind::I64]), "second").unwrap();
    registry.register("env", "a", func(vec![], vec![]), "third").unwrap();
    let imports = vec![
        import("env", "a", func(vec![], vec![])),
        import("host", "b", func(vec![], vec![ValKind::I64])),
        import("host", "a", func(vec![ValKind::I32], vec![])),
        import("host", "b", func(vec![], vec![ValKind::I64])),
    ];
    let bound = registry.link(&imports).unwrap();
    let names: Vec<&str> = bound.into_iter().map(|c| *c).collect();
    assert_eq!(names, vec!["third", "second", "first", "second"]);
}

#[test]
fn missing_import_is_unresolved_and_named() {
    let mut registry: LinkerRegistry<u8> = LinkerRegistry::new(DuplicatePolicy::Reject);
    registry.register("host", "hello", func(vec![ValKind::I32], vec![]), 1).unwrap();
    let imports = vec![
        import("host", "hello", func(vec![ValKind::I32], vec![])),
        import("host", "goodbye", func(vec![], vec![])),
    ];
    let error = registry.link(&imports).unwrap_err();
    assert!(error.is_unresolved());
    assert_eq!(error.module(), "host");
    assert_eq!(error.name(), "goodbye");
    assert!(matches!(error, LinkError::UnresolvedImport { .. }));
}

#[test]
fn same_name_in_other_module_does_not_resolve() {
    let mut registry: LinkerRegistry<u8> = LinkerRegistry::new(DuplicatePolicy::Reject);
    registry.register("host", "hello", func(vec![], vec![]), 1).unwrap();
    let error = registry.link(&vec![import("env", "hello", func(vec![], vec![]))]).unwrap_err();
    assert!(error.is_unresolved());
    assert_eq!((error.module(), error.name()), ("env", "hello"));
}

#[test]
fn mismatched_signature_is_reported_and_named() {
    let mut registry: LinkerRegistry<u8> = LinkerRegistry::new(DuplicatePolicy::Reject);
    registry.register("host", "hello", func(vec![ValKind::I32], vec![]), 1).unwrap();
    for wrong in [
        func(vec![ValKind::I64], vec![]),
        func(vec![], vec![]),
        func(vec![ValKind::I32, ValKind::I32], vec![]),
        func(vec![ValKind::I32], vec![ValKind::I32]),
        Signature::Memory(Limits { minimum: 1, maximum: None }),
        Signature::Global { content: ValKind::I32, mutable: false },
    ] {
        let error = registry.link(&vec![import("host", "hello", wrong)]).unwrap_err();
        assert!(!error.is_unresolved());
        assert!(matches!(error, LinkError::SignatureMismatch { .. }));
        assert_eq!((error.module(), error.name()), ("host", "hello"));
    }
}

#[test]
fn first_failing_import_in_declaration_order_is_reported() {
    let mut registry: LinkerRegistry<u8> = LinkerRegistry::new(DuplicatePolicy::Reject);
    registry.register("host", "ok", func(vec![], vec![]), 1).unwrap();
    registry.register("host", "typed", func(vec![ValKind::I32], vec![]), 2).unwrap();
    let imports = vec![
        import("host", "ok", func(vec![], vec![])),
        import("host", "typed", func(vec![ValKind::F64], vec![])),
        import("host", "absent", func(vec![], vec![])),
    ];
    let error = registry.link(&imports).unwrap_err();
    assert!(matches!(error, LinkError::SignatureMismatch { .. }));
    assert_eq!(error.name(), "typed");
    let imports = vec![
        import("host", "absent", func(vec![], vec![])),
        import("host", "typed", func(vec![ValKind::F64], vec![])),
    ];
    let error = registry.link(&imports).unwrap_err();
    assert!(matches!(error, LinkError::UnresolvedImport { .. }));
    assert_eq!(error.name(), "absent");
}

#[test]
fn linking_leaves_the_registry_as_it_was() {
    let mut registry: LinkerRegistry<u8> = LinkerRegistry::new(DuplicatePolicy::Reject);
    registry.register("host", "hello", func(vec![ValKind::I32], vec![]), 9).unwrap();
    let _ = registry.link(&vec![import("host", "nothing", func(vec![], vec![]))]);
    let _ = registry.link(&vec![import("host", "hello", func(vec![ValKind::I32], vec![]))]);
    assert!(registry.contains("host", "hello"));
    assert!(!registry.contains("host", "nothing"));
    assert_eq!(registry.get("host", "hello"), Some(&9));
    let again = registry.link(&vec![import("host", "hello", func(vec![ValKind::I32], vec![]))]);
    assert_eq!(again.unwrap(), vec![&9]);
}

#[test]
fn reject_policy_refuses_a_second_registration() {
    let mut registry: LinkerRegistry<u8> = LinkerRegistry::new(DuplicatePolicy::Reject);
    assert_eq!(registry.policy(), DuplicatePolicy::Reject);
    assert_eq!(registry.register("host", "f", func(vec![], vec![]), 1), Ok(()));
    assert_eq!(
        registry.register("host", "f", func(vec![ValKind::I32], vec![]), 2),
        Err(RegisterError::DuplicateImport)
    );
    assert_eq!(registry.get("host", "f"), Some(&1));
    assert!(registry.signature_of("host", "f").unwrap().same_as(&func(vec![], vec![])));
}

#[test]
fn overwrite_policy_replaces_the_binding() {
    let mut registry: LinkerRegistry<u8> = LinkerRegistry::new(DuplicatePolicy::Overwrite);
    assert_eq!(registry.register("host", "f", func(vec![], vec![]), 1), Ok(()));
    assert_eq!(registry.register("host", "g", func(vec![], vec![]), 5), Ok(()));
    assert_eq!(registry.register("host", "f", func(vec![ValKind::I32], vec![]), 2), Ok(()));
    assert_eq!(registry.get("host", "f"), Some(&2));
    assert_eq!(registry.get("host", "g"), Some(&5));
    assert!(registry.signature_of("host", "f").unwrap().same_as(&func(vec![ValKind::I32], vec![])));
    let error = registry.link(&vec![import("host", "f", func(vec![], vec![]))]).unwrap_err();
    assert!(matches!(error, LinkError::SignatureMismatch { .. }));
}

#[test]
fn lookups_of_unknown_names_find_nothing() {
    let registry: LinkerRegistry<u8> = LinkerRegistry::new(DuplicatePolicy::Overwrite);
    assert!(!registry.contains("", ""));
    assert_eq!(registry.get("host", "f"), None);
    assert!(registry.signature_of("host", "f").is_none());
}

#[test]
fn exports_of_an_instance_can_be_imported_by_name() {
    let mut registry: LinkerRegistry<u8> = LinkerRegistry::new(DuplicatePolicy::Reject);
    let export = ExportDescriptor::new("__guest_call", func(vec![ValKind::I32], vec![ValKind::I32]));
    assert_eq!(registry.register_export("", &export, 4), Ok(()));
    assert_eq!(registry.register_export("", &export, 5), Err(RegisterError::DuplicateImport));
    assert_eq!(registry.get("", "__guest_call"), Some(&4));
    let imports = vec![import("", "__guest_call", func(vec![ValKind::I32], vec![ValKind::I32]))];
    assert_eq!(registry.link(&imports).unwrap(), vec![&4]);
    assert_ne!(BindingSource::Host, BindingSource::ReExport);
}

#[test]
fn exports_of_a_whole_instance_are_registered_in_order() {
    let exports = |first: u8| {
        vec![
            (ExportDescriptor::new("a", func(vec![], vec![])), first),
            (ExportDescriptor::new("taken", func(vec![ValKind::I32], vec![])), first + 1),
            (ExportDescriptor::new("b", func(vec![], vec![ValKind::I32])), first + 2),
        ]
    };
    let mut registry: LinkerRegistry<u8> = LinkerRegistry::new(DuplicatePolicy::Reject);
    registry.register("guest", "taken", func(vec![], vec![]), 0).unwrap();
    assert_eq!(registry.register_module("other", exports(10)), Ok(()));
    assert_eq!(registry.get("other", "a"), Some(&10));
    assert_eq!(registry.get("other", "taken"), Some(&11));
    assert_eq!(registry.get("other", "b"), Some(&12));
    assert_eq!(registry.register_module("guest", exports(20)), Err(RegisterError::DuplicateImport));
    assert_eq!(registry.get("guest", "a"), Some(&20));
    assert_eq!(registry.get("guest", "taken"), Some(&0));
    assert_eq!(registry.get("guest", "b"), None);
    assert_eq!(registry.register_module("empty", Vec::new()), Ok(()));

    let mut registry: LinkerRegistry<u8> = LinkerRegistry::new(DuplicatePolicy::Overwrite);
    registry.register("guest", "taken", func(vec![], vec![]), 0).unwrap();
    assert_eq!(registry.register_module("guest", exports(20)), Ok(()));
    assert_eq!(registry.get("guest", "taken"), Some(&21));
    assert_eq!(registry.get("guest", "b"), Some(&22));
    let imports = vec![import("guest", "taken", func(vec![ValKind::I32], vec![]))];
    assert_eq!(registry.link(&imports).unwrap(), vec![&21]);
}

#[test]
fn entry_point_is_checked_by_name_and_type() {
    let module = CompiledModule::new(
        vec![],
        vec![
            ExportDescriptor::new("memory", Signature::Memory(Limits { minimum: 1, maximum: None })),
            ExportDescriptor::new("foo", func(vec![], vec![])),
            ExportDescriptor::new("double", func(vec![ValKind::I32], vec![ValKind::I32])),
        ],
    );
    assert_eq!(module.find_export("foo"), Some(1));
    assert_eq!(module.find_export("bar"), None);
    assert_eq!(module.check_entry("foo", &FuncSig::new(vec![], vec![])), Ok(1));
    assert_eq!(
        module.check_entry("double", &FuncSig::new(vec![ValKind::I32], vec![ValKind::I32])),
        Ok(2)
    );
    assert_eq!(
        module.check_entry("double", &FuncSig::new(vec![], vec![])),
        Err(EntryError::TypeMismatch)
    );
    assert_eq!(
        module.check_entry("memory", &FuncSig::new(vec![], vec![])),
        Err(EntryError::TypeMismatch)
    );
    assert_eq!(
        module.check_entry("bar", &FuncSig::new(vec![], vec![])),
        Err(EntryError::ExportNotFound)
    );
    assert_eq!(module.exports().len(), 3);
    assert_eq!(module.imports().len(), 0);
}

#[test]
fn signatures_compare_structurally() {
    let a = func(vec![ValKind::I32, ValKind::F32], vec![ValKind::I64]);
    let b = func(vec![ValKind::I32, ValKind::F32], vec![ValKind::I64]);
    let c = func(vec![ValKind::F32, ValKind::I32], vec![ValKind::I64]);
    assert!(a.same_as(&b));
    assert!(a.same_as(&a.clone()));
    assert!(!a.same_as(&c));
    assert!(a.is_func());
    assert_eq!(a.kind(), ExternKind::Func);
    let table = Signature::Table {
        element: ValKind::FuncRef,
        limits: Limits { minimum: 0, maximum: Some(10) },
    };
    let other = Signature::Table {
        element: ValKind::FuncRef,
        limits: Limits { minimum: 0, maximum: None },
    };
    assert!(table.same_as(&table.clone()));
    assert!(!table.same_as(&other));
    assert_eq!(table.kind(), ExternKind::Table);
    assert!(!table.is_func());
    let global = Signature::Global { content: ValKind::I32, mutable: true };
    assert!(!global.same_as(&Signature::Global { content: ValKind::I32, mutable: false }));
    assert_eq!(FuncSig::new(vec![ValKind::I32, ValKind::I32], vec![]).arity(), 2);
}
