use wasm_linkage::namespace::Namespace;
use wasm_linkage::resolver::{Export, Instance, Resolver};

fn instance(exports: &[(&str, Export)]) -> Instance {
    let mut instance = Instance::new();
    for (field, export) in exports {
        instance.define(field.to_string(), *export);
    }
    instance
}

fn resolve_through<R: Resolver>(resolver: &mut R, name: &str, field: &str) -> Option<Export> {
    resolver.resolve(name, field)
}

#[test]
fn new_namespace_has_no_instances() {
    let mut namespace = Namespace::new();
    assert!(namespace.get_instance("a").is_none());
    assert!(namespace.get_instance("").is_none());
    assert_eq!(namespace.resolve("a", "f"), None);
}

#[test]
fn instance_lookup_gives_what_was_defined() {
    let mut inst = instance(&[("f", Export::Function { index: 1 }), ("m", Export::Memory { index: 0 })]);
    assert_eq!(inst.lookup("f"), Some(Export::Function { index: 1 }));
    assert_eq!(inst.lookup("m"), Some(Export::Memory { index: 0 }));
    assert_eq!(inst.lookup("g"), None);
    inst.define("f".to_string(), Export::Global { index: 4 });
    assert_eq!(inst.lookup("f"), Some(Export::Global { index: 4 }));
}

#[test]
fn later_registration_under_one_name_wins() {
    let mut namespace = Namespace::new();
    namespace.name_instance("a".to_string(), instance(&[("first", Export::Function { index: 0 })]));
    namespace.name_instance("a".to_string(), instance(&[("second", Export::Table { index: 2 })]));
    let found = namespace.get_instance("a").expect("registered");
    assert_eq!(found.lookup("second"), Some(Export::Table { index: 2 }));
    assert_eq!(found.lookup("first"), None);
    assert_eq!(namespace.resolve("a", "second"), Some(Export::Table { index: 2 }));
    assert_eq!(namespace.resolve("a", "first"), None);
}

#[test]
fn unregistered_module_resolves_to_nothing() {
    let mut namespace = Namespace::new();
    namespace.name_instance("b".to_string(), instance(&[("f", Export::Function { index: 0 })]));
    assert_eq!(namespace.resolve("a", "f"), None);
}

#[test]
fn missing_field_resolves_to_nothing() {
    let mut namespace = Namespace::new();
    namespace.name_instance("a".to_string(), instance(&[("g", Export::Function { index: 0 })]));
    assert_eq!(namespace.resolve("a", "f"), None);
    assert_eq!(namespace.resolve("a", "g"), Some(Export::Function { index: 0 }));
}

#[test]
fn registration_leaves_other_names_alone() {
    let mut namespace = Namespace::new();
    namespace.name_instance("a".to_string(), instance(&[("f", Export::Function { index: 1 })]));
    namespace.name_instance("b".to_string(), instance(&[("f", Export::Function { index: 2 })]));
    assert_eq!(namespace.resolve("a", "f"), Some(Export::Function { index: 1 }));
    assert_eq!(namespace.resolve("b", "f"), Some(Export::Function { index: 2 }));
    assert!(namespace.get_instance("a").is_some());
    assert!(namespace.get_instance("c").is_none());
}

#[test]
fn instances_may_name_each_other() {
    let mut namespace = Namespace::new();
    namespace.name_instance("a".to_string(), instance(&[("to_b", Export::Function { index: 0 })]));
    namespace.name_instance("b".to_string(), instance(&[("to_a", Export::Function { index: 0 })]));
    assert_eq!(namespace.resolve("b", "to_a"), Some(Export::Function { index: 0 }));
    assert_eq!(namespace.resolve("a", "to_b"), Some(Export::Function { index: 0 }));
}

#[test]
fn namespace_serves_as_a_resolver() {
    let mut first = Namespace::new();
    first.name_instance("env".to_string(), instance(&[("mem", Export::Memory { index: 0 })]));
    let mut second = Namespace::new();
    second.name_instance("host".to_string(), instance(&[("print", Export::Function { index: 7 })]));
    let chained = resolve_through(&mut first, "host", "print").or_else(|| resolve_through(&mut second, "host", "print"));
    assert_eq!(chained, Some(Export::Function { index: 7 }));
    assert_eq!(resolve_through(&mut first, "env", "mem"), Some(Export::Memory { index: 0 }));
}
