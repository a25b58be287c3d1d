use interop_gen::config::{Interop, NamespaceMappings, WriteTypes};
use interop_gen::errors::GenError;
use interop_gen::lang::{
    CallbackDef, Composite, CompositeField, Constant, ConstantValue, FieldVisibility, FnPointer,
    Function, Inventory, Meta, Parameter, Primitive, Signature, Type, TypePattern,
};
use interop_gen::writer::IndentWriter;

fn meta(module: &str) -> Meta {
    Meta { module: module.to_string(), docs: None }
}

fn point(module: &str) -> Type {
    Type::Composite(Composite {
        name: "Point".to_string(),
        fields: vec![
            CompositeField {
                name: "x".to_string(),
                visibility: FieldVisibility::Public,
                ty: Type::Primitive(Primitive::F32),
            },
            CompositeField {
                name: "y".to_string(),
                visibility: FieldVisibility::Public,
                ty: Type::Primitive(Primitive::F32),
            },
        ],
        meta: meta(module),
    })
}

fn geo_inventory() -> Inventory {
    Inventory {
        functions: vec![Function {
            name: "geo_distance".to_string(),
            signature: Signature {
                params: vec![Parameter { name: "a".to_string(), ty: point("geo") }],
                rval: Box::new(Type::Primitive(Primitive::F32)),
            },
            meta: meta("geo"),
        }],
        constants: vec![Constant {
            name: "MAX_POINTS".to_string(),
            value: ConstantValue::Unsigned(100),
            meta: meta("geo"),
        }],
        types: vec![point("geo")],
        hash: 0x1234,
    }
}

fn cfg(namespace_id: &str, write_types: WriteTypes, inventory: Inventory) -> Interop {
    let mappings = NamespaceMappings::new("My.Company")
        .add("geo", "Acme.Geo")
        .add("math", "Acme.Math");
    Interop::builder()
        .namespace_mappings(mappings)
        .namespace_id(namespace_id.to_string())
        .write_types(write_types)
        .dll_name("geolib".to_string())
        .inventory(inventory)
        .build()
}

fn generate(c: &Interop) -> Result<Vec<interop_gen::writer::Line>, GenError> {
    let mut w = IndentWriter::new();
    c.write_to(&mut w)?;
    Ok(w.lines)
}

#[test]
fn output_is_deterministic() {
    let c = cfg("geo", WriteTypes::Namespace, geo_inventory());
    let first = generate(&c).unwrap();
    let second = generate(&c).unwrap();
    assert_eq!(first, second);
    assert!(!first.is_empty());
}

#[test]
fn point_emitted_in_its_namespace_only() {
    // One type declaration for Point and its marshaller when generating for
    // "geo"; nothing for Point when generating for "math".
    let c = cfg("geo", WriteTypes::Namespace, geo_inventory());
    let lines = generate(&c).unwrap();
    let decls = lines
        .iter()
        .filter(|l| l.text == "public partial struct Point")
        .count();
    assert_eq!(decls, 1);
    let marshallers = lines
        .iter()
        .filter(|l| l.text == "internal struct PointMarshaller")
        .count();
    assert_eq!(marshallers, 1);

    let other = cfg("math", WriteTypes::Namespace, geo_inventory());
    let other_lines = generate(&other).unwrap();
    assert_eq!(
        other_lines.iter().filter(|l| l.text.contains("Point")).count(),
        0
    );
}

#[test]
fn superset_of_namespace_scope() {
    // Everything-scope output, filtered to the lines a namespace owns,
    // matches the namespace-only output for those declarations.
    let all = cfg("geo", WriteTypes::All, geo_inventory());
    let ns = cfg("geo", WriteTypes::Namespace, geo_inventory());
    let all_lines = generate(&all).unwrap();
    let ns_lines = generate(&ns).unwrap();
    let all_point: Vec<_> = all_lines
        .iter()
        .filter(|l| l.text.contains("Point"))
        .collect();
    let ns_point: Vec<_> = ns_lines
        .iter()
        .filter(|l| l.text.contains("Point"))
        .collect();
    assert_eq!(all_point, ns_point);
    assert!(!ns_point.is_empty());
}

#[test]
fn unmapped_module_fails_without_output() {
    let mappings = NamespaceMappings::new("My.Company");
    let c = Interop::builder()
        .namespace_mappings(mappings)
        .namespace_id("geo".to_string())
        .inventory(geo_inventory())
        .build();
    let mut w = IndentWriter::new();
    match c.write_to(&mut w) {
        Err(GenError::MissingNamespaceMapping(id)) => assert_eq!(id, "geo"),
        _ => panic!("expected a missing-mapping failure"),
    }
    assert!(w.lines.is_empty());
}

#[test]
fn async_callback_triggers_overload_and_trampoline_entry() {
    let on_done = CallbackDef {
        name: "OnDone".to_string(),
        fnpointer: FnPointer {
            signature: Signature {
                params: Vec::new(),
                rval: Box::new(Type::Primitive(Primitive::Void)),
            },
        },
        meta: meta("geo"),
    };
    let f = Function {
        name: "geo_solve_async".to_string(),
        signature: Signature {
            params: vec![Parameter {
                name: "callback".to_string(),
                ty: Type::Pattern(TypePattern::AsyncCallback(on_done)),
            }],
            rval: Box::new(Type::Primitive(Primitive::Void)),
        },
        meta: meta("geo"),
    };
    let inventory =
        Inventory { functions: vec![f], constants: Vec::new(), types: Vec::new(), hash: 1 };
    let c = cfg("geo", WriteTypes::Namespace, inventory);
    assert!(c.has_overloadable(&c.inventory.functions[0].signature));
    let lines = generate(&c).unwrap();
    assert!(lines
        .iter()
        .any(|l| l.text == "RegisterAsyncTrampoline(\"OnDone\");"));
}

#[test]
fn header_and_scaffolding() {
    let c = cfg("geo", WriteTypes::Namespace, geo_inventory());
    let lines = generate(&c).unwrap();
    assert_eq!(lines[0].text, "// <auto-generated>");
    assert_eq!(lines[1].text, "// Library:      geolib");
    assert_eq!(lines[2].text, "// Hash:         0x0000000000001234");
    assert_eq!(lines[3].text, "// Namespace:    Acme.Geo");
    assert!(lines.iter().any(|l| l.text == "using System;"));
    // Other mapped namespaces are imported; the one being written is not.
    assert!(lines.iter().any(|l| l.text == "using Acme.Math;"));
    assert!(!lines.iter().any(|l| l.text == "using Acme.Geo;"));
    assert!(lines.iter().any(|l| l.text == "namespace Acme.Geo"));
    assert!(lines
        .iter()
        .any(|l| l.text == "public static partial class Interop" && l.indent == 1));
    assert!(lines
        .iter()
        .any(|l| l.text == "public const string NativeLib = \"geolib\";" && l.indent == 2));
    assert!(lines
        .iter()
        .any(|l| l.text == "public const ulong MAX_POINTS = 100;" && l.indent == 2));
    assert!(lines
        .iter()
        .any(|l| l.text == "[LibraryImport(NativeLib, EntryPoint = \"geo_distance\")]"));
    assert!(lines
        .iter()
        .any(|l| l.text == "public static partial float GeoDistance(Point a);"));
    // The function takes a composite, so the shared builtins are referenced.
    assert!(lines
        .iter()
        .any(|l| l.text == "internal static partial class InteropSupport"));
    // The document closes what it opens.
    assert_eq!(lines.last().unwrap().text, "}");
    assert_eq!(lines.last().unwrap().indent, 0);
}

#[test]
fn split_constants_class() {
    let mut c = cfg("geo", WriteTypes::Namespace, geo_inventory());
    c.class_constants = Some("Constants".to_string());
    let lines = generate(&c).unwrap();
    assert!(lines
        .iter()
        .any(|l| l.text == "public static partial class Constants"));
    assert!(lines
        .iter()
        .any(|l| l.text == "public static partial class Interop"));
    // The trampoline table stays with the shared scaffold only.
    assert!(!lines
        .iter()
        .any(|l| l.text == "private static void InitAsyncTrampolines()"));
}

#[test]
fn empty_scaffold_is_skipped() {
    let inventory =
        Inventory { functions: Vec::new(), constants: Vec::new(), types: Vec::new(), hash: 0 };
    let c = cfg("geo", WriteTypes::Namespace, inventory);
    let lines = generate(&c).unwrap();
    assert!(!lines
        .iter()
        .any(|l| l.text.starts_with("public static partial class")));
}
