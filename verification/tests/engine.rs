use interop_gen::config::{FunctionNameFlavor, Interop, NamespaceMappings, Visibility, WriteTypes};
use interop_gen::errors::GenError;
use interop_gen::front::Attributes;
use interop_gen::lang::{
    ArrayType, CallbackDef, Composite, CompositeField, FieldVisibility, FnPointer, Meta,
    OpaqueType, Parameter, Primitive, Signature, Type, TypePattern, Wrapped,
};
use interop_gen::naming::{function_name_to_csharp_name, to_pascal_case};
use interop_gen::text::{i64_to_dec_string, u64_to_dec_string, u64_to_hex16_string};
use interop_gen::writer::IndentWriter;

fn meta(module: &str) -> Meta {
    Meta { module: module.to_string(), docs: None }
}

fn prim(p: Primitive) -> Type {
    Type::Primitive(p)
}

fn composite(name: &str, module: &str) -> Type {
    Type::Composite(Composite {
        name: name.to_string(),
        fields: vec![
            CompositeField {
                name: "x".to_string(),
                visibility: FieldVisibility::Public,
                ty: prim(Primitive::F32),
            },
            CompositeField {
                name: "y".to_string(),
                visibility: FieldVisibility::Public,
                ty: prim(Primitive::F32),
            },
        ],
        meta: meta(module),
    })
}

fn cfg_for(namespace_id: &str, write_types: WriteTypes) -> Interop {
    let mappings = NamespaceMappings::new("My.Company")
        .add("geo", "Acme.Geo")
        .add("math", "Acme.Math");
    Interop::builder()
        .namespace_mappings(mappings)
        .namespace_id(namespace_id.to_string())
        .write_types(write_types)
        .build()
}

#[test]
fn access_modifiers() {
    assert_eq!(Visibility::AsDeclared.to_access_modifier(), "public");
    assert_eq!(Visibility::ForcePublic.to_access_modifier(), "public");
    assert_eq!(Visibility::ForceInternal.to_access_modifier(), "internal");
}

#[test]
fn write_scope_globals() {
    assert!(!WriteTypes::Namespace.write_interoptopus_globals());
    assert!(WriteTypes::NamespaceAndInteroptopusGlobal.write_interoptopus_globals());
    assert!(WriteTypes::All.write_interoptopus_globals());
}

#[test]
fn should_emit_type_total_over_all_variants() {
    // Totality: the predicate answers for every variant of the closed sum,
    // under every write scope, without panicking.
    let sig = Signature { params: Vec::new(), rval: Box::new(prim(Primitive::Void)) };
    let cb = CallbackDef {
        name: "OnDone".to_string(),
        fnpointer: FnPointer {
            signature: Signature { params: Vec::new(), rval: Box::new(prim(Primitive::Void)) },
        },
        meta: meta("geo"),
    };
    let wrapped = Wrapped { the_type: Box::new(prim(Primitive::U8)), meta: meta("geo") };
    let variants: Vec<Type> = vec![
        prim(Primitive::U8),
        Type::Array(ArrayType { element: Box::new(prim(Primitive::U8)), len: 4 }),
        Type::Enum(interop_gen::lang::EnumType {
            name: "E".to_string(),
            variants: vec!["A".to_string()],
            meta: meta("geo"),
        }),
        Type::Opaque(OpaqueType { name: "O".to_string(), meta: meta("geo") }),
        composite("Point", "geo"),
        Type::FnPointer(FnPointer { signature: sig }),
        Type::ReadPointer(Box::new(prim(Primitive::U8))),
        Type::ReadWritePointer(Box::new(prim(Primitive::U8))),
        Type::Pattern(TypePattern::CStrPointer),
        Type::Pattern(TypePattern::APIVersion),
        Type::Pattern(TypePattern::Slice(Wrapped {
            the_type: Box::new(prim(Primitive::U8)),
            meta: meta("geo"),
        })),
        Type::Pattern(TypePattern::SliceMut(Wrapped {
            the_type: Box::new(prim(Primitive::U8)),
            meta: meta("geo"),
        })),
        Type::Pattern(TypePattern::OptionOf(wrapped)),
        Type::Pattern(TypePattern::ResultOf(interop_gen::lang::ResultPattern {
            t_ok: Box::new(prim(Primitive::U8)),
            t_err: Box::new(prim(Primitive::U8)),
            meta: meta("geo"),
        })),
        Type::Pattern(TypePattern::Bool),
        Type::Pattern(TypePattern::CChar),
        Type::Pattern(TypePattern::NamedCallback(cb)),
        Type::Pattern(TypePattern::AsyncCallback(CallbackDef {
            name: "OnDone2".to_string(),
            fnpointer: FnPointer {
                signature: Signature { params: Vec::new(), rval: Box::new(prim(Primitive::Void)) },
            },
            meta: meta("geo"),
        })),
        Type::Pattern(TypePattern::VecOf(Wrapped {
            the_type: Box::new(prim(Primitive::U8)),
            meta: meta("geo"),
        })),
        Type::Pattern(TypePattern::Utf8String),
    ];
    let all = cfg_for("geo", WriteTypes::All);
    let ns = cfg_for("geo", WriteTypes::Namespace);
    let globals = cfg_for("geo", WriteTypes::NamespaceAndInteroptopusGlobal);
    for t in &variants {
        assert!(all.should_emit_by_type(t));
        let _ = ns.should_emit_by_type(t);
        let _ = globals.should_emit_by_type(t);
    }
}

#[test]
fn emit_dispatch_by_variant() {
    let ns = cfg_for("geo", WriteTypes::Namespace);
    let globals = cfg_for("geo", WriteTypes::NamespaceAndInteroptopusGlobal);
    // Namespaced types follow their owning module.
    assert!(ns.should_emit_by_type(&composite("Point", "geo")));
    assert!(!ns.should_emit_by_type(&composite("Point", "math")));
    // Function pointers, C strings and the API version marker are
    // namespace-free.
    let sig = Signature { params: Vec::new(), rval: Box::new(prim(Primitive::Void)) };
    assert!(ns.should_emit_by_type(&Type::FnPointer(FnPointer { signature: sig })));
    assert!(ns.should_emit_by_type(&Type::Pattern(TypePattern::CStrPointer)));
    assert!(ns.should_emit_by_type(&Type::Pattern(TypePattern::APIVersion)));
    // Globals and primitives need the globals-including scope.
    assert!(!ns.should_emit_by_type(&Type::Pattern(TypePattern::Bool)));
    assert!(globals.should_emit_by_type(&Type::Pattern(TypePattern::Bool)));
    assert!(!ns.should_emit_by_type(&prim(Primitive::U8)));
    assert!(globals.should_emit_by_type(&prim(Primitive::U8)));
    // Arrays, pointers, C chars and UTF-8 strings are never standalone.
    assert!(!globals.should_emit_by_type(&Type::Array(ArrayType {
        element: Box::new(prim(Primitive::U8)),
        len: 4,
    })));
    assert!(!globals.should_emit_by_type(&Type::ReadPointer(Box::new(prim(Primitive::U8)))));
    assert!(!globals.should_emit_by_type(&Type::Pattern(TypePattern::CChar)));
    assert!(!globals.should_emit_by_type(&Type::Pattern(TypePattern::Utf8String)));
}

#[test]
fn marshaller_boundary_invariant() {
    let cfg = cfg_for("geo", WriteTypes::Namespace);
    assert!(cfg.should_emit_marshaller(&composite("Point", "geo")));
    assert!(cfg.should_emit_marshaller(&Type::Array(ArrayType {
        element: Box::new(prim(Primitive::U8)),
        len: 4,
    })));
    assert!(!cfg.should_emit_marshaller(&prim(Primitive::U8)));
    assert!(!cfg.should_emit_marshaller(&Type::ReadPointer(Box::new(prim(Primitive::U8)))));
    assert!(!cfg.should_emit_marshaller(&Type::Pattern(TypePattern::Bool)));
}

#[test]
fn custom_marshalling_monotonicity() {
    let cfg = cfg_for("geo", WriteTypes::Namespace);
    // A composite parameter makes a signature carry custom-marshalled types,
    // but a plain function pointer over it is not itself a custom-marshalled
    // delegate: the delegate rule only recurses into nested delegates.
    let inner = Signature {
        params: vec![Parameter { name: "p".to_string(), ty: composite("Point", "geo") }],
        rval: Box::new(prim(Primitive::Void)),
    };
    let inner_ptr = Type::FnPointer(FnPointer { signature: inner });
    assert!(!cfg.is_custom_marshalled(&Type::FnPointer(FnPointer {
        signature: Signature {
            params: vec![Parameter { name: "q".to_string(), ty: prim(Primitive::U8) }],
            rval: Box::new(prim(Primitive::Void)),
        },
    })));
    // An outer signature taking that delegate is classified custom.
    let outer = Signature {
        params: vec![Parameter { name: "cb".to_string(), ty: inner_ptr }],
        rval: Box::new(prim(Primitive::Void)),
    };
    assert!(cfg.has_custom_marshalled_delegate(&outer));
    assert!(cfg.is_custom_marshalled(&Type::FnPointer(FnPointer { signature: outer })));
    // Slices are always custom marshalled.
    assert!(cfg.is_custom_marshalled(&Type::Pattern(TypePattern::Slice(Wrapped {
        the_type: Box::new(prim(Primitive::U8)),
        meta: meta("geo"),
    }))));
}

#[test]
fn native_callback_typespecifier() {
    let cfg = cfg_for("geo", WriteTypes::Namespace);
    assert_eq!(cfg.to_native_callback_typespecifier(&composite("Point", "geo")), "Point.Unmanaged");
    assert_eq!(
        cfg.to_native_callback_typespecifier(&Type::Pattern(TypePattern::Slice(Wrapped {
            the_type: Box::new(prim(Primitive::U8)),
            meta: meta("geo"),
        }))),
        "Slice<byte>.Unmanaged"
    );
    assert_eq!(cfg.to_native_callback_typespecifier(&prim(Primitive::U32)), "uint");
    // Enums get an unmanaged variant in callback contexts even though they
    // never need a marshaller outside them.
    let e = Type::Enum(interop_gen::lang::EnumType {
        name: "Mode".to_string(),
        variants: vec!["A".to_string()],
        meta: meta("geo"),
    });
    assert_eq!(cfg.to_native_callback_typespecifier(&e), "Mode.Unmanaged");
    assert!(!cfg.should_emit_marshaller(&e));
    assert_eq!(
        cfg.to_native_callback_typespecifier(&Type::Pattern(TypePattern::Utf8String)),
        "Utf8String.Unmanaged"
    );
}

#[test]
fn pascal_case_conversion() {
    assert_eq!(to_pascal_case("pattern_ffi_name"), "PatternFfiName");
    assert_eq!(to_pascal_case("my_game_new"), "MyGameNew");
    assert_eq!(to_pascal_case(""), "");
    assert_eq!(to_pascal_case("already"), "Already");
    assert_eq!(to_pascal_case("a__b"), "AB");
}

#[test]
fn function_name_flavors() {
    assert_eq!(
        function_name_to_csharp_name("my_game_new", FunctionNameFlavor::RawFFIName),
        "my_game_new"
    );
    assert_eq!(
        function_name_to_csharp_name("my_game_new", FunctionNameFlavor::CSharpMethodWithClass),
        "MyGameNew"
    );
    assert_eq!(
        function_name_to_csharp_name(
            "my_game_new",
            FunctionNameFlavor::CSharpMethodWithoutClass("MYGAME"),
        ),
        "New"
    );
    // A prefix that does not match leaves the converted name whole.
    assert_eq!(
        function_name_to_csharp_name(
            "my_game_new",
            FunctionNameFlavor::CSharpMethodWithoutClass("Other"),
        ),
        "MyGameNew"
    );
    // Two distinct raw names stay distinct under one flavor.
    assert_ne!(
        function_name_to_csharp_name("my_game_new", FunctionNameFlavor::CSharpMethodWithClass),
        function_name_to_csharp_name("my_game_free", FunctionNameFlavor::CSharpMethodWithClass),
    );
}

#[test]
fn number_rendering() {
    assert_eq!(u64_to_dec_string(0), "0");
    assert_eq!(u64_to_dec_string(12345), "12345");
    assert_eq!(u64_to_dec_string(u64::MAX), "18446744073709551615");
    assert_eq!(i64_to_dec_string(-42), "-42");
    assert_eq!(i64_to_dec_string(7), "7");
    assert_eq!(i64_to_dec_string(i64::MIN), "-9223372036854775808");
    assert_eq!(u64_to_hex16_string(0x1234), "0000000000001234");
    assert_eq!(u64_to_hex16_string(0xdeadbeef01020304), "deadbeef01020304");
}

#[test]
fn namespace_mapping_lookup() {
    let cfg = cfg_for("geo", WriteTypes::Namespace);
    assert_eq!(cfg.namespace_for_id(&"geo".to_string()).unwrap(), "Acme.Geo");
    assert_eq!(cfg.namespace_for_id(&"".to_string()).unwrap(), "My.Company");
    match cfg.namespace_for_id(&"nope".to_string()) {
        Err(GenError::MissingNamespaceMapping(id)) => assert_eq!(id, "nope"),
        _ => panic!("expected a missing-mapping failure"),
    }
}

#[test]
fn builder_defaults_and_setters() {
    let cfg = Interop::builder()
        .class("Bindings".to_string())
        .dll_name("game".to_string())
        .debug(true)
        .build();
    assert_eq!(cfg.class, "Bindings");
    assert_eq!(cfg.dll_name, "game");
    assert!(cfg.debug);
    assert!(cfg.doc_hints);
    assert_eq!(cfg.file_header_comment, "// <auto-generated>");
    assert!(cfg.class_constants.is_none());
    let d = Interop::default();
    assert_eq!(d.class, "Interop");
    assert_eq!(d.dll_name, "library");
}

#[test]
fn field_visibility_overrides() {
    let attrs = Attributes {
        opaque: false,
        transparent: false,
        packed: false,
        repr_u8: false,
        repr_u16: false,
        repr_u32: false,
        repr_u64: false,
        align: None,
        patterns: Vec::new(),
        skip: Vec::new(),
        visibility: vec![
            ("x".to_string(), "private".to_string()),
            ("_all".to_string(), "public".to_string()),
        ],
        name: None,
        namespace: None,
        debug: false,
    };
    // The `_all` override wins over the per-name one.
    assert!(matches!(
        attrs.visibility_for_field(false, &"x".to_string()),
        Ok(FieldVisibility::Public)
    ));
    let declared = Attributes {
        opaque: false,
        transparent: false,
        packed: false,
        repr_u8: false,
        repr_u16: false,
        repr_u32: false,
        repr_u64: false,
        align: None,
        patterns: Vec::new(),
        skip: Vec::new(),
        visibility: Vec::new(),
        name: None,
        namespace: None,
        debug: false,
    };
    assert!(matches!(
        declared.visibility_for_field(true, &"x".to_string()),
        Ok(FieldVisibility::Public)
    ));
    assert!(matches!(
        declared.visibility_for_field(false, &"x".to_string()),
        Ok(FieldVisibility::Private)
    ));
    let bad = Attributes {
        opaque: false,
        transparent: false,
        packed: false,
        repr_u8: false,
        repr_u16: false,
        repr_u32: false,
        repr_u64: false,
        align: None,
        patterns: Vec::new(),
        skip: Vec::new(),
        visibility: vec![("x".to_string(), "friend".to_string())],
        name: None,
        namespace: None,
        debug: false,
    };
    match bad.visibility_for_field(true, &"x".to_string()) {
        Err(GenError::InvalidVisibilityValue(v)) => assert_eq!(v, "friend"),
        _ => panic!("expected an invalid-visibility failure"),
    }
}

#[test]
fn error_messages() {
    assert_eq!(
        GenError::MissingNamespaceMapping("geo".to_string()).message(),
        "missing namespace mapping: geo"
    );
    assert_eq!(
        GenError::InvalidVisibilityValue("friend".to_string()).message(),
        "visibility must be `public` or `private`, got: friend"
    );
    assert_eq!(
        GenError::UnsupportedTypePattern("Wire".to_string()).message(),
        "unsupported type pattern: Wire"
    );
}

#[test]
fn debug_markers_and_inline_hint() {
    let with_markers = Interop::builder().debug(true).build();
    let mut w = IndentWriter::new();
    with_markers.debug(&mut w, "after header");
    assert_eq!(w.lines.len(), 1);
    assert_eq!(w.lines[0].text, "// Debug - after header ");
    let quiet = Interop::builder().build();
    let mut w2 = IndentWriter::new();
    quiet.debug(&mut w2, "after header");
    assert!(w2.lines.is_empty());
    let mut w3 = IndentWriter::new();
    quiet.inline_hint(&mut w3, 2);
    assert_eq!(w3.lines.len(), 1);
    assert_eq!(w3.lines[0].indent, 2);
    assert_eq!(
        w3.lines[0].text,
        "[MethodImpl(MethodImplOptions.AggressiveOptimization)]"
    );
    assert_eq!(w3.indent, 0);
}

#[test]
fn first_mapping_entry_wins() {
    let mappings = NamespaceMappings::new("My.Company")
        .add("geo", "Acme.Geo")
        .add("geo", "Acme.Later");
    assert_eq!(mappings.get(&"geo".to_string()).unwrap(), "Acme.Geo");
    assert!(mappings.get(&"nope".to_string()).is_none());
}
