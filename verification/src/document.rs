//! The emitted document, section by section: each writer method appends the
//! lines that one section of the output unit contributes, and a spec
//! function states those lines exactly. The full document of a
//! configuration is one deterministic function of it.

use crate::config::Interop;
use crate::errors::GenError;
use crate::generate::{spec_first_unmapped, spec_lookup_or_empty, spec_validation_ok};
use crate::lang::{CompositeField, Constant, Function, Parameter, Type, TypePattern};
use crate::emit::{
    spec_has_emittable_constants, spec_has_emittable_functions, spec_should_emit_by_meta,
    spec_should_emit_by_type,
};
use crate::marshal::{spec_has_custom_marshalled_types, spec_is_custom_marshalled,
    spec_needs_marshaller};
use crate::naming::spec_pascal;
use crate::naming::to_pascal_case;
use crate::render::{
    constant_type_name, constant_value_text, params_text, spec_constant_type_name,
    spec_constant_value_text, spec_params_text, spec_type_ref, type_ref,
};
use crate::text::{spec_hex_digits, u64_to_hex16_string};
use crate::writer::IndentWriter;
use vstd::prelude::*;
use vstd::string::StringExecFns;

verus! {

/// The file header: the configured comment line, then generated comment
/// lines naming the library, the inventory hash and the namespace.
pub open spec fn spec_header_lines(cfg: Interop) -> Seq<(nat, Seq<char>)> {
    seq![
        (0 as nat, cfg.file_header_comment@),
        (0 as nat, "// Library:      "@ + cfg.dll_name@),
        (0 as nat, "// Hash:         0x"@ + spec_hex_digits(cfg.inventory.hash as nat, 16)),
        (0 as nat, "// Namespace:    "@ + spec_lookup_or_empty(cfg, cfg.namespace_id@)),
    ]
}

/// One `using` line per mapped namespace other than the one being written.
pub open spec fn spec_using_mapping_lines(cfg: Interop, entries: Seq<(String, String)>) -> Seq<
    (nat, Seq<char>),
>
    decreases entries.len(),
{
    if entries.len() == 0 {
        Seq::<(nat, Seq<char>)>::empty()
    } else {
        spec_using_mapping_lines(cfg, entries.drop_last()) + (if entries.last().0@
            != cfg.namespace_id@ {
            seq![(0 as nat, "using "@ + entries.last().1@ + ";"@)]
        } else {
            Seq::<(nat, Seq<char>)>::empty()
        })
    }
}

/// The import declarations: the fixed system imports, then one `using` per
/// mapped namespace other than the current one.
pub open spec fn spec_import_lines(cfg: Interop) -> Seq<(nat, Seq<char>)> {
    seq![
        (0 as nat, "using System;"@),
        (0 as nat, "using System.Runtime.InteropServices;"@),
    ] + spec_using_mapping_lines(cfg, cfg.namespace_mappings.entries@)
}

/// The native-library linkage declaration.
pub open spec fn spec_native_lib_line(cfg: Interop) -> Seq<(nat, Seq<char>)> {
    seq![(2 as nat, "public const string NativeLib = \""@ + cfg.dll_name@ + "\";"@)]
}

/// The ABI guard: a check, invoked once at startup, that the loaded native
/// library's version descriptor matches the hash the bindings were
/// generated against.
pub open spec fn spec_abi_guard_lines(cfg: Interop) -> Seq<(nat, Seq<char>)> {
    seq![
        (2 as nat, "public static void AssertApiGuard()"@),
        (2 as nat, "{"@),
        (
            3 as nat,
            "var expected = 0x"@ + spec_hex_digits(cfg.inventory.hash as nat, 16) + "UL;"@,
        ),
        (3 as nat, "if (api_guard() != expected) throw new InvalidOperationException();"@),
        (2 as nat, "}"@),
    ]
}

/// The trampoline registration lines one parameter list contributes: one
/// entry per asynchronous callback parameter.
pub open spec fn spec_trampoline_param_lines(ps: Seq<Parameter>) -> Seq<(nat, Seq<char>)>
    decreases ps.len(),
{
    if ps.len() == 0 {
        Seq::<(nat, Seq<char>)>::empty()
    } else {
        spec_trampoline_param_lines(ps.drop_last()) + (match ps.last().ty {
            Type::Pattern(TypePattern::AsyncCallback(c)) => seq![
                (3 as nat, "RegisterAsyncTrampoline(\""@ + c.name@ + "\");"@),
            ],
            _ => Seq::<(nat, Seq<char>)>::empty(),
        })
    }
}

/// The trampoline registration lines of every function in the current
/// namespace.
pub open spec fn spec_trampoline_entries(cfg: Interop, fns: Seq<Function>) -> Seq<
    (nat, Seq<char>),
>
    decreases fns.len(),
{
    if fns.len() == 0 {
        Seq::<(nat, Seq<char>)>::empty()
    } else {
        spec_trampoline_entries(cfg, fns.drop_last()) + (if spec_should_emit_by_meta(
            cfg,
            fns.last().meta,
        ) {
            spec_trampoline_param_lines(fns.last().signature.params@)
        } else {
            Seq::<(nat, Seq<char>)>::empty()
        })
    }
}

/// The async trampoline initializer: a process-lifetime table, initialized
/// exactly once, with one registration per asynchronous callback that the
/// namespace's functions take.
pub open spec fn spec_trampoline_lines(cfg: Interop) -> Seq<(nat, Seq<char>)> {
    seq![
        (2 as nat, "private static void InitAsyncTrampolines()"@),
        (2 as nat, "{"@),
    ] + spec_trampoline_entries(cfg, cfg.inventory.functions@) + seq![(2 as nat, "}"@)]
}

/// One constant declaration.
pub open spec fn spec_constant_line(c: Constant) -> Seq<char> {
    "public const "@ + spec_constant_type_name(c.value) + " "@ + c.name@ + " = "@
        + spec_constant_value_text(c.value) + ";"@
}

/// The constant declarations of the current namespace.
pub open spec fn spec_constants_lines(cfg: Interop, cs: Seq<Constant>) -> Seq<(nat, Seq<char>)>
    decreases cs.len(),
{
    if cs.len() == 0 {
        Seq::<(nat, Seq<char>)>::empty()
    } else {
        spec_constants_lines(cfg, cs.drop_last()) + (if spec_should_emit_by_meta(
            cfg,
            cs.last().meta,
        ) {
            seq![(2 as nat, spec_constant_line(cs.last()))]
        } else {
            Seq::<(nat, Seq<char>)>::empty()
        })
    }
}

/// The two lines one function declaration contributes: its import attribute
/// and its partial-method declaration under the idiomatic method name.
pub open spec fn spec_function_lines(f: Function) -> Seq<(nat, Seq<char>)> {
    seq![
        (2 as nat, "[LibraryImport(NativeLib, EntryPoint = \""@ + f.name@ + "\")]"@),
        (
            2 as nat,
            "public static partial "@ + spec_type_ref(*f.signature.rval) + " "@ + spec_pascal(
                f.name@,
            ) + "("@ + spec_params_text(f.signature.params@) + ");"@,
        ),
    ]
}

/// The function declarations of the current namespace.
pub open spec fn spec_functions_lines(cfg: Interop, fns: Seq<Function>) -> Seq<(nat, Seq<char>)>
    decreases fns.len(),
{
    if fns.len() == 0 {
        Seq::<(nat, Seq<char>)>::empty()
    } else {
        spec_functions_lines(cfg, fns.drop_last()) + (if spec_should_emit_by_meta(
            cfg,
            fns.last().meta,
        ) {
            spec_function_lines(fns.last())
        } else {
            Seq::<(nat, Seq<char>)>::empty()
        })
    }
}

/// Whether the constants class and the functions class share one scaffold:
/// they do when no distinct constants-class name is configured, or the
/// configured name equals the functions-class name.
pub open spec fn spec_single_class_mode(cfg: Interop) -> bool {
    match cfg.class_constants {
        None => true,
        Some(cc) => cc@ == cfg.class@,
    }
}

/// The class scaffold opening lines.
pub open spec fn spec_class_open(name: Seq<char>) -> Seq<(nat, Seq<char>)> {
    seq![
        (1 as nat, "public static partial class "@ + name),
        (1 as nat, "{"@),
    ]
}

/// The class scaffold closing line.
pub open spec fn spec_class_close() -> Seq<(nat, Seq<char>)> {
    seq![(1 as nat, "}"@)]
}

/// The configured name of the constants class; the functions class name
/// when none is configured.
pub open spec fn spec_constants_class_name(cfg: Interop) -> Seq<char> {
    match cfg.class_constants {
        None => cfg.class@,
        Some(cc) => cc@,
    }
}

/// The class section of the output unit. With a shared scaffold, one class
/// holds the native-library string, the ABI guard, the trampoline table,
/// the constants and the functions, and is skipped entirely when it would
/// hold no emittable item. With split scaffolds, a constants class and a
/// functions class are emitted independently, each skipped when empty; the
/// trampoline table stays with the shared scaffold only.
pub open spec fn spec_class_section(cfg: Interop) -> Seq<(nat, Seq<char>)> {
    if spec_single_class_mode(cfg) {
        if spec_has_emittable_functions(cfg, cfg.inventory.functions@) || spec_has_emittable_constants(
            cfg,
            cfg.inventory.constants@,
        ) {
            spec_class_open(cfg.class@) + spec_native_lib_line(cfg) + spec_abi_guard_lines(cfg)
                + spec_trampoline_lines(cfg) + spec_constants_lines(cfg, cfg.inventory.constants@)
                + spec_functions_lines(cfg, cfg.inventory.functions@) + spec_class_close()
        } else {
            Seq::<(nat, Seq<char>)>::empty()
        }
    } else {
        (if spec_has_emittable_constants(cfg, cfg.inventory.constants@) {
            spec_class_open(spec_constants_class_name(cfg)) + spec_constants_lines(
                cfg,
                cfg.inventory.constants@,
            ) + spec_class_close()
        } else {
            Seq::<(nat, Seq<char>)>::empty()
        }) + (if spec_has_emittable_functions(cfg, cfg.inventory.functions@) {
            spec_class_open(cfg.class@) + spec_native_lib_line(cfg) + spec_abi_guard_lines(cfg)
                + spec_functions_lines(cfg, cfg.inventory.functions@) + spec_class_close()
        } else {
            Seq::<(nat, Seq<char>)>::empty()
        })
    }
}

/// The field declarations of a composite type.
pub open spec fn spec_field_lines(fs: Seq<CompositeField>) -> Seq<(nat, Seq<char>)>
    decreases fs.len(),
{
    if fs.len() == 0 {
        Seq::<(nat, Seq<char>)>::empty()
    } else {
        spec_field_lines(fs.drop_last()) + seq![
            (2 as nat, "public "@ + spec_type_ref(fs.last().ty) + " "@ + fs.last().name@ + ";"@),
        ]
    }
}

/// The variant declarations of an enumeration.
pub open spec fn spec_variant_lines(vs: Seq<String>) -> Seq<(nat, Seq<char>)>
    decreases vs.len(),
{
    if vs.len() == 0 {
        Seq::<(nat, Seq<char>)>::empty()
    } else {
        spec_variant_lines(vs.drop_last()) + seq![(2 as nat, vs.last()@ + ","@)]
    }
}

/// The declaration lines one type contributes when it is emitted:
/// enumerations and composites declare their members (composites always
/// followed by their marshaller, which they unconditionally need), opaques
/// and wrapped patterns declare a stub, function pointers and named or
/// asynchronous callbacks declare a delegate (named callbacks followed by a
/// marshaller pair when their signature is custom marshalled), and types
/// that lower to built-in representations declare nothing.
pub open spec fn spec_type_decl_lines(cfg: Interop, t: Type) -> Seq<(nat, Seq<char>)> {
    let vis = cfg.visibility_types.spec_access_modifier();
    match t {
        Type::Enum(x) => seq![
            (1 as nat, vis + " enum "@ + x.name@),
            (1 as nat, "{"@),
        ] + spec_variant_lines(x.variants@) + seq![(1 as nat, "}"@)],
        Type::Composite(x) => seq![
            (1 as nat, vis + " partial struct "@ + x.name@),
            (1 as nat, "{"@),
        ] + spec_field_lines(x.fields@) + seq![
            (1 as nat, "}"@),
            (1 as nat, "internal struct "@ + x.name@ + "Marshaller"@),
            (1 as nat, "{"@),
            (1 as nat, "}"@),
        ],
        Type::Opaque(x) => seq![(1 as nat, vis + " partial class "@ + x.name@ + " { }"@)],
        Type::FnPointer(y) => seq![
            (
                1 as nat,
                vis + " delegate "@ + spec_type_ref(*y.signature.rval) + " InteropDelegate("@
                    + spec_params_text(y.signature.params@) + ");"@,
            ),
        ],
        Type::Pattern(p) => match p {
            TypePattern::Slice(_) => seq![
                (1 as nat, vis + " partial struct "@ + spec_type_ref(t) + " { }"@),
            ],
            TypePattern::SliceMut(_) => seq![
                (1 as nat, vis + " partial struct "@ + spec_type_ref(t) + " { }"@),
            ],
            TypePattern::OptionOf(_) => seq![
                (1 as nat, vis + " partial struct "@ + spec_type_ref(t) + " { }"@),
            ],
            TypePattern::ResultOf(_) => seq![
                (1 as nat, vis + " partial struct "@ + spec_type_ref(t) + " { }"@),
            ],
            TypePattern::VecOf(_) => seq![
                (1 as nat, vis + " partial struct "@ + spec_type_ref(t) + " { }"@),
            ],
            TypePattern::Bool => seq![(1 as nat, vis + " partial struct Bool { }"@)],
            TypePattern::NamedCallback(c) => seq![
                (
                    1 as nat,
                    vis + " delegate "@ + spec_type_ref(*c.fnpointer.signature.rval) + " "@
                        + c.name@ + "("@ + spec_params_text(c.fnpointer.signature.params@)
                        + ");"@,
                ),
            ] + (if spec_is_custom_marshalled(t) {
                seq![
                    (1 as nat, "internal struct "@ + c.name@ + "Marshaller"@),
                    (1 as nat, "{"@),
                    (1 as nat, "}"@),
                ]
            } else {
                Seq::<(nat, Seq<char>)>::empty()
            }),
            TypePattern::AsyncCallback(c) => seq![
                (
                    1 as nat,
                    vis + " delegate "@ + spec_type_ref(*c.fnpointer.signature.rval) + " "@
                        + c.name@ + "("@ + spec_params_text(c.fnpointer.signature.params@)
                        + ");"@,
                ),
            ],
            _ => Seq::<(nat, Seq<char>)>::empty(),
        },
        _ => Seq::<(nat, Seq<char>)>::empty(),
    }
}

/// The type definitions of the output unit, filtered by the emission
/// predicate, in inventory order.
pub open spec fn spec_type_defs_lines(cfg: Interop, ts: Seq<Type>) -> Seq<(nat, Seq<char>)>
    decreases ts.len(),
{
    if ts.len() == 0 {
        Seq::<(nat, Seq<char>)>::empty()
    } else {
        spec_type_defs_lines(cfg, ts.drop_last()) + (if spec_should_emit_by_type(cfg, ts.last()) {
            spec_type_decl_lines(cfg, ts.last())
        } else {
            Seq::<(nat, Seq<char>)>::empty()
        })
    }
}

/// Whether the shared built-in support declarations are referenced by this
/// output unit: some emittable function carries custom-marshalled types, or
/// some emitted type needs a marshaller.
pub open spec fn spec_needs_builtins(cfg: Interop) -> bool {
    (exists|i: int|
        0 <= i < cfg.inventory.functions@.len() && spec_should_emit_by_meta(
            cfg,
            #[trigger] cfg.inventory.functions@[i].meta,
        ) && spec_has_custom_marshalled_types(cfg.inventory.functions@[i].signature)) || (exists|j: int|
        0 <= j < cfg.inventory.types@.len() && spec_should_emit_by_type(
            cfg,
            #[trigger] cfg.inventory.types@[j],
        ) && spec_needs_marshaller(cfg.inventory.types@[j]))
}

/// The shared built-in support declarations, emitted exactly once per
/// output unit and only when something emitted references them.
pub open spec fn spec_builtins_lines(cfg: Interop) -> Seq<(nat, Seq<char>)> {
    if spec_needs_builtins(cfg) {
        seq![
            (1 as nat, "internal static partial class InteropSupport"@),
            (1 as nat, "{"@),
            (2 as nat, "internal static readonly bool Initialized = true;"@),
            (1 as nat, "}"@),
        ]
    } else {
        Seq::<(nat, Seq<char>)>::empty()
    }
}

/// The full document one configuration generates: header, imports, the
/// namespace scaffold, the class section, the type definitions and the
/// built-in support. A pure function of the configuration and its
/// inventory: identical inputs always produce identical output.
pub open spec fn spec_document(cfg: Interop) -> Seq<(nat, Seq<char>)> {
    spec_header_lines(cfg) + seq![(0 as nat, Seq::<char>::empty())] + spec_import_lines(cfg)
        + seq![(0 as nat, Seq::<char>::empty())] + seq![
        (0 as nat, "namespace "@ + spec_lookup_or_empty(cfg, cfg.namespace_id@)),
        (0 as nat, "{"@),
    ] + spec_class_section(cfg) + spec_type_defs_lines(cfg, cfg.inventory.types@)
        + spec_builtins_lines(cfg) + seq![(0 as nat, "}"@)]
}

impl Interop {
    /// Emits the file header comments.
    pub fn write_file_header_comments(&self, w: &mut IndentWriter)
        requires
            old(w).indent == 0,
        ensures
            final(w).indent == 0,
            final(w).doc() == old(w).doc() + spec_header_lines(*self),
    {
        w.line(self.file_header_comment.clone());
        w.line("// Library:      ".to_owned().concat(self.dll_name.as_str()));
        let hex = u64_to_hex16_string(self.inventory.hash);
        w.line("// Hash:         0x".to_owned().concat(hex.as_str()));
        let fqn: String = match self.namespace_mappings.get(&self.namespace_id) {
            Some(s) => s.clone(),
            None => String::new(),
        };
        w.line("// Namespace:    ".to_owned().concat(fqn.as_str()));
        proof {
            assert(w.doc() =~= old(w).doc() + spec_header_lines(*self));
        }
    }

    /// Emits the import declarations.
    pub fn write_imports(&self, w: &mut IndentWriter)
        requires
            old(w).indent == 0,
        ensures
            final(w).indent == 0,
            final(w).doc() == old(w).doc() + spec_import_lines(*self),
    {
        w.line("using System;".to_owned());
        w.line("using System.Runtime.InteropServices;".to_owned());
        let ghost base = w.doc();
        let entries = &self.namespace_mappings.entries;
        let mut i: usize = 0;
        proof {
            assert(entries@.take(0) =~= Seq::<(String, String)>::empty());
            assert(w.doc() =~= base + spec_using_mapping_lines(*self, entries@.take(0)));
        }
        while i < entries.len()
            invariant
                entries@ == self.namespace_mappings.entries@,
                0 <= i <= entries@.len(),
                w.indent == 0,
                w.doc() == base + spec_using_mapping_lines(*self, entries@.take(i as int)),
            decreases entries@.len() - i,
        {
            proof {
                assert(entries@.take(i as int + 1).drop_last() =~= entries@.take(i as int));
                assert(entries@.take(i as int + 1).last() == entries@[i as int]);
            }
            if !(entries[i].0 == self.namespace_id) {
                w.line("using ".to_owned().concat(entries[i].1.as_str()).concat(";"));
            }
            proof {
                assert(w.doc() =~= base + spec_using_mapping_lines(
                    *self,
                    entries@.take(i as int + 1),
                ));
            }
            i += 1;
        }
        proof {
            assert(entries@.take(entries@.len() as int) =~= entries@);
            assert(w.doc() =~= old(w).doc() + spec_import_lines(*self));
        }
    }

    /// Emits the native-library linkage declaration.
    pub fn write_native_lib_string(&self, w: &mut IndentWriter)
        requires
            old(w).indent == 2,
        ensures
            final(w).indent == 2,
            final(w).doc() == old(w).doc() + spec_native_lib_line(*self),
    {
        w.line(
            "public const string NativeLib = \"".to_owned().concat(self.dll_name.as_str()).concat(
                "\";",
            ),
        );
        proof {
            assert(w.doc() =~= old(w).doc() + spec_native_lib_line(*self));
        }
    }

    /// Emits the ABI guard.
    pub fn write_abi_guard(&self, w: &mut IndentWriter)
        requires
            old(w).indent == 2,
        ensures
            final(w).indent == 2,
            final(w).doc() == old(w).doc() + spec_abi_guard_lines(*self),
    {
        w.line("public static void AssertApiGuard()".to_owned());
        w.line("{".to_owned());
        w.indent();
        let hex = u64_to_hex16_string(self.inventory.hash);
        w.line("var expected = 0x".to_owned().concat(hex.as_str()).concat("UL;"));
        w.line("if (api_guard() != expected) throw new InvalidOperationException();".to_owned());
        w.unindent();
        w.line("}".to_owned());
        proof {
            assert(w.doc() =~= old(w).doc() + spec_abi_guard_lines(*self));
        }
    }

    /// Emits the async trampoline initializer: one registration per
    /// asynchronous callback parameter of the namespace's functions.
    pub fn write_pattern_async_trampoline_initializers(&self, w: &mut IndentWriter)
        requires
            old(w).indent == 2,
        ensures
            final(w).indent == 2,
            final(w).doc() == old(w).doc() + spec_trampoline_lines(*self),
    {
        w.line("private static void InitAsyncTrampolines()".to_owned());
        w.line("{".to_owned());
        w.indent();
        let ghost base = old(w).doc() + seq![
            (2 as nat, "private static void InitAsyncTrampolines()"@),
            (2 as nat, "{"@),
        ];
        proof {
            assert(w.doc() =~= base);
            assert(self.inventory.functions@.take(0) =~= Seq::<Function>::empty());
        }
        let fns = &self.inventory.functions;
        let mut i: usize = 0;
        while i < fns.len()
            invariant
                fns@ == self.inventory.functions@,
                0 <= i <= fns@.len(),
                w.indent == 3,
                w.doc() == base + spec_trampoline_entries(*self, fns@.take(i as int)),
            decreases fns@.len() - i,
        {
            proof {
                assert(fns@.take(i as int + 1).drop_last() =~= fns@.take(i as int));
                assert(fns@.take(i as int + 1).last() == fns@[i as int]);
            }
            if self.should_emit_by_meta(&fns[i].meta) {
                let ghost entry_base = w.doc();
                let ps = &fns[i].signature.params;
                let mut j: usize = 0;
                proof {
                    assert(ps@.take(0) =~= Seq::<Parameter>::empty());
                }
                while j < ps.len()
                    invariant
                        ps@ == fns@[i as int].signature.params@,
                        0 <= i < fns@.len(),
                        0 <= j <= ps@.len(),
                        w.indent == 3,
                        w.doc() == entry_base + spec_trampoline_param_lines(ps@.take(j as int)),
                    decreases ps@.len() - j,
                {
                    proof {
                        assert(ps@.take(j as int + 1).drop_last() =~= ps@.take(j as int));
                        assert(ps@.take(j as int + 1).last() == ps@[j as int]);
                    }
                    if let Type::Pattern(TypePattern::AsyncCallback(c)) = &ps[j].ty {
                        w.line(
                            "RegisterAsyncTrampoline(\"".to_owned().concat(c.name.as_str()).concat(
                                "\");",
                            ),
                        );
                    }
                    proof {
                        assert(w.doc() =~= entry_base + spec_trampoline_param_lines(
                            ps@.take(j as int + 1),
                        ));
                    }
                    j += 1;
                }
                proof {
                    assert(ps@.take(ps@.len() as int) =~= ps@);
                    assert(w.doc() =~= base + spec_trampoline_entries(
                        *self,
                        fns@.take(i as int + 1),
                    ));
                }
            } else {
                proof {
                    assert(w.doc() =~= base + spec_trampoline_entries(
                        *self,
                        fns@.take(i as int + 1),
                    ));
                }
            }
            i += 1;
        }
        proof {
            assert(fns@.take(fns@.len() as int) =~= fns@);
        }
        w.unindent();
        w.line("}".to_owned());
        proof {
            assert(w.doc() =~= old(w).doc() + spec_trampoline_lines(*self));
        }
    }

    /// Emits the constant declarations of the current namespace.
    pub fn write_constants(&self, w: &mut IndentWriter)
        requires
            old(w).indent == 2,
        ensures
            final(w).indent == 2,
            final(w).doc() == old(w).doc() + spec_constants_lines(
                *self,
                self.inventory.constants@,
            ),
    {
        let cs = &self.inventory.constants;
        let mut i: usize = 0;
        proof {
            assert(cs@.take(0) =~= Seq::<Constant>::empty());
            assert(w.doc() =~= old(w).doc() + spec_constants_lines(*self, cs@.take(0)));
        }
        while i < cs.len()
            invariant
                cs@ == self.inventory.constants@,
                0 <= i <= cs@.len(),
                w.indent == 2,
                w.doc() == old(w).doc() + spec_constants_lines(*self, cs@.take(i as int)),
            decreases cs@.len() - i,
        {
            proof {
                assert(cs@.take(i as int + 1).drop_last() =~= cs@.take(i as int));
                assert(cs@.take(i as int + 1).last() == cs@[i as int]);
            }
            if self.should_emit_by_meta(&cs[i].meta) {
                let tyname = constant_type_name(&cs[i].value);
                let value = constant_value_text(&cs[i].value);
                w.line(
                    "public const ".to_owned().concat(tyname.as_str()).concat(" ").concat(
                        cs[i].name.as_str(),
                    ).concat(" = ").concat(value.as_str()).concat(";"),
                );
            }
            proof {
                assert(w.doc() =~= old(w).doc() + spec_constants_lines(
                    *self,
                    cs@.take(i as int + 1),
                ));
            }
            i += 1;
        }
        proof {
            assert(cs@.take(cs@.len() as int) =~= cs@);
        }
    }

    /// Emits the function declarations of the current namespace.
    pub fn write_functions(&self, w: &mut IndentWriter)
        requires
            old(w).indent == 2,
        ensures
            final(w).indent == 2,
            final(w).doc() == old(w).doc() + spec_functions_lines(
                *self,
                self.inventory.functions@,
            ),
    {
        let fns = &self.inventory.functions;
        let mut i: usize = 0;
        proof {
            assert(fns@.take(0) =~= Seq::<Function>::empty());
            assert(w.doc() =~= old(w).doc() + spec_functions_lines(*self, fns@.take(0)));
        }
        while i < fns.len()
            invariant
                fns@ == self.inventory.functions@,
                0 <= i <= fns@.len(),
                w.indent == 2,
                w.doc() == old(w).doc() + spec_functions_lines(*self, fns@.take(i as int)),
            decreases fns@.len() - i,
        {
            proof {
                assert(fns@.take(i as int + 1).drop_last() =~= fns@.take(i as int));
                assert(fns@.take(i as int + 1).last() == fns@[i as int]);
            }
            if self.should_emit_by_meta(&fns[i].meta) {
                w.line(
                    "[LibraryImport(NativeLib, EntryPoint = \"".to_owned().concat(
                        fns[i].name.as_str(),
                    ).concat("\")]"),
                );
                let rval = type_ref(&fns[i].signature.rval);
                let method = to_pascal_case(fns[i].name.as_str());
                let params = params_text(&fns[i].signature);
                w.line(
                    "public static partial ".to_owned().concat(rval.as_str()).concat(" ").concat(
                        method.as_str(),
                    ).concat("(").concat(params.as_str()).concat(");"),
                );
            }
            proof {
                assert(w.doc() =~= old(w).doc() + spec_functions_lines(
                    *self,
                    fns@.take(i as int + 1),
                ));
            }
            i += 1;
        }
        proof {
            assert(fns@.take(fns@.len() as int) =~= fns@);
        }
    }
}

impl Interop {
    /// Emits the declaration lines of one type.
    pub fn write_type_decl(&self, w: &mut IndentWriter, t: &Type)
        requires
            old(w).indent == 1,
        ensures
            final(w).indent == 1,
            final(w).doc() == old(w).doc() + spec_type_decl_lines(*self, *t),
    {
        let vis = self.visibility_types.to_access_modifier();
        match t {
            Type::Enum(x) => {
                w.line(vis.to_owned().concat(" enum ").concat(x.name.as_str()));
                w.line("{".to_owned());
                w.indent();
                let ghost base = w.doc();
                let vs = &x.variants;
                let mut i: usize = 0;
                proof {
                    assert(vs@.take(0) =~= Seq::<String>::empty());
                    assert(w.doc() =~= base + spec_variant_lines(vs@.take(0)));
                }
                while i < vs.len()
                    invariant
                        0 <= i <= vs@.len(),
                        w.indent == 2,
                        w.doc() == base + spec_variant_lines(vs@.take(i as int)),
                    decreases vs@.len() - i,
                {
                    proof {
                        assert(vs@.take(i as int + 1).drop_last() =~= vs@.take(i as int));
                        assert(vs@.take(i as int + 1).last() == vs@[i as int]);
                    }
                    w.line(vs[i].clone().concat(","));
                    proof {
                        assert(w.doc() =~= base + spec_variant_lines(vs@.take(i as int + 1)));
                    }
                    i += 1;
                }
                proof {
                    assert(vs@.take(vs@.len() as int) =~= vs@);
                }
                w.unindent();
                w.line("}".to_owned());
                proof {
                    assert(w.doc() =~= old(w).doc() + spec_type_decl_lines(*self, *t));
                }
            },
            Type::Composite(x) => {
                w.line(vis.to_owned().concat(" partial struct ").concat(x.name.as_str()));
                w.line("{".to_owned());
                w.indent();
                let ghost base = w.doc();
                let fs = &x.fields;
                let mut i: usize = 0;
                proof {
                    assert(fs@.take(0) =~= Seq::<CompositeField>::empty());
                    assert(w.doc() =~= base + spec_field_lines(fs@.take(0)));
                }
                while i < fs.len()
                    invariant
                        0 <= i <= fs@.len(),
                        w.indent == 2,
                        w.doc() == base + spec_field_lines(fs@.take(i as int)),
                    decreases fs@.len() - i,
                {
                    proof {
                        assert(fs@.take(i as int + 1).drop_last() =~= fs@.take(i as int));
                        assert(fs@.take(i as int + 1).last() == fs@[i as int]);
                    }
                    let fty = type_ref(&fs[i].ty);
                    w.line(
                        "public ".to_owned().concat(fty.as_str()).concat(" ").concat(
                            fs[i].name.as_str(),
                        ).concat(";"),
                    );
                    proof {
                        assert(w.doc() =~= base + spec_field_lines(fs@.take(i as int + 1)));
                    }
                    i += 1;
                }
                proof {
                    assert(fs@.take(fs@.len() as int) =~= fs@);
                }
                w.unindent();
                w.line("}".to_owned());
                w.line("internal struct ".to_owned().concat(x.name.as_str()).concat("Marshaller"));
                w.line("{".to_owned());
                w.line("}".to_owned());
                proof {
                    assert(w.doc() =~= old(w).doc() + spec_type_decl_lines(*self, *t));
                }
            },
            Type::Opaque(x) => {
                w.line(
                    vis.to_owned().concat(" partial class ").concat(x.name.as_str()).concat(
                        " { }",
                    ),
                );
                proof {
                    assert(w.doc() =~= old(w).doc() + spec_type_decl_lines(*self, *t));
                }
            },
            Type::FnPointer(y) => {
                let rval = type_ref(&y.signature.rval);
                let params = params_text(&y.signature);
                w.line(
                    vis.to_owned().concat(" delegate ").concat(rval.as_str()).concat(
                        " InteropDelegate(",
                    ).concat(params.as_str()).concat(");"),
                );
                proof {
                    assert(w.doc() =~= old(w).doc() + spec_type_decl_lines(*self, *t));
                }
            },
            Type::Pattern(p) => {
                match p {
                    TypePattern::Slice(_) | TypePattern::SliceMut(_) | TypePattern::OptionOf(_)
                        | TypePattern::ResultOf(_) | TypePattern::VecOf(_) => {
                        let name = type_ref(t);
                        w.line(
                            vis.to_owned().concat(" partial struct ").concat(name.as_str()).concat(
                                " { }",
                            ),
                        );
                        proof {
                            assert(w.doc() =~= old(w).doc() + spec_type_decl_lines(*self, *t));
                        }
                    },
                    TypePattern::Bool => {
                        w.line(vis.to_owned().concat(" partial struct Bool { }"));
                        proof {
                            assert(w.doc() =~= old(w).doc() + spec_type_decl_lines(*self, *t));
                        }
                    },
                    TypePattern::NamedCallback(c) => {
                        let rval = type_ref(&c.fnpointer.signature.rval);
                        let params = params_text(&c.fnpointer.signature);
                        w.line(
                            vis.to_owned().concat(" delegate ").concat(rval.as_str()).concat(
                                " ",
                            ).concat(c.name.as_str()).concat("(").concat(params.as_str()).concat(
                                ");",
                            ),
                        );
                        if self.is_custom_marshalled(t) {
                            w.line(
                                "internal struct ".to_owned().concat(c.name.as_str()).concat(
                                    "Marshaller",
                                ),
                            );
                            w.line("{".to_owned());
                            w.line("}".to_owned());
                        }
                        proof {
                            assert(w.doc() =~= old(w).doc() + spec_type_decl_lines(*self, *t));
                        }
                    },
                    TypePattern::AsyncCallback(c) => {
                        let rval = type_ref(&c.fnpointer.signature.rval);
                        let params = params_text(&c.fnpointer.signature);
                        w.line(
                            vis.to_owned().concat(" delegate ").concat(rval.as_str()).concat(
                                " ",
                            ).concat(c.name.as_str()).concat("(").concat(params.as_str()).concat(
                                ");",
                            ),
                        );
                        proof {
                            assert(w.doc() =~= old(w).doc() + spec_type_decl_lines(*self, *t));
                        }
                    },
                    _ => {
                        proof {
                            assert(w.doc() =~= old(w).doc() + spec_type_decl_lines(*self, *t));
                        }
                    },
                }
            },
            _ => {
                proof {
                    assert(w.doc() =~= old(w).doc() + spec_type_decl_lines(*self, *t));
                }
            },
        }
    }

    /// Emits the type definitions of the output unit, filtered by the
    /// emission predicate.
    pub fn write_type_definitions(&self, w: &mut IndentWriter)
        requires
            old(w).indent == 1,
        ensures
            final(w).indent == 1,
            final(w).doc() == old(w).doc() + spec_type_defs_lines(*self, self.inventory.types@),
    {
        let ts = &self.inventory.types;
        let mut i: usize = 0;
        proof {
            assert(ts@.take(0) =~= Seq::<Type>::empty());
            assert(w.doc() =~= old(w).doc() + spec_type_defs_lines(*self, ts@.take(0)));
        }
        while i < ts.len()
            invariant
                ts@ == self.inventory.types@,
                0 <= i <= ts@.len(),
                w.indent == 1,
                w.doc() == old(w).doc() + spec_type_defs_lines(*self, ts@.take(i as int)),
            decreases ts@.len() - i,
        {
            proof {
                assert(ts@.take(i as int + 1).drop_last() =~= ts@.take(i as int));
                assert(ts@.take(i as int + 1).last() == ts@[i as int]);
            }
            if self.should_emit_by_type(&ts[i]) {
                self.write_type_decl(w, &ts[i]);
            }
            proof {
                assert(w.doc() =~= old(w).doc() + spec_type_defs_lines(
                    *self,
                    ts@.take(i as int + 1),
                ));
            }
            i += 1;
        }
        proof {
            assert(ts@.take(ts@.len() as int) =~= ts@);
        }
    }

    /// Emits the shared built-in support declarations, when something
    /// emitted references them.
    pub fn write_builtins(&self, w: &mut IndentWriter)
        requires
            old(w).indent == 1,
        ensures
            final(w).indent == 1,
            final(w).doc() == old(w).doc() + spec_builtins_lines(*self),
    {
        let fns = &self.inventory.functions;
        let mut needs_f = false;
        let mut i: usize = 0;
        while i < fns.len()
            invariant
                fns@ == self.inventory.functions@,
                0 <= i <= fns@.len(),
                needs_f == exists|k: int|
                    0 <= k < i && spec_should_emit_by_meta(*self, #[trigger] fns@[k].meta)
                        && spec_has_custom_marshalled_types(fns@[k].signature),
            decreases fns@.len() - i,
        {
            if self.should_emit_by_meta(&fns[i].meta) && self.has_custom_marshalled_types(
                &fns[i].signature,
            ) {
                needs_f = true;
            }
            i += 1;
        }
        let ts = &self.inventory.types;
        let mut needs_t = false;
        let mut j: usize = 0;
        while j < ts.len()
            invariant
                ts@ == self.inventory.types@,
                0 <= j <= ts@.len(),
                needs_t == exists|k: int|
                    0 <= k < j && spec_should_emit_by_type(*self, #[trigger] ts@[k])
                        && spec_needs_marshaller(ts@[k]),
            decreases ts@.len() - j,
        {
            if self.should_emit_by_type(&ts[j]) && self.should_emit_marshaller(&ts[j]) {
                needs_t = true;
            }
            j += 1;
        }
        if needs_f || needs_t {
            w.line("internal static partial class InteropSupport".to_owned());
            w.line("{".to_owned());
            w.indent();
            w.line("internal static readonly bool Initialized = true;".to_owned());
            w.unindent();
            w.line("}".to_owned());
        }
        proof {
            assert(w.doc() =~= old(w).doc() + spec_builtins_lines(*self));
        }
    }

    /// Emits the class section: the shared scaffold, or the split constants
    /// and functions scaffolds, each skipped when it would be empty.
    #[verifier::rlimit(100)]
    pub fn write_class_section(&self, w: &mut IndentWriter)
        requires
            old(w).indent == 1,
        ensures
            final(w).indent == 1,
            final(w).doc() == old(w).doc() + spec_class_section(*self),
    {
        let single = match &self.class_constants {
            None => true,
            Some(cc) => *cc == self.class,
        };
        proof {
            assert(single == spec_single_class_mode(*self));
        }
        if single {
            if self.has_emittable_functions(&self.inventory.functions) || self.has_emittable_constants(
                &self.inventory.constants,
            ) {
                w.line("public static partial class ".to_owned().concat(self.class.as_str()));
                w.line("{".to_owned());
                proof {
                    assert(w.doc() =~= old(w).doc() + spec_class_open(self.class@));
                }
                w.indent();
                self.write_native_lib_string(w);
                self.write_abi_guard(w);
                let ghost mid = w.doc();
                proof {
                    assert(mid =~= old(w).doc() + spec_class_open(self.class@)
                        + spec_native_lib_line(*self) + spec_abi_guard_lines(*self));
                }
                self.write_pattern_async_trampoline_initializers(w);
                self.write_constants(w);
                self.write_functions(w);
                w.unindent();
                w.line("}".to_owned());
                proof {
                    assert(w.doc() =~= old(w).doc() + spec_class_section(*self));
                }
            } else {
                proof {
                    assert(w.doc() =~= old(w).doc() + spec_class_section(*self));
                }
            }
        } else {
            if self.has_emittable_constants(&self.inventory.constants) {
                let cc = match &self.class_constants {
                    Some(cc) => cc.clone(),
                    None => self.class.clone(),
                };
                w.line("public static partial class ".to_owned().concat(cc.as_str()));
                w.line("{".to_owned());
                w.indent();
                self.write_constants(w);
                w.unindent();
                w.line("}".to_owned());
            }
            if self.has_emittable_functions(&self.inventory.functions) {
                w.line("public static partial class ".to_owned().concat(self.class.as_str()));
                w.line("{".to_owned());
                w.indent();
                self.write_native_lib_string(w);
                self.write_abi_guard(w);
                self.write_functions(w);
                w.unindent();
                w.line("}".to_owned());
            }
            proof {
                assert(w.doc() =~= old(w).doc() + spec_class_section(*self));
            }
        }
    }

    /// Validates the namespace mappings, then emits the whole output unit:
    /// header, imports, namespace scaffold, class section, type definitions
    /// and builtins. On failure nothing is written: no partial output is
    /// ever handed back.
    pub fn write_all(&self, w: &mut IndentWriter) -> (r: Result<(), GenError>)
        requires
            old(w).indent == 0,
        ensures
            match r {
                Ok(()) => {
                    &&& spec_validation_ok(*self)
                    &&& final(w).indent == 0
                    &&& final(w).doc() == old(w).doc() + spec_document(*self)
                },
                Err(e) => {
                    &&& !spec_validation_ok(*self)
                    &&& *final(w) == *old(w)
                    &&& e matches GenError::MissingNamespaceMapping(m) && spec_first_unmapped(
                        *self,
                    ) == Some(m@)
                },
            },
    {
        if let Err(e) = self.validate() {
            return Err(e);
        }
        self.write_file_header_comments(w);
        w.newline();
        self.write_imports(w);
        w.newline();
        let fqn: String = match self.namespace_mappings.get(&self.namespace_id) {
            Some(s) => s.clone(),
            None => String::new(),
        };
        w.line("namespace ".to_owned().concat(fqn.as_str()));
        w.line("{".to_owned());
        w.indent();
        self.write_class_section(w);
        self.write_type_definitions(w);
        self.write_builtins(w);
        w.unindent();
        w.line("}".to_owned());
        proof {
            assert(w.doc() =~= old(w).doc() + spec_document(*self));
        }
        Ok(())
    }

    /// Writes the bindings to the given writer; the entry point of one
    /// generation run.
    pub fn write_to(&self, w: &mut IndentWriter) -> (r: Result<(), GenError>)
        requires
            old(w).indent == 0,
        ensures
            match r {
                Ok(()) => {
                    &&& spec_validation_ok(*self)
                    &&& final(w).indent == 0
                    &&& final(w).doc() == old(w).doc() + spec_document(*self)
                },
                Err(e) => {
                    &&& !spec_validation_ok(*self)
                    &&& *final(w) == *old(w)
                    &&& e matches GenError::MissingNamespaceMapping(m) && spec_first_unmapped(
                        *self,
                    ) == Some(m@)
                },
            },
    {
        self.write_all(w)
    }
}

} // verus!
