//! The properties the engine guarantees, stated and proved once over the
//! spec functions that the executable functions' contracts are written
//! against.

use crate::config::Interop;
use crate::document::{
    spec_class_section, spec_document, spec_single_class_mode, spec_trampoline_entries,
    spec_trampoline_lines, spec_trampoline_param_lines,
};
use crate::emit::{spec_has_emittable_functions, spec_should_emit_by_meta, spec_should_emit_by_type};
use crate::generate::spec_module_of_type;
use crate::lang::{CallbackDef, FnPointer, Function, Signature, Type, TypePattern};
use crate::marshal::{
    spec_has_custom_marshalled_delegate, spec_has_custom_marshalled_types, spec_has_overloadable,
    spec_is_callback_pattern, spec_is_custom_marshalled, spec_is_custom_marshalled_delegate,
    spec_needs_marshaller,
};
use vstd::prelude::*;

verus! {

/// Membership survives concatenation on the left.
proof fn lemma_concat_contains_left<A>(a: Seq<A>, b: Seq<A>, x: A)
    requires
        a.contains(x),
    ensures
        (a + b).contains(x),
{
    let i = choose|i: int| 0 <= i < a.len() && a[i] == x;
    assert((a + b)[i] == x);
}

/// Membership survives concatenation on the right.
proof fn lemma_concat_contains_right<A>(a: Seq<A>, b: Seq<A>, x: A)
    requires
        b.contains(x),
    ensures
        (a + b).contains(x),
{
    let i = choose|i: int| 0 <= i < b.len() && b[i] == x;
    assert((a + b)[a.len() + i] == x);
}

/// Boundary invariant: every composite and every array type needs a
/// marshaller, and is therefore also custom marshalled.
pub proof fn lemma_needs_marshaller_boundary(t: Type)
    requires
        t is Array || t is Composite,
    ensures
        spec_needs_marshaller(t),
        spec_is_custom_marshalled(t),
{
}

/// A custom-marshalled type nested anywhere in a signature makes the whole
/// signature carry custom-marshalled types.
pub proof fn lemma_nested_custom_in_signature(s: Signature, k: int)
    requires
        0 <= k < s.params@.len(),
        spec_is_custom_marshalled(s.params@[k].ty),
    ensures
        spec_has_custom_marshalled_types(s),
{
}

/// Monotonicity of the marshalling classification: when a type nested in a
/// callback's signature needs a marshaller, the delegate wrapping that
/// signature is classified as custom marshalled, and so is any function
/// pointer or named callback whose own signature takes that delegate as a
/// parameter.
pub proof fn lemma_marshalling_monotone(
    inner: Signature,
    j: int,
    d: Type,
    outer: Signature,
    k: int,
    cb: CallbackDef,
)
    requires
        0 <= j < inner.params@.len(),
        spec_needs_marshaller(inner.params@[j].ty),
        (d matches Type::FnPointer(y) && y.signature == inner) || (d matches Type::Pattern(
            TypePattern::NamedCallback(c),
        ) && c.fnpointer.signature == inner),
        0 <= k < outer.params@.len(),
        outer.params@[k].ty == d,
        cb.fnpointer.signature == outer,
    ensures
        spec_has_custom_marshalled_types(inner),
        spec_is_custom_marshalled_delegate(d),
        spec_has_custom_marshalled_delegate(outer),
        spec_is_custom_marshalled(Type::FnPointer(FnPointer { signature: outer })),
        spec_is_custom_marshalled(Type::Pattern(TypePattern::NamedCallback(cb))),
{
    assert(spec_is_custom_marshalled(inner.params@[j].ty));
    assert(spec_has_custom_marshalled_types(inner));
    assert(spec_is_custom_marshalled_delegate(outer.params@[k].ty));
}

/// Output determinism: any two documents that `write_all` admits for the
/// same configuration and inventory are identical.
pub proof fn lemma_output_deterministic(
    cfg: Interop,
    d1: Seq<(nat, Seq<char>)>,
    d2: Seq<(nat, Seq<char>)>,
)
    requires
        d1 == spec_document(cfg),
        d2 == spec_document(cfg),
    ensures
        d1 == d2,
{
}

/// The types owned by one namespace that a configuration emits, in
/// inventory order.
pub open spec fn spec_owned_emitted(cfg: Interop, ts: Seq<Type>, ns: Seq<char>) -> Seq<Type>
    decreases ts.len(),
{
    if ts.len() == 0 {
        Seq::<Type>::empty()
    } else {
        spec_owned_emitted(cfg, ts.drop_last(), ns) + (if spec_module_of_type(ts.last())
            == Some(ns) && spec_should_emit_by_type(cfg, ts.last()) {
            seq![ts.last()]
        } else {
            Seq::<Type>::empty()
        })
    }
}

/// Superset property: generating with the `All` write scope yields, after
/// filtering to the types one namespace owns, exactly the types that a
/// namespace-only run for that namespace emits. The two configurations
/// differ only in their write scope.
pub proof fn lemma_write_scope_superset(cfg_all: Interop, cfg_ns: Interop, ts: Seq<Type>)
    requires
        cfg_all.write_types is All,
        cfg_ns.write_types is Namespace,
        cfg_all == (Interop { write_types: cfg_all.write_types, ..cfg_ns }),
    ensures
        spec_owned_emitted(cfg_all, ts, cfg_ns.namespace_id@) == spec_owned_emitted(
            cfg_ns,
            ts,
            cfg_ns.namespace_id@,
        ),
    decreases ts.len(),
{
    if ts.len() == 0 {
    } else {
        lemma_write_scope_superset(cfg_all, cfg_ns, ts.drop_last());
        let t = ts.last();
        if spec_module_of_type(t) == Some(cfg_ns.namespace_id@) {
            assert(spec_should_emit_by_type(cfg_all, t));
            assert(spec_should_emit_by_type(cfg_ns, t));
        }
    }
}

/// An asynchronous-callback parameter makes its function overloadable, and
/// puts one registration for that callback into the async trampoline
/// initializer table — and, under a shared class scaffold, into the
/// generated document.
pub proof fn lemma_async_callback_trampoline(cfg: Interop, i: int, j: int, cb: CallbackDef)
    requires
        0 <= i < cfg.inventory.functions@.len(),
        spec_should_emit_by_meta(cfg, cfg.inventory.functions@[i].meta),
        0 <= j < cfg.inventory.functions@[i].signature.params@.len(),
        cfg.inventory.functions@[i].signature.params@[j].ty == Type::Pattern(
            TypePattern::AsyncCallback(cb),
        ),
    ensures
        spec_has_overloadable(cfg.inventory.functions@[i].signature),
        spec_trampoline_lines(cfg).contains(
            ((3 as nat, "RegisterAsyncTrampoline(\""@ + cb.name@ + "\");"@)),
        ),
        spec_single_class_mode(cfg) ==> spec_document(cfg).contains(
            ((3 as nat, "RegisterAsyncTrampoline(\""@ + cb.name@ + "\");"@)),
        ),
{
    let fns = cfg.inventory.functions@;
    let line = (3 as nat, "RegisterAsyncTrampoline(\""@ + cb.name@ + "\");"@);
    assert(spec_is_callback_pattern(fns[i].signature.params@[j].ty));
    assert(spec_has_overloadable(fns[i].signature));
    lemma_entry_in_param_lines(fns[i].signature.params@, j, cb);
    lemma_entry_in_trampoline_entries(cfg, fns, i, line);
    let hdr = seq![
        (2 as nat, "private static void InitAsyncTrampolines()"@),
        (2 as nat, "{"@),
    ];
    lemma_concat_contains_right(hdr, spec_trampoline_entries(cfg, fns), line);
    lemma_concat_contains_left(
        hdr + spec_trampoline_entries(cfg, fns),
        seq![(2 as nat, "}"@)],
        line,
    );
    assert(spec_trampoline_lines(cfg).contains(line));
    if spec_single_class_mode(cfg) {
        assert(spec_has_emittable_functions(cfg, fns));
        let cs = spec_class_section(cfg);
        let open_native_guard = crate::document::spec_class_open(cfg.class@)
            + crate::document::spec_native_lib_line(cfg) + crate::document::spec_abi_guard_lines(
            cfg,
        );
        lemma_concat_contains_right(open_native_guard, spec_trampoline_lines(cfg), line);
        lemma_concat_contains_left(
            open_native_guard + spec_trampoline_lines(cfg),
            crate::document::spec_constants_lines(cfg, cfg.inventory.constants@),
            line,
        );
        lemma_concat_contains_left(
            open_native_guard + spec_trampoline_lines(cfg) + crate::document::spec_constants_lines(
                cfg,
                cfg.inventory.constants@,
            ),
            crate::document::spec_functions_lines(cfg, fns),
            line,
        );
        lemma_concat_contains_left(
            open_native_guard + spec_trampoline_lines(cfg) + crate::document::spec_constants_lines(
                cfg,
                cfg.inventory.constants@,
            ) + crate::document::spec_functions_lines(cfg, fns),
            crate::document::spec_class_close(),
            line,
        );
        assert(cs.contains(line));
        let prefix = crate::document::spec_header_lines(cfg) + seq![
            (0 as nat, Seq::<char>::empty()),
        ] + crate::document::spec_import_lines(cfg) + seq![(0 as nat, Seq::<char>::empty())]
            + seq![
            (
                0 as nat,
                "namespace "@ + crate::generate::spec_lookup_or_empty(cfg, cfg.namespace_id@),
            ),
            (0 as nat, "{"@),
        ];
        lemma_concat_contains_right(prefix, cs, line);
        lemma_concat_contains_left(
            prefix + cs,
            crate::document::spec_type_defs_lines(cfg, cfg.inventory.types@),
            line,
        );
        lemma_concat_contains_left(
            prefix + cs + crate::document::spec_type_defs_lines(cfg, cfg.inventory.types@),
            crate::document::spec_builtins_lines(cfg),
            line,
        );
        lemma_concat_contains_left(
            prefix + cs + crate::document::spec_type_defs_lines(cfg, cfg.inventory.types@)
                + crate::document::spec_builtins_lines(cfg),
            seq![(0 as nat, "}"@)],
            line,
        );
        assert(spec_document(cfg) =~= prefix + cs + crate::document::spec_type_defs_lines(
            cfg,
            cfg.inventory.types@,
        ) + crate::document::spec_builtins_lines(cfg) + seq![(0 as nat, "}"@)]);
    }
}

/// The registration line of an asynchronous-callback parameter is among its
/// parameter list's trampoline lines.
proof fn lemma_entry_in_param_lines(ps: Seq<crate::lang::Parameter>, j: int, cb: CallbackDef)
    requires
        0 <= j < ps.len(),
        ps[j].ty == Type::Pattern(TypePattern::AsyncCallback(cb)),
    ensures
        spec_trampoline_param_lines(ps).contains(
            ((3 as nat, "RegisterAsyncTrampoline(\""@ + cb.name@ + "\");"@)),
        ),
    decreases ps.len(),
{
    let line = (3 as nat, "RegisterAsyncTrampoline(\""@ + cb.name@ + "\");"@);
    if j == ps.len() - 1 {
        let tail = seq![line];
        assert(tail[0] == line);
        assert(tail.contains(line));
        lemma_concat_contains_right(spec_trampoline_param_lines(ps.drop_last()), tail, line);
    } else {
        assert(ps.drop_last()[j] == ps[j]);
        lemma_entry_in_param_lines(ps.drop_last(), j, cb);
        lemma_concat_contains_left(
            spec_trampoline_param_lines(ps.drop_last()),
            match ps.last().ty {
                Type::Pattern(TypePattern::AsyncCallback(c)) => seq![
                    (3 as nat, "RegisterAsyncTrampoline(\""@ + c.name@ + "\");"@),
                ],
                _ => Seq::<(nat, Seq<char>)>::empty(),
            },
            line,
        );
    }
}

/// A line among one emittable function's trampoline lines is among the
/// trampoline entries of the whole function list.
proof fn lemma_entry_in_trampoline_entries(
    cfg: Interop,
    fns: Seq<Function>,
    i: int,
    line: (nat, Seq<char>),
)
    requires
        0 <= i < fns.len(),
        spec_should_emit_by_meta(cfg, fns[i].meta),
        spec_trampoline_param_lines(fns[i].signature.params@).contains(line),
    ensures
        spec_trampoline_entries(cfg, fns).contains(line),
    decreases fns.len(),
{
    if i == fns.len() - 1 {
        lemma_concat_contains_right(
            spec_trampoline_entries(cfg, fns.drop_last()),
            spec_trampoline_param_lines(fns[i].signature.params@),
            line,
        );
    } else {
        assert(fns.drop_last()[i] == fns[i]);
        lemma_entry_in_trampoline_entries(cfg, fns.drop_last(), i, line);
        lemma_concat_contains_left(
            spec_trampoline_entries(cfg, fns.drop_last()),
            if spec_should_emit_by_meta(cfg, fns.last().meta) {
                spec_trampoline_param_lines(fns.last().signature.params@)
            } else {
                Seq::<(nat, Seq<char>)>::empty()
            },
            line,
        );
    }
}

} // verus!
