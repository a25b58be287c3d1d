//! The structural writer: validation of the namespace mappings, then the
//! sequenced emission of one output unit — header, imports, namespace and
//! class scaffolding, the ABI guard, the async trampoline table, constants,
//! functions, type definitions and shared builtins.

use crate::config::Interop;
use crate::errors::GenError;
use crate::lang::{Constant, Function, Type, TypePattern};
use crate::writer::IndentWriter;
use vstd::prelude::*;
use vstd::string::StringExecFns;

verus! {

/// The owning module of a type, for the variants that carry metadata.
pub open spec fn spec_module_of_type(t: Type) -> Option<Seq<char>> {
    match t {
        Type::Enum(x) => Some(x.meta.module@),
        Type::Opaque(x) => Some(x.meta.module@),
        Type::Composite(x) => Some(x.meta.module@),
        Type::Pattern(p) => match p {
            TypePattern::Slice(y) => Some(y.meta.module@),
            TypePattern::SliceMut(y) => Some(y.meta.module@),
            TypePattern::OptionOf(y) => Some(y.meta.module@),
            TypePattern::ResultOf(y) => Some(y.meta.module@),
            TypePattern::NamedCallback(c) => Some(c.meta.module@),
            TypePattern::AsyncCallback(c) => Some(c.meta.module@),
            TypePattern::VecOf(y) => Some(y.meta.module@),
            _ => None,
        },
        _ => None,
    }
}

/// Whether a module id resolves through the configuration's namespace
/// mapping table.
pub open spec fn spec_resolves(cfg: Interop, id: Seq<char>) -> bool {
    cfg.namespace_mappings.spec_get(id) is Some
}

/// The first function module, in order, that does not resolve.
pub open spec fn spec_unmapped_in_functions(cfg: Interop, fns: Seq<Function>) -> Option<Seq<char>>
    decreases fns.len(),
{
    if fns.len() == 0 {
        None
    } else if !spec_resolves(cfg, fns[0].meta.module@) {
        Some(fns[0].meta.module@)
    } else {
        spec_unmapped_in_functions(cfg, fns.drop_first())
    }
}

/// The first constant module, in order, that does not resolve.
pub open spec fn spec_unmapped_in_constants(cfg: Interop, cs: Seq<Constant>) -> Option<Seq<char>>
    decreases cs.len(),
{
    if cs.len() == 0 {
        None
    } else if !spec_resolves(cfg, cs[0].meta.module@) {
        Some(cs[0].meta.module@)
    } else {
        spec_unmapped_in_constants(cfg, cs.drop_first())
    }
}

/// The first type module, in order, that does not resolve; types without
/// metadata have no module to resolve.
pub open spec fn spec_unmapped_in_types(cfg: Interop, ts: Seq<Type>) -> Option<Seq<char>>
    decreases ts.len(),
{
    if ts.len() == 0 {
        None
    } else {
        match spec_module_of_type(ts[0]) {
            Some(m) => if !spec_resolves(cfg, m) {
                Some(m)
            } else {
                spec_unmapped_in_types(cfg, ts.drop_first())
            },
            None => spec_unmapped_in_types(cfg, ts.drop_first()),
        }
    }
}

/// The first module id, in scan order (the current namespace, then the
/// functions, constants and types of the inventory), that has no entry in
/// the namespace mapping table.
pub open spec fn spec_first_unmapped(cfg: Interop) -> Option<Seq<char>> {
    if !spec_resolves(cfg, cfg.namespace_id@) {
        Some(cfg.namespace_id@)
    } else if spec_unmapped_in_functions(cfg, cfg.inventory.functions@) is Some {
        spec_unmapped_in_functions(cfg, cfg.inventory.functions@)
    } else if spec_unmapped_in_constants(cfg, cfg.inventory.constants@) is Some {
        spec_unmapped_in_constants(cfg, cfg.inventory.constants@)
    } else {
        spec_unmapped_in_types(cfg, cfg.inventory.types@)
    }
}

/// Whether every module id the generation run touches resolves through the
/// namespace mapping table.
pub open spec fn spec_validation_ok(cfg: Interop) -> bool {
    spec_first_unmapped(cfg) is None
}

/// The fully-qualified name a module id resolves to, or the empty name when
/// it does not resolve.
pub open spec fn spec_lookup_or_empty(cfg: Interop, id: Seq<char>) -> Seq<char> {
    match cfg.namespace_mappings.spec_get(id) {
        Some(fqn) => fqn,
        None => Seq::<char>::empty(),
    }
}

impl Interop {
    /// The fully-qualified namespace a module id maps to, or the
    /// missing-mapping failure naming the id. The caller should specify the
    /// id in the configuration's mapping table.
    pub fn namespace_for_id(&self, id: &String) -> (r: Result<String, GenError>)
        ensures
            match r {
                Ok(fqn) => self.namespace_mappings.spec_get(id@) == Some(fqn@),
                Err(e) => {
                    &&& self.namespace_mappings.spec_get(id@) is None
                    &&& e matches GenError::MissingNamespaceMapping(m) && m@ == id@
                },
            },
    {
        match self.namespace_mappings.get(id) {
            Some(fqn) => Ok(fqn.clone()),
            None => Err(GenError::MissingNamespaceMapping(id.clone())),
        }
    }

    /// Emits a debug marker line naming the given position, when the
    /// configuration asks for debug markers; does nothing otherwise.
    pub fn debug(&self, w: &mut IndentWriter, marker: &str)
        ensures
            final(w).indent == old(w).indent,
            final(w).doc() == old(w).doc() + self.spec_debug_lines(old(w).indent as nat, marker@),
    {
        if !self.debug {
            proof {
                assert(old(w).doc() + self.spec_debug_lines(old(w).indent as nat, marker@) =~= old(
                    w,
                ).doc());
            }
            return ;
        }
        let text = "// Debug - ".to_owned().concat(marker).concat(" ");
        w.line(text);
        proof {
            assert(w.doc() =~= old(w).doc() + self.spec_debug_lines(
                old(w).indent as nat,
                marker@,
            ));
        }
    }

    /// The debug marker lines: one comment line at the current indentation
    /// when debug markers are on, nothing otherwise.
    pub open spec fn spec_debug_lines(&self, indent: nat, marker: Seq<char>) -> Seq<
        (nat, Seq<char>),
    > {
        if self.debug {
            seq![(indent, "// Debug - "@ + marker + " "@)]
        } else {
            Seq::<(nat, Seq<char>)>::empty()
        }
    }

    /// Emits the aggressive-optimization method hint, stepped the given
    /// number of levels deeper than the current indentation; the cursor is
    /// restored afterwards.
    pub fn inline_hint(&self, w: &mut IndentWriter, indents: usize)
        requires
            old(w).indent + indents <= usize::MAX,
        ensures
            final(w).indent == old(w).indent,
            final(w).doc() == old(w).doc().push(
                ((old(w).indent + indents) as nat,
                "[MethodImpl(MethodImplOptions.AggressiveOptimization)]"@),
            ),
    {
        let mut k: usize = 0;
        while k < indents
            invariant
                0 <= k <= indents,
                w.indent == old(w).indent + k,
                w.doc() == old(w).doc(),
                old(w).indent + indents <= usize::MAX,
            decreases indents - k,
        {
            w.indent();
            k += 1;
        }
        w.line("[MethodImpl(MethodImplOptions.AggressiveOptimization)]".to_owned());
        let mut k2: usize = 0;
        while k2 < indents
            invariant
                0 <= k2 <= indents,
                w.indent == old(w).indent + indents - k2,
                w.doc() == old(w).doc().push(
                    ((old(w).indent + indents) as nat,
                    "[MethodImpl(MethodImplOptions.AggressiveOptimization)]"@),
                ),
            decreases indents - k2,
        {
            w.unindent();
            k2 += 1;
        }
    }

    /// Checks that every module id the run will touch resolves through the
    /// namespace mapping table: the validating phase. Fails with the first
    /// unmapped module id, before any output is produced.
    pub fn validate(&self) -> (r: Result<(), GenError>)
        ensures
            match r {
                Ok(()) => spec_validation_ok(*self),
                Err(e) => {
                    &&& !spec_validation_ok(*self)
                    &&& e matches GenError::MissingNamespaceMapping(m) && spec_first_unmapped(
                        *self,
                    ) == Some(m@)
                },
            },
    {
        if let Err(e) = self.namespace_for_id(&self.namespace_id) {
            return Err(e);
        }
        let fns = &self.inventory.functions;
        let mut i: usize = 0;
        proof {
            assert(fns@.skip(0) =~= fns@);
        }
        while i < fns.len()
            invariant
                fns@ == self.inventory.functions@,
                0 <= i <= fns@.len(),
                spec_resolves(*self, self.namespace_id@),
                spec_unmapped_in_functions(*self, fns@.skip(i as int)) == spec_unmapped_in_functions(
                    *self,
                    fns@,
                ),
            decreases fns@.len() - i,
        {
            let ghost pre = fns@.skip(i as int);
            proof {
                assert(pre[0] == fns@[i as int]);
                assert(pre.drop_first() =~= fns@.skip(i as int + 1));
            }
            if let Err(e) = self.namespace_for_id(&fns[i].meta.module) {
                proof {
                    assert(pre.len() > 0);
                    assert(spec_unmapped_in_functions(*self, pre) == Some(
                        fns@[i as int].meta.module@,
                    ));
                }
                return Err(e);
            }
            i += 1;
        }
        proof {
            assert(fns@.skip(fns@.len() as int) =~= Seq::<Function>::empty());
        }
        let cs = &self.inventory.constants;
        let mut j: usize = 0;
        proof {
            assert(cs@.skip(0) =~= cs@);
        }
        while j < cs.len()
            invariant
                cs@ == self.inventory.constants@,
                0 <= j <= cs@.len(),
                spec_resolves(*self, self.namespace_id@),
                spec_unmapped_in_functions(*self, self.inventory.functions@) is None,
                spec_unmapped_in_constants(*self, cs@.skip(j as int)) == spec_unmapped_in_constants(
                    *self,
                    cs@,
                ),
            decreases cs@.len() - j,
        {
            let ghost pre = cs@.skip(j as int);
            proof {
                assert(pre[0] == cs@[j as int]);
                assert(pre.drop_first() =~= cs@.skip(j as int + 1));
            }
            if let Err(e) = self.namespace_for_id(&cs[j].meta.module) {
                proof {
                    assert(pre.len() > 0);
                    assert(spec_unmapped_in_constants(*self, pre) == Some(
                        cs@[j as int].meta.module@,
                    ));
                }
                return Err(e);
            }
            j += 1;
        }
        proof {
            assert(cs@.skip(cs@.len() as int) =~= Seq::<Constant>::empty());
        }
        let ts = &self.inventory.types;
        let mut k: usize = 0;
        proof {
            assert(ts@.skip(0) =~= ts@);
        }
        while k < ts.len()
            invariant
                ts@ == self.inventory.types@,
                0 <= k <= ts@.len(),
                spec_resolves(*self, self.namespace_id@),
                spec_unmapped_in_functions(*self, self.inventory.functions@) is None,
                spec_unmapped_in_constants(*self, self.inventory.constants@) is None,
                spec_unmapped_in_types(*self, ts@.skip(k as int)) == spec_unmapped_in_types(
                    *self,
                    ts@,
                ),
            decreases ts@.len() - k,
        {
            let ghost pre = ts@.skip(k as int);
            proof {
                assert(pre[0] == ts@[k as int]);
                assert(pre.drop_first() =~= ts@.skip(k as int + 1));
            }
            let module: Option<&String> = match &ts[k] {
                Type::Enum(x) => Some(&x.meta.module),
                Type::Opaque(x) => Some(&x.meta.module),
                Type::Composite(x) => Some(&x.meta.module),
                Type::Pattern(p) => match p {
                    TypePattern::Slice(y) => Some(&y.meta.module),
                    TypePattern::SliceMut(y) => Some(&y.meta.module),
                    TypePattern::OptionOf(y) => Some(&y.meta.module),
                    TypePattern::ResultOf(y) => Some(&y.meta.module),
                    TypePattern::NamedCallback(c) => Some(&c.meta.module),
                    TypePattern::AsyncCallback(c) => Some(&c.meta.module),
                    TypePattern::VecOf(y) => Some(&y.meta.module),
                    _ => None,
                },
                _ => None,
            };
            proof {
                assert(match module {
                    Some(m) => spec_module_of_type(pre[0]) == Some(m@),
                    None => spec_module_of_type(pre[0]) is None,
                });
            }
            if let Some(m) = module {
                if let Err(e) = self.namespace_for_id(m) {
                    proof {
                        assert(pre.len() > 0);
                        assert(spec_unmapped_in_types(*self, pre) == Some(m@));
                    }
                    return Err(e);
                }
            }
            k += 1;
        }
        proof {
            assert(ts@.skip(ts@.len() as int) =~= Seq::<Type>::empty());
        }
        Ok(())
    }
}

} // verus!
