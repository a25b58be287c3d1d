//! The emission predicate engine: pure decisions, per item, whether a
//! function, constant or type belongs in the current output unit, given the
//! configuration's namespace and write-scope policy.

use crate::config::Interop;
use crate::lang::{Constant, Function, Meta, Type, TypePattern};
use vstd::prelude::*;

verus! {

/// Whether a type is one of the recognized cross-cutting global types: the
/// FFI-safe boolean wrapper, which belongs to no single namespace.
pub open spec fn spec_is_global_type(t: Type) -> bool {
    t == Type::Pattern(TypePattern::Bool)
}

/// Whether a type is one of the recognized cross-cutting global types.
pub fn is_global_type(t: &Type) -> (r: bool)
    ensures
        r == spec_is_global_type(*t),
{
    match t {
        Type::Pattern(TypePattern::Bool) => true,
        _ => false,
    }
}

/// Whether an item with the given metadata belongs to the namespace the
/// configuration currently writes.
pub open spec fn spec_should_emit_by_meta(cfg: Interop, m: Meta) -> bool {
    m.module@ == cfg.namespace_id@
}

/// Whether a type definition is emitted into the current output unit:
/// everything under the `All` write scope; global types exactly when the
/// scope includes globals; otherwise by variant, where namespaced types
/// follow their owning module, function pointer typedefs and the C string
/// and API version patterns are namespace-free and always emitted, and
/// arrays, raw pointers, C characters and UTF-8 strings are never standalone
/// declarations.
pub open spec fn spec_should_emit_by_type(cfg: Interop, t: Type) -> bool {
    if cfg.write_types is All {
        true
    } else if spec_is_global_type(t) {
        cfg.write_types is NamespaceAndInteroptopusGlobal
    } else {
        match t {
            Type::Primitive(_) => cfg.write_types is NamespaceAndInteroptopusGlobal,
            Type::Array(_) => false,
            Type::Enum(x) => spec_should_emit_by_meta(cfg, x.meta),
            Type::Opaque(x) => spec_should_emit_by_meta(cfg, x.meta),
            Type::Composite(x) => spec_should_emit_by_meta(cfg, x.meta),
            Type::FnPointer(_) => true,
            Type::ReadPointer(_) => false,
            Type::ReadWritePointer(_) => false,
            Type::Pattern(x) => match x {
                TypePattern::CStrPointer => true,
                TypePattern::APIVersion => true,
                TypePattern::Slice(y) => spec_should_emit_by_meta(cfg, y.meta),
                TypePattern::SliceMut(y) => spec_should_emit_by_meta(cfg, y.meta),
                TypePattern::OptionOf(y) => spec_should_emit_by_meta(cfg, y.meta),
                TypePattern::ResultOf(y) => spec_should_emit_by_meta(cfg, y.meta),
                TypePattern::Bool => cfg.write_types is NamespaceAndInteroptopusGlobal,
                TypePattern::CChar => false,
                TypePattern::NamedCallback(y) => spec_should_emit_by_meta(cfg, y.meta),
                TypePattern::AsyncCallback(y) => spec_should_emit_by_meta(cfg, y.meta),
                TypePattern::VecOf(y) => spec_should_emit_by_meta(cfg, y.meta),
                TypePattern::Utf8String => false,
            },
        }
    }
}

/// Whether at least one function belongs to the current namespace.
pub open spec fn spec_has_emittable_functions(cfg: Interop, fns: Seq<Function>) -> bool {
    exists|i: int| 0 <= i < fns.len() && spec_should_emit_by_meta(cfg, #[trigger] fns[i].meta)
}

/// Whether at least one constant belongs to the current namespace.
pub open spec fn spec_has_emittable_constants(cfg: Interop, cs: Seq<Constant>) -> bool {
    exists|i: int| 0 <= i < cs.len() && spec_should_emit_by_meta(cfg, #[trigger] cs[i].meta)
}

impl Interop {
    /// Whether an item with this metadata belongs to the namespace this run
    /// writes.
    pub fn should_emit_by_meta(&self, meta: &Meta) -> (r: bool)
        ensures
            r == spec_should_emit_by_meta(*self, *meta),
    {
        *meta.module() == self.namespace_id
    }

    /// Whether a type definition is emitted into the current output unit.
    /// Total over every type variant, as [`spec_should_emit_by_type`]
    /// states it.
    pub fn should_emit_by_type(&self, t: &Type) -> (r: bool)
        ensures
            r == spec_should_emit_by_type(*self, *t),
    {
        if self.write_types == crate::config::WriteTypes::All {
            return true;
        }
        if is_global_type(t) {
            return self.write_types == crate::config::WriteTypes::NamespaceAndInteroptopusGlobal;
        }
        match t {
            Type::Primitive(_) => self.write_types
                == crate::config::WriteTypes::NamespaceAndInteroptopusGlobal,
            Type::Array(_) => false,
            Type::Enum(x) => self.should_emit_by_meta(&x.meta),
            Type::Opaque(x) => self.should_emit_by_meta(&x.meta),
            Type::Composite(x) => self.should_emit_by_meta(&x.meta),
            Type::FnPointer(_) => true,
            Type::ReadPointer(_) => false,
            Type::ReadWritePointer(_) => false,
            Type::Pattern(x) => match x {
                TypePattern::CStrPointer => true,
                TypePattern::APIVersion => true,
                TypePattern::Slice(y) => self.should_emit_by_meta(&y.meta),
                TypePattern::SliceMut(y) => self.should_emit_by_meta(&y.meta),
                TypePattern::OptionOf(y) => self.should_emit_by_meta(&y.meta),
                TypePattern::ResultOf(y) => self.should_emit_by_meta(&y.meta),
                TypePattern::Bool => self.write_types
                    == crate::config::WriteTypes::NamespaceAndInteroptopusGlobal,
                TypePattern::CChar => false,
                TypePattern::NamedCallback(y) => self.should_emit_by_meta(&y.meta),
                TypePattern::AsyncCallback(y) => self.should_emit_by_meta(&y.meta),
                TypePattern::VecOf(y) => self.should_emit_by_meta(&y.meta),
                TypePattern::Utf8String => false,
            },
        }
    }

    /// Whether at least one of the given functions belongs to the current
    /// namespace; decides whether an otherwise-empty class scaffold opens.
    pub fn has_emittable_functions(&self, functions: &Vec<Function>) -> (r: bool)
        ensures
            r == spec_has_emittable_functions(*self, functions@),
    {
        let mut i: usize = 0;
        while i < functions.len()
            invariant
                0 <= i <= functions@.len(),
                forall|j: int|
                    0 <= j < i ==> !spec_should_emit_by_meta(*self, #[trigger] functions@[j].meta),
            decreases functions@.len() - i,
        {
            if self.should_emit_by_meta(functions[i].meta()) {
                return true;
            }
            i += 1;
        }
        false
    }

    /// Whether at least one of the given constants belongs to the current
    /// namespace.
    pub fn has_emittable_constants(&self, constants: &Vec<Constant>) -> (r: bool)
        ensures
            r == spec_has_emittable_constants(*self, constants@),
    {
        let mut i: usize = 0;
        while i < constants.len()
            invariant
                0 <= i <= constants@.len(),
                forall|j: int|
                    0 <= j < i ==> !spec_should_emit_by_meta(*self, #[trigger] constants@[j].meta),
            decreases constants@.len() - i,
        {
            if self.should_emit_by_meta(constants[i].meta()) {
                return true;
            }
            i += 1;
        }
        false
    }

    /// Whether shared delegate support is written in this output unit: never
    /// under the namespace-only scope, only in the default namespace under
    /// the namespace-plus-globals scope, and always under the `All` scope.
    pub fn should_emit_delegate(&self) -> (r: bool)
        ensures
            r == self.spec_should_emit_delegate(),
    {
        match self.write_types {
            crate::config::WriteTypes::Namespace => false,
            crate::config::WriteTypes::NamespaceAndInteroptopusGlobal => self.namespace_id.as_str().is_empty(),
            crate::config::WriteTypes::All => true,
        }
    }

    /// Delegate support is written in the default namespace under the
    /// globals-including scope and everywhere under `All`.
    pub open spec fn spec_should_emit_delegate(&self) -> bool {
        match self.write_types {
            crate::config::WriteTypes::Namespace => false,
            crate::config::WriteTypes::NamespaceAndInteroptopusGlobal => self.namespace_id@.len()
                == 0,
            crate::config::WriteTypes::All => true,
        }
    }
}

} // verus!
