//! The marshalling classifier: a recursive analysis over type graphs
//! (including nested callback signatures) deciding whether a type crossing
//! the boundary needs generated marshalling glue, as opposed to a direct,
//! no-translation mapping.

use crate::config::Interop;
use crate::lang::{Signature, Type, TypePattern};
use vstd::prelude::*;

verus! {

broadcast use vstd::seq::group_seq_axioms, vstd::std_specs::vec::group_vec_axioms;

/// True for the types that always require explicit layout-aware conversion:
/// arrays and composites.
pub open spec fn spec_needs_marshaller(t: Type) -> bool {
    t is Array || t is Composite
}

/// Whether a type needs custom marshalling glue at the boundary: every type
/// needing a marshaller, every slice, and every function pointer or named
/// callback whose signature carries a custom-marshalled delegate.
pub open spec fn spec_is_custom_marshalled(t: Type) -> bool
    decreases t,
{
    spec_needs_marshaller(t) || match t {
        Type::FnPointer(y) => spec_has_custom_marshalled_delegate(y.signature),
        Type::Pattern(TypePattern::NamedCallback(z)) => spec_has_custom_marshalled_delegate(
            z.fnpointer.signature,
        ),
        Type::Pattern(TypePattern::Slice(_)) => true,
        Type::Pattern(TypePattern::SliceMut(_)) => true,
        _ => false,
    }
}

/// Whether any parameter type or the return type of a signature is custom
/// marshalled.
pub open spec fn spec_has_custom_marshalled_types(s: Signature) -> bool
    decreases s,
{
    spec_is_custom_marshalled(*s.rval) || exists|i: int|
        0 <= i < s.params@.len() && spec_is_custom_marshalled(#[trigger] s.params@[i].ty)
}

/// Whether one type, seen as a member of a callback's signature, is a
/// delegate (function pointer or named callback) whose own signature has
/// custom-marshalled types.
pub open spec fn spec_is_custom_marshalled_delegate(t: Type) -> bool
    decreases t,
{
    match t {
        Type::FnPointer(y) => spec_has_custom_marshalled_types(y.signature),
        Type::Pattern(TypePattern::NamedCallback(z)) => spec_has_custom_marshalled_types(
            z.fnpointer.signature,
        ),
        _ => false,
    }
}

/// Whether any parameter type or the return type of a callback's signature
/// is a delegate with custom-marshalled types. Unlike
/// [`spec_has_custom_marshalled_types`] this only recurses into nested
/// function pointers and named callbacks, not into scalar custom-marshalled
/// leaf types.
pub open spec fn spec_has_custom_marshalled_delegate(s: Signature) -> bool
    decreases s,
{
    spec_is_custom_marshalled_delegate(*s.rval) || exists|i: int|
        0 <= i < s.params@.len() && spec_is_custom_marshalled_delegate(
            #[trigger] s.params@[i].ty,
        )
}

/// Whether any parameter of a signature is a named or asynchronous callback
/// pattern, signalling that the function should additionally emit an
/// overload accepting a host-native delegate.
pub open spec fn spec_has_overloadable(s: Signature) -> bool {
    exists|i: int| 0 <= i < s.params@.len() && spec_is_callback_pattern(#[trigger] s.params@[i].ty)
}

/// Whether a type is a named or asynchronous callback pattern.
pub open spec fn spec_is_callback_pattern(t: Type) -> bool {
    match t {
        Type::Pattern(p) => p is NamedCallback || p is AsyncCallback,
        _ => false,
    }
}

impl Interop {
    /// Whether a type needs a generated marshaller: true for array and
    /// composite types unconditionally, false for every other variant.
    pub fn should_emit_marshaller(&self, ctype: &Type) -> (r: bool)
        ensures
            r == spec_needs_marshaller(*ctype),
    {
        match ctype {
            Type::Array(_) => true,
            Type::Composite(_) => true,
            _ => false,
        }
    }

    /// Whether any of the given types needs a generated marshaller.
    pub fn has_emittable_marshallers(&self, types: &Vec<Type>) -> (r: bool)
        ensures
            r == exists|i: int|
                0 <= i < types@.len() && spec_needs_marshaller(#[trigger] types@[i]),
    {
        let mut i: usize = 0;
        while i < types.len()
            invariant
                0 <= i <= types@.len(),
                forall|j: int| 0 <= j < i ==> !spec_needs_marshaller(#[trigger] types@[j]),
            decreases types@.len() - i,
        {
            if self.should_emit_marshaller(&types[i]) {
                return true;
            }
            i += 1;
        }
        false
    }

    /// Whether a type is custom marshalled, as
    /// [`spec_is_custom_marshalled`] states it.
    pub fn is_custom_marshalled(&self, x: &Type) -> (r: bool)
        ensures
            r == spec_is_custom_marshalled(*x),
        decreases *x,
    {
        if self.should_emit_marshaller(x) {
            return true;
        }
        match x {
            Type::FnPointer(y) => self.has_custom_marshalled_delegate(y.signature()),
            Type::Pattern(TypePattern::NamedCallback(z)) => self.has_custom_marshalled_delegate(
                z.fnpointer().signature(),
            ),
            Type::Pattern(TypePattern::Slice(_)) => true,
            Type::Pattern(TypePattern::SliceMut(_)) => true,
            _ => false,
        }
    }

    /// Whether any parameter type or the return type of a signature is
    /// custom marshalled.
    pub fn has_custom_marshalled_types(&self, signature: &Signature) -> (r: bool)
        ensures
            r == spec_has_custom_marshalled_types(*signature),
        decreases *signature,
    {
        let mut i: usize = 0;
        while i < signature.params.len()
            invariant
                0 <= i <= signature.params@.len(),
                forall|j: int|
                    0 <= j < i ==> !spec_is_custom_marshalled(#[trigger] signature.params@[j].ty),
            decreases signature.params@.len() - i,
        {
            proof {
                assert(decreases_to!(*signature => signature.params));
                assert(decreases_to!(signature.params@ => signature.params@[i as int]));
            }
            if self.is_custom_marshalled(&signature.params[i].ty) {
                return true;
            }
            i += 1;
        }
        self.is_custom_marshalled(&signature.rval)
    }

    /// Whether any parameter type or the return type of a callback's
    /// signature is a nested delegate with custom-marshalled types.
    pub fn has_custom_marshalled_delegate(&self, signature: &Signature) -> (r: bool)
        ensures
            r == spec_has_custom_marshalled_delegate(*signature),
        decreases *signature,
    {
        let mut i: usize = 0;
        while i < signature.params.len()
            invariant
                0 <= i <= signature.params@.len(),
                forall|j: int|
                    0 <= j < i ==> !spec_is_custom_marshalled_delegate(
                        #[trigger] signature.params@[j].ty,
                    ),
            decreases signature.params@.len() - i,
        {
            proof {
                assert(decreases_to!(*signature => signature.params));
                assert(decreases_to!(signature.params@ => signature.params@[i as int]));
            }
            let custom = match &signature.params[i].ty {
                Type::FnPointer(y) => self.has_custom_marshalled_types(y.signature()),
                Type::Pattern(TypePattern::NamedCallback(z)) => self.has_custom_marshalled_types(
                    z.fnpointer().signature(),
                ),
                _ => false,
            };
            if custom {
                return true;
            }
            i += 1;
        }
        match &*signature.rval {
            Type::FnPointer(y) => self.has_custom_marshalled_types(y.signature()),
            Type::Pattern(TypePattern::NamedCallback(z)) => self.has_custom_marshalled_types(
                z.fnpointer().signature(),
            ),
            _ => false,
        }
    }

    /// Whether any parameter of the signature is a named or asynchronous
    /// callback pattern.
    pub fn has_overloadable(&self, signature: &Signature) -> (r: bool)
        ensures
            r == spec_has_overloadable(*signature),
    {
        let mut i: usize = 0;
        while i < signature.params.len()
            invariant
                0 <= i <= signature.params@.len(),
                forall|j: int|
                    0 <= j < i ==> !spec_is_callback_pattern(#[trigger] signature.params@[j].ty),
            decreases signature.params@.len() - i,
        {
            let overloadable = match &signature.params[i].ty {
                Type::Pattern(p) => match p {
                    TypePattern::NamedCallback(_) => true,
                    TypePattern::AsyncCallback(_) => true,
                    _ => false,
                },
                _ => false,
            };
            if overloadable {
                return true;
            }
            i += 1;
        }
        false
    }
}

} // verus!
