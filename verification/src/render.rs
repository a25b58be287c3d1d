//! Rendering of type references, parameter lists and constant literals as
//! C# source text.

use crate::config::Interop;
use crate::lang::{ConstantValue, Parameter, Primitive, Signature, Type, TypePattern};
use crate::text::{i64_to_dec_string, spec_dec_digits, spec_i64_dec, u64_to_dec_string};
use vstd::prelude::*;
use vstd::string::StringExecFns;

verus! {

/// The C# name of a primitive type.
pub open spec fn spec_primitive_name(p: Primitive) -> Seq<char> {
    match p {
        Primitive::Void => "void"@,
        Primitive::Bool => "bool"@,
        Primitive::U8 => "byte"@,
        Primitive::U16 => "ushort"@,
        Primitive::U32 => "uint"@,
        Primitive::U64 => "ulong"@,
        Primitive::I8 => "sbyte"@,
        Primitive::I16 => "short"@,
        Primitive::I32 => "int"@,
        Primitive::I64 => "long"@,
        Primitive::F32 => "float"@,
        Primitive::F64 => "double"@,
    }
}

/// The C# name of a primitive type.
pub fn primitive_name(p: &Primitive) -> (r: String)
    ensures
        r@ == spec_primitive_name(*p),
{
    let s: &str = match p {
        Primitive::Void => "void",
        Primitive::Bool => "bool",
        Primitive::U8 => "byte",
        Primitive::U16 => "ushort",
        Primitive::U32 => "uint",
        Primitive::U64 => "ulong",
        Primitive::I8 => "sbyte",
        Primitive::I16 => "short",
        Primitive::I32 => "int",
        Primitive::I64 => "long",
        Primitive::F32 => "float",
        Primitive::F64 => "double",
    };
    s.to_owned()
}

/// The textual type reference used when a type appears in a parameter,
/// return or field position: primitives and patterns lower to built-in
/// names, named types use their exported name, arrays append brackets, and
/// pointers and raw function pointers lower to `IntPtr`.
pub open spec fn spec_type_ref(t: Type) -> Seq<char>
    decreases t,
{
    match t {
        Type::Primitive(p) => spec_primitive_name(p),
        Type::Array(a) => spec_type_ref(*a.element) + "[]"@,
        Type::Enum(x) => x.name@,
        Type::Opaque(x) => x.name@,
        Type::Composite(x) => x.name@,
        Type::FnPointer(_) => "IntPtr"@,
        Type::ReadPointer(_) => "IntPtr"@,
        Type::ReadWritePointer(_) => "IntPtr"@,
        Type::Pattern(p) => match p {
            TypePattern::CStrPointer => "IntPtr"@,
            TypePattern::APIVersion => "ulong"@,
            TypePattern::Slice(y) => "Slice<"@ + spec_type_ref(*y.the_type) + ">"@,
            TypePattern::SliceMut(y) => "SliceMut<"@ + spec_type_ref(*y.the_type) + ">"@,
            TypePattern::OptionOf(y) => "FfiOption<"@ + spec_type_ref(*y.the_type) + ">"@,
            TypePattern::ResultOf(y) => "FfiResult<"@ + spec_type_ref(*y.t_ok) + ", "@
                + spec_type_ref(*y.t_err) + ">"@,
            TypePattern::Bool => "Bool"@,
            TypePattern::CChar => "sbyte"@,
            TypePattern::NamedCallback(c) => c.name@,
            TypePattern::AsyncCallback(c) => c.name@,
            TypePattern::VecOf(y) => "FfiVec<"@ + spec_type_ref(*y.the_type) + ">"@,
            TypePattern::Utf8String => "Utf8String"@,
        },
    }
}

/// The textual type reference of a type, as [`spec_type_ref`] states it.
pub fn type_ref(t: &Type) -> (r: String)
    ensures
        r@ == spec_type_ref(*t),
    decreases *t,
{
    match t {
        Type::Primitive(p) => primitive_name(p),
        Type::Array(a) => type_ref(&a.element).concat("[]"),
        Type::Enum(x) => x.name.clone(),
        Type::Opaque(x) => x.name.clone(),
        Type::Composite(x) => x.name.clone(),
        Type::FnPointer(_) => "IntPtr".to_owned(),
        Type::ReadPointer(_) => "IntPtr".to_owned(),
        Type::ReadWritePointer(_) => "IntPtr".to_owned(),
        Type::Pattern(p) => match p {
            TypePattern::CStrPointer => "IntPtr".to_owned(),
            TypePattern::APIVersion => "ulong".to_owned(),
            TypePattern::Slice(y) => "Slice<".to_owned().concat(
                type_ref(&y.the_type).as_str(),
            ).concat(">"),
            TypePattern::SliceMut(y) => "SliceMut<".to_owned().concat(
                type_ref(&y.the_type).as_str(),
            ).concat(">"),
            TypePattern::OptionOf(y) => "FfiOption<".to_owned().concat(
                type_ref(&y.the_type).as_str(),
            ).concat(">"),
            TypePattern::ResultOf(y) => "FfiResult<".to_owned().concat(
                type_ref(&y.t_ok).as_str(),
            ).concat(", ").concat(type_ref(&y.t_err).as_str()).concat(">"),
            TypePattern::Bool => "Bool".to_owned(),
            TypePattern::CChar => "sbyte".to_owned(),
            TypePattern::NamedCallback(c) => c.name.clone(),
            TypePattern::AsyncCallback(c) => c.name.clone(),
            TypePattern::VecOf(y) => "FfiVec<".to_owned().concat(
                type_ref(&y.the_type).as_str(),
            ).concat(">"),
            TypePattern::Utf8String => "Utf8String".to_owned(),
        },
    }
}

/// The textual type reference used when declaring the native-compatible
/// version of a type for callback interop: slices, UTF-8 strings,
/// composites and enums get a distinct unmanaged variant qualifier, every
/// other type its plain reference.
pub open spec fn spec_native_callback_typespecifier(t: Type) -> Seq<char> {
    match t {
        Type::Pattern(TypePattern::Slice(_)) => spec_type_ref(t) + ".Unmanaged"@,
        Type::Pattern(TypePattern::SliceMut(_)) => spec_type_ref(t) + ".Unmanaged"@,
        Type::Pattern(TypePattern::Utf8String) => spec_type_ref(t) + ".Unmanaged"@,
        Type::Composite(_) => spec_type_ref(t) + ".Unmanaged"@,
        Type::Enum(_) => spec_type_ref(t) + ".Unmanaged"@,
        _ => spec_type_ref(t),
    }
}

/// The list `type name, type name name, …` of a signature's parameters:
/// each parameter as `type name`, separated by commas.
pub open spec fn spec_params_text(ps: Seq<Parameter>) -> Seq<char>
    decreases ps.len(),
{
    if ps.len() == 0 {
        Seq::<char>::empty()
    } else {
        spec_params_text(ps.drop_last()) + (if ps.len() == 1 {
            Seq::<char>::empty()
        } else {
            ", "@
        }) + spec_type_ref(ps.last().ty) + " "@ + ps.last().name@
    }
}

impl Interop {
    /// The textual type reference used when declaring an unmanaged,
    /// native-compatible version of a type for callback interop.
    pub fn to_native_callback_typespecifier(&self, t: &Type) -> (r: String)
        ensures
            r@ == spec_native_callback_typespecifier(*t),
    {
        match t {
            Type::Pattern(TypePattern::Slice(_)) => type_ref(t).concat(".Unmanaged"),
            Type::Pattern(TypePattern::SliceMut(_)) => type_ref(t).concat(".Unmanaged"),
            Type::Pattern(TypePattern::Utf8String) => type_ref(t).concat(".Unmanaged"),
            Type::Composite(_) => type_ref(t).concat(".Unmanaged"),
            Type::Enum(_) => type_ref(t).concat(".Unmanaged"),
            _ => type_ref(t),
        }
    }
}

/// The parameter list of a signature, as [`spec_params_text`] states it.
pub fn params_text(signature: &Signature) -> (r: String)
    ensures
        r@ == spec_params_text(signature.params@),
{
    let ps = &signature.params;
    let mut acc = String::new();
    let mut i: usize = 0;
    proof {
        assert(ps@.take(0) =~= Seq::<Parameter>::empty());
    }
    while i < ps.len()
        invariant
            0 <= i <= ps@.len(),
            acc@ == spec_params_text(ps@.take(i as int)),
        decreases ps@.len() - i,
    {
        proof {
            assert(ps@.take(i as int + 1).drop_last() =~= ps@.take(i as int));
            assert(ps@.take(i as int + 1).last() == ps@[i as int]);
        }
        if i > 0 {
            acc = acc.concat(", ");
        }
        acc = acc.concat(type_ref(&ps[i].ty).as_str());
        acc = acc.concat(" ");
        acc = acc.concat(ps[i].name.as_str());
        i += 1;
    }
    proof {
        assert(ps@.take(ps@.len() as int) =~= ps@);
    }
    acc
}

/// The C# type keyword a constant's literal value is declared with.
pub open spec fn spec_constant_type_name(v: ConstantValue) -> Seq<char> {
    match v {
        ConstantValue::Unsigned(_) => "ulong"@,
        ConstantValue::Signed(_) => "long"@,
        ConstantValue::Boolean(_) => "bool"@,
        ConstantValue::Text(_) => "string"@,
    }
}

/// The C# type keyword a constant's literal value is declared with.
pub fn constant_type_name(v: &ConstantValue) -> (r: String)
    ensures
        r@ == spec_constant_type_name(*v),
{
    match v {
        ConstantValue::Unsigned(_) => "ulong".to_owned(),
        ConstantValue::Signed(_) => "long".to_owned(),
        ConstantValue::Boolean(_) => "bool".to_owned(),
        ConstantValue::Text(_) => "string".to_owned(),
    }
}

/// The C# literal text of a constant's value: decimal digits for integers,
/// the bare keyword for booleans, a quoted literal for strings.
pub open spec fn spec_constant_value_text(v: ConstantValue) -> Seq<char> {
    match v {
        ConstantValue::Unsigned(n) => spec_dec_digits(n as nat),
        ConstantValue::Signed(n) => spec_i64_dec(n as int),
        ConstantValue::Boolean(b) => if b {
            "true"@
        } else {
            "false"@
        },
        ConstantValue::Text(s) => "\""@ + s@ + "\""@,
    }
}

/// The C# literal text of a constant's value.
pub fn constant_value_text(v: &ConstantValue) -> (r: String)
    ensures
        r@ == spec_constant_value_text(*v),
{
    match v {
        ConstantValue::Unsigned(n) => u64_to_dec_string(*n),
        ConstantValue::Signed(n) => i64_to_dec_string(*n),
        ConstantValue::Boolean(b) => if *b {
            "true".to_owned()
        } else {
            "false".to_owned()
        },
        ConstantValue::Text(s) => "\"".to_owned().concat(s.as_str()).concat("\""),
    }
}

} // verus!
