//! The language-agnostic type model: the inventory of functions, constants
//! and types that one generation run describes, together with the metadata
//! (owning module, documentation) attached to every named item.

use vstd::prelude::*;

verus! {

/// Metadata attached to every function, constant and named type: the owning
/// module/namespace identifier and optional documentation text.
pub struct Meta {
    /// The owning module identifier; resolved through the namespace mapping.
    pub module: String,
    /// Optional documentation text.
    pub docs: Option<String>,
}

impl Meta {
    /// The owning module identifier.
    pub fn module(&self) -> (r: &String)
        ensures
            r@ == self.module@,
    {
        &self.module
    }
}

/// A primitive, directly representable type.
pub enum Primitive {
    Void,
    Bool,
    U8,
    U16,
    U32,
    U64,
    I8,
    I16,
    I32,
    I64,
    F32,
    F64,
}

/// A fixed-size array of one element type.
pub struct ArrayType {
    /// The element type.
    pub element: Box<Type>,
    /// The number of elements.
    pub len: usize,
}

/// A C-style enumeration.
pub struct EnumType {
    /// The exported name.
    pub name: String,
    /// The variant names, in declaration order.
    pub variants: Vec<String>,
    /// Owning module and documentation.
    pub meta: Meta,
}

/// A type only ever observed behind a pointer; never recursed into.
pub struct OpaqueType {
    /// The exported name.
    pub name: String,
    /// Owning module and documentation.
    pub meta: Meta,
}

/// One named, typed field of a composite type.
pub struct CompositeField {
    /// The field name.
    pub name: String,
    /// Whether the field was declared public.
    pub visibility: FieldVisibility,
    /// The field type.
    pub ty: Type,
}

/// The declared visibility of a composite field.
pub enum FieldVisibility {
    Public,
    Private,
}

/// A struct-like type with named fields.
pub struct Composite {
    /// The exported name.
    pub name: String,
    /// The fields, in declaration order.
    pub fields: Vec<CompositeField>,
    /// Owning module and documentation.
    pub meta: Meta,
}

/// One named parameter of a signature.
pub struct Parameter {
    /// The parameter name.
    pub name: String,
    /// The parameter type.
    pub ty: Type,
}

/// An ordered sequence of parameters plus one return type. The ordering is
/// significant: it determines emitted parameter order.
pub struct Signature {
    /// The parameters, in declaration order.
    pub params: Vec<Parameter>,
    /// The return type.
    pub rval: Box<Type>,
}

/// A raw function pointer with a full signature.
pub struct FnPointer {
    /// The pointed-to function's signature.
    pub signature: Signature,
}

impl FnPointer {
    /// The pointed-to function's signature.
    pub fn signature(&self) -> (r: &Signature)
        ensures
            r == &self.signature,
    {
        &self.signature
    }
}

/// A named or asynchronous callback: a function pointer re-exposed under an
/// idiomatic delegate name.
pub struct CallbackDef {
    /// The delegate name.
    pub name: String,
    /// The wrapped function pointer.
    pub fnpointer: FnPointer,
    /// Owning module and documentation.
    pub meta: Meta,
}

impl CallbackDef {
    /// The wrapped function pointer.
    pub fn fnpointer(&self) -> (r: &FnPointer)
        ensures
            r == &self.fnpointer,
    {
        &self.fnpointer
    }
}

/// A pattern wrapping one element type (slice, option, vec).
pub struct Wrapped {
    /// The wrapped element type.
    pub the_type: Box<Type>,
    /// Owning module and documentation.
    pub meta: Meta,
}

/// A fallible-result pattern carrying a success and an error type.
pub struct ResultPattern {
    /// The success type.
    pub t_ok: Box<Type>,
    /// The error type.
    pub t_err: Box<Type>,
    /// Owning module and documentation.
    pub meta: Meta,
}

/// A recognized higher-level FFI construct that requires coordinated code
/// generation beyond a plain type mapping.
pub enum TypePattern {
    /// A null-terminated C string pointer.
    CStrPointer,
    /// The API version / ABI guard marker.
    APIVersion,
    /// An immutable slice: pointer plus length.
    Slice(Wrapped),
    /// A mutable slice: pointer plus length.
    SliceMut(Wrapped),
    /// An optional value.
    OptionOf(Wrapped),
    /// A fallible result value.
    ResultOf(ResultPattern),
    /// The cross-cutting FFI-safe boolean wrapper.
    Bool,
    /// An FFI-safe C character.
    CChar,
    /// A named callback with a delegate type.
    NamedCallback(CallbackDef),
    /// An asynchronous completion callback.
    AsyncCallback(CallbackDef),
    /// A growable array.
    VecOf(Wrapped),
    /// A UTF-8 string; lowers to a built-in representation.
    Utf8String,
}

/// A type crossing the FFI boundary: a closed sum over every representable
/// construct.
pub enum Type {
    /// A primitive type.
    Primitive(Primitive),
    /// A fixed-size array; inlined at use sites, never a standalone declaration.
    Array(ArrayType),
    /// A C-style enumeration.
    Enum(EnumType),
    /// An opaque type.
    Opaque(OpaqueType),
    /// A struct-like type with named fields.
    Composite(Composite),
    /// A raw function pointer.
    FnPointer(FnPointer),
    /// A `*const T` pointer.
    ReadPointer(Box<Type>),
    /// A `*mut T` pointer.
    ReadWritePointer(Box<Type>),
    /// A higher-level pattern.
    Pattern(TypePattern),
}

/// A constant's literal value.
pub enum ConstantValue {
    /// An unsigned integer literal.
    Unsigned(u64),
    /// A signed integer literal.
    Signed(i64),
    /// A boolean literal.
    Boolean(bool),
    /// A string literal.
    Text(String),
}

/// An exported constant: a name, a typed literal value and its metadata.
pub struct Constant {
    /// The exported name.
    pub name: String,
    /// The literal value.
    pub value: ConstantValue,
    /// Owning module and documentation.
    pub meta: Meta,
}

impl Constant {
    /// The constant's metadata.
    pub fn meta(&self) -> (r: &Meta)
        ensures
            r == &self.meta,
    {
        &self.meta
    }
}

/// An exported function: a name, a signature and its metadata.
pub struct Function {
    /// The exported (raw) name.
    pub name: String,
    /// The parameter and return types.
    pub signature: Signature,
    /// Owning module and documentation.
    pub meta: Meta,
}

impl Function {
    /// The function's metadata.
    pub fn meta(&self) -> (r: &Meta)
        ensures
            r == &self.meta,
    {
        &self.meta
    }

    /// The function's signature.
    pub fn signature(&self) -> (r: &Signature)
        ensures
            r == &self.signature,
    {
        &self.signature
    }
}

/// The root entity: the complete, resolved description of a library's
/// exported functions, constants and types, in stable order. Immutable for
/// the duration of one generation run.
pub struct Inventory {
    /// The exported functions.
    pub functions: Vec<Function>,
    /// The exported constants.
    pub constants: Vec<Constant>,
    /// The types referenced across the boundary.
    pub types: Vec<Type>,
    /// The interop hash of the inventory, computed when it was built; quoted
    /// in the file header and by the ABI guard.
    pub hash: u64,
}

impl Inventory {
    /// An empty inventory.
    pub fn new_empty() -> (r: Inventory)
        ensures
            r.functions@.len() == 0,
            r.constants@.len() == 0,
            r.types@.len() == 0,
            r.hash == 0,
    {
        Inventory { functions: Vec::new(), constants: Vec::new(), types: Vec::new(), hash: 0 }
    }

    /// The exported functions.
    pub fn functions(&self) -> (r: &Vec<Function>)
        ensures
            r == &self.functions,
    {
        &self.functions
    }

    /// The exported constants.
    pub fn constants(&self) -> (r: &Vec<Constant>)
        ensures
            r == &self.constants,
    {
        &self.constants
    }

    /// The types referenced across the boundary.
    pub fn types(&self) -> (r: &Vec<Type>)
        ensures
            r == &self.types,
    {
        &self.types
    }
}

} // verus!
