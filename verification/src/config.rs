//! The generation configuration: output class and namespace naming, the
//! namespace mapping table, visibility and write-scope policies, feature
//! toggles, and the inventory one run works on. Constructed once per run
//! through [`InteropBuilder`] and read-only thereafter.

use crate::lang::Inventory;
use vstd::prelude::*;

verus! {

/// How to convert raw exported function names to C# names.
#[derive(Copy, Clone, Debug, Eq, PartialEq)]
pub enum FunctionNameFlavor<'a> {
    /// Takes the name as it is written in the library.
    RawFFIName,
    /// Converts the name to the idiomatic method casing.
    CSharpMethodWithClass,
    /// Converts the name to the idiomatic method casing and strips the given
    /// class name prefix.
    CSharpMethodWithoutClass(&'a str),
}

/// The types to write for the given generation run.
#[derive(Copy, Clone, Debug, Eq, PartialEq, Structural)]
pub enum WriteTypes {
    /// Only write items defined in the library for this namespace.
    Namespace,
    /// Write types in this namespace and cross-cutting global types.
    NamespaceAndInteroptopusGlobal,
    /// Write every type in the library, regardless of namespace association.
    All,
}

impl WriteTypes {
    /// True iff this write scope includes the cross-cutting global types.
    pub fn write_interoptopus_globals(self) -> (r: bool)
        ensures
            r == self.spec_write_interoptopus_globals(),
    {
        match self {
            Self::Namespace => false,
            Self::NamespaceAndInteroptopusGlobal => true,
            Self::All => true,
        }
    }

    /// The write scope includes globals exactly when it is not namespace-only.
    pub open spec fn spec_write_interoptopus_globals(self) -> bool {
        !(self is Namespace)
    }
}

/// The access modifiers for generated C# types.
#[derive(Copy, Clone, Debug, Eq, PartialEq, Structural)]
pub enum Visibility {
    /// Mimics the declared visibility.
    AsDeclared,
    /// Generates all types as `public`.
    ForcePublic,
    /// Generates all types as `internal`.
    ForceInternal,
}

impl Visibility {
    /// The keyword this visibility policy puts before generated declarations.
    /// `AsDeclared` currently maps everything to `public`, mirroring the
    /// behaviour of emitting every declaration as publicly visible.
    pub fn to_access_modifier(self) -> (r: &'static str)
        ensures
            r@ == self.spec_access_modifier(),
    {
        proof {
            reveal_strlit("public");
            reveal_strlit("internal");
        }
        match self {
            Self::AsDeclared => "public",
            Self::ForcePublic => "public",
            Self::ForceInternal => "internal",
        }
    }

    /// The modifier is `internal` only under `ForceInternal`, else `public`.
    pub open spec fn spec_access_modifier(self) -> Seq<char> {
        if self is ForceInternal {
            "internal"@
        } else {
            "public"@
        }
    }
}

/// The table resolving a logical module identifier to a fully-qualified
/// output namespace name. Lookup returns the first entry with the given id.
pub struct NamespaceMappings {
    /// The (module id, fully-qualified name) entries, in insertion order.
    pub entries: Vec<(String, String)>,
}

/// The fully-qualified name that `entries` resolves `id` to: the second
/// component of the first entry whose first component equals `id`.
pub open spec fn spec_mapping_lookup(entries: Seq<(String, String)>, id: Seq<char>) -> Option<
    Seq<char>,
>
    decreases entries.len(),
{
    if entries.len() == 0 {
        None
    } else if entries[0].0@ == id {
        Some(entries[0].1@)
    } else {
        spec_mapping_lookup(entries.drop_first(), id)
    }
}

impl NamespaceMappings {
    /// The fully-qualified name this table resolves `id` to, if any.
    pub open spec fn spec_get(&self, id: Seq<char>) -> Option<Seq<char>> {
        spec_mapping_lookup(self.entries@, id)
    }

    /// Creates a new mapping table whose default namespace (the empty module
    /// id) resolves to the given fully-qualified name.
    pub fn new(default_fqn: &str) -> (r: NamespaceMappings)
        ensures
            r.entries@.len() == 1,
            r.entries@[0].0@ == Seq::<char>::empty(),
            r.entries@[0].1@ == default_fqn@,
            r.spec_get(Seq::<char>::empty()) == Some::<Seq<char>>(default_fqn@),
    {
        let mut entries: Vec<(String, String)> = Vec::new();
        entries.push((String::new(), default_fqn.to_owned()));
        let r = NamespaceMappings { entries };
        proof {
            assert(r.entries@.drop_first() =~= Seq::<(String, String)>::empty());
        }
        r
    }

    /// Adds a mapping from a module id to a fully-qualified name and returns
    /// the extended table. An id already present keeps its earlier entry.
    pub fn add(self, id: &str, fqn: &str) -> (r: NamespaceMappings)
        ensures
            r.entries@.len() == self.entries@.len() + 1,
            r.entries@.take(self.entries@.len() as int) == self.entries@,
            r.entries@.last().0@ == id@,
            r.entries@.last().1@ == fqn@,
    {
        let mut entries = self.entries;
        entries.push((id.to_owned(), fqn.to_owned()));
        let r = NamespaceMappings { entries };
        proof {
            assert(r.entries@.take(self.entries@.len() as int) =~= self.entries@);
        }
        r
    }

    /// Looks up the fully-qualified name mapped to a module id.
    pub fn get(&self, id: &String) -> (r: Option<&String>)
        ensures
            match r {
                Some(fqn) => self.spec_get(id@) == Some(fqn@),
                None => self.spec_get(id@) is None,
            },
    {
        let mut i: usize = 0;
        proof {
            assert(self.entries@.skip(0) =~= self.entries@);
        }
        while i < self.entries.len()
            invariant
                0 <= i <= self.entries@.len(),
                spec_mapping_lookup(self.entries@.skip(i as int), id@) == self.spec_get(id@),
            decreases self.entries@.len() - i,
        {
            let ghost pre = self.entries@.skip(i as int);
            proof {
                assert(pre.len() == self.entries@.len() - i);
                assert(pre[0] == self.entries@[i as int]);
                assert(pre.drop_first() =~= self.entries@.skip(i as int + 1));
            }
            if self.entries[i].0 == *id {
                proof {
                    assert(spec_mapping_lookup(pre, id@) == Some(self.entries@[i as int].1@));
                }
                return Some(&self.entries[i].1);
            }
            proof {
                assert(spec_mapping_lookup(pre, id@) == spec_mapping_lookup(
                    pre.drop_first(),
                    id@,
                ));
            }
            i += 1;
        }
        proof {
            assert(self.entries@.skip(i as int) =~= Seq::<(String, String)>::empty());
        }
        None
    }
}

/// One full generation run's configuration plus the inventory it works on.
/// Every field is read-only during generation.
pub struct Interop {
    /// The file header comment, e.g., `// (c) My Company`; emitted verbatim
    /// as the first line and followed by generated metadata comment lines.
    pub file_header_comment: String,
    /// Name of the static class for interop methods, e.g., `Interop`.
    pub class: String,
    /// Name of the static class for interop constants. If absent, `class` is
    /// used for both.
    pub class_constants: Option<String>,
    /// Name of the native library to load, e.g., `my_library`.
    pub dll_name: String,
    /// Maps which module id belongs into which fully-qualified namespace.
    pub namespace_mappings: NamespaceMappings,
    /// The module id of the namespace this run writes.
    pub namespace_id: String,
    /// The visibility access modifiers for generated types.
    pub visibility_types: Visibility,
    /// Which types to write.
    pub write_types: WriteTypes,
    /// Also generate markers for easier debugging.
    pub debug: bool,
    /// Enrich user documentation with safety warnings and API use hints.
    pub doc_hints: bool,
    /// The inventory this run describes.
    pub inventory: Inventory,
}

/// True of the default configuration: an empty inventory, the default header
/// comment, class `Interop`, library `library`, the default namespace mapped
/// to `My.Company`, and namespace-plus-globals write scope.
pub open spec fn is_default_config(r: Interop) -> bool {
    &&& r.file_header_comment@ == "// <auto-generated>"@
    &&& r.class@ == "Interop"@
    &&& r.class_constants is None
    &&& r.dll_name@ == "library"@
    &&& r.namespace_mappings.spec_get(Seq::<char>::empty()) == Some("My.Company"@)
    &&& r.namespace_id@ == Seq::<char>::empty()
    &&& r.visibility_types is AsDeclared
    &&& r.write_types is NamespaceAndInteroptopusGlobal
    &&& r.debug == false
    &&& r.doc_hints == true
    &&& r.inventory.functions@.len() == 0
    &&& r.inventory.constants@.len() == 0
    &&& r.inventory.types@.len() == 0
}

impl Default for Interop {
    /// The default configuration, as [`is_default_config`] describes it.
    fn default() -> (r: Self)
        ensures
            is_default_config(r),
    {
        Self {
            inventory: Inventory::new_empty(),
            file_header_comment: "// <auto-generated>".to_owned(),
            class: "Interop".to_owned(),
            class_constants: None,
            dll_name: "library".to_owned(),
            namespace_mappings: NamespaceMappings::new("My.Company"),
            namespace_id: String::new(),
            visibility_types: Visibility::AsDeclared,
            write_types: WriteTypes::NamespaceAndInteroptopusGlobal,
            debug: false,
            doc_hints: true,
        }
    }
}

impl Interop {
    /// Creates a new [`InteropBuilder`], the intended way to get an `Interop`.
    pub fn builder() -> (r: InteropBuilder)
        ensures
            is_default_config(r.value),
    {
        InteropBuilder::new()
    }
}

/// Builds an [`Interop`] configuration: starts from the default and
/// overwrites one field per setter.
pub struct InteropBuilder {
    /// The configuration built so far.
    pub value: Interop,
}

impl InteropBuilder {
    /// Creates a new builder instance holding the default configuration.
    pub fn new() -> (r: Self)
        ensures
            is_default_config(r.value),
    {
        InteropBuilder { value: Interop::default() }
    }

    /// Sets the file header comment.
    pub fn file_header_comment(self, v: String) -> (r: Self)
        ensures
            r.value == (Interop { file_header_comment: v, ..self.value }),
    {
        InteropBuilder { value: Interop { file_header_comment: v, ..self.value } }
    }

    /// Sets the name of the static class for interop methods.
    pub fn class(self, v: String) -> (r: Self)
        ensures
            r.value == (Interop { class: v, ..self.value }),
    {
        InteropBuilder { value: Interop { class: v, ..self.value } }
    }

    /// Sets the name of the static class for interop constants.
    pub fn class_constants(self, v: Option<String>) -> (r: Self)
        ensures
            r.value == (Interop { class_constants: v, ..self.value }),
    {
        InteropBuilder { value: Interop { class_constants: v, ..self.value } }
    }

    /// Sets the name of the native library to load.
    pub fn dll_name(self, v: String) -> (r: Self)
        ensures
            r.value == (Interop { dll_name: v, ..self.value }),
    {
        InteropBuilder { value: Interop { dll_name: v, ..self.value } }
    }

    /// Sets the namespace mapping table.
    pub fn namespace_mappings(self, v: NamespaceMappings) -> (r: Self)
        ensures
            r.value == (Interop { namespace_mappings: v, ..self.value }),
    {
        InteropBuilder { value: Interop { namespace_mappings: v, ..self.value } }
    }

    /// Sets the module id of the namespace to write.
    pub fn namespace_id(self, v: String) -> (r: Self)
        ensures
            r.value == (Interop { namespace_id: v, ..self.value }),
    {
        InteropBuilder { value: Interop { namespace_id: v, ..self.value } }
    }

    /// Sets the visibility access modifiers for generated types.
    pub fn visibility_types(self, v: Visibility) -> (r: Self)
        ensures
            r.value == (Interop { visibility_types: v, ..self.value }),
    {
        InteropBuilder { value: Interop { visibility_types: v, ..self.value } }
    }

    /// Sets which types to write.
    pub fn write_types(self, v: WriteTypes) -> (r: Self)
        ensures
            r.value == (Interop { write_types: v, ..self.value }),
    {
        InteropBuilder { value: Interop { write_types: v, ..self.value } }
    }

    /// Sets whether to generate markers for easier debugging.
    pub fn debug(self, v: bool) -> (r: Self)
        ensures
            r.value == (Interop { debug: v, ..self.value }),
    {
        InteropBuilder { value: Interop { debug: v, ..self.value } }
    }

    /// Sets whether to enrich user documentation with hints.
    pub fn doc_hints(self, v: bool) -> (r: Self)
        ensures
            r.value == (Interop { doc_hints: v, ..self.value }),
    {
        InteropBuilder { value: Interop { doc_hints: v, ..self.value } }
    }

    /// Sets the inventory to generate bindings for.
    pub fn inventory(self, v: Inventory) -> (r: Self)
        ensures
            r.value == (Interop { inventory: v, ..self.value }),
    {
        InteropBuilder { value: Interop { inventory: v, ..self.value } }
    }

    /// Finishes building and returns the configuration.
    pub fn build(self) -> (r: Interop)
        ensures
            r == self.value,
    {
        self.value
    }
}

} // verus!
