//! The attribute model of the annotation front-end: the options one type
//! annotation carries, and the visibility decision for each field, with the
//! invalid-override failure surfaced instead of aborting.

use crate::config::spec_mapping_lookup;
use crate::errors::GenError;
use crate::lang::FieldVisibility;
use vstd::prelude::*;

verus! {

/// The options parsed from one type annotation.
pub struct Attributes {
    /// Treat the type as opaque.
    pub opaque: bool,
    /// Treat the type as transparent.
    pub transparent: bool,
    /// Pack the layout.
    pub packed: bool,
    /// Represent an enum as an eight-bit integer.
    pub repr_u8: bool,
    /// Represent an enum as a sixteen-bit integer.
    pub repr_u16: bool,
    /// Represent an enum as a thirty-two-bit integer.
    pub repr_u32: bool,
    /// Represent an enum as a sixty-four-bit integer.
    pub repr_u64: bool,
    /// An explicit alignment, when given.
    pub align: Option<usize>,
    /// The patterns the type opts into.
    pub patterns: Vec<String>,
    /// The fields to skip.
    pub skip: Vec<String>,
    /// Per-field visibility overrides: field name (or `_all`) to `public`
    /// or `private`.
    pub visibility: Vec<(String, String)>,
    /// An explicit exported name, when given.
    pub name: Option<String>,
    /// An explicit owning namespace, when given.
    pub namespace: Option<String>,
    /// Print the generated expansion while building.
    pub debug: bool,
}

/// The field visibility one override token denotes, when it is valid.
pub open spec fn spec_vis_of_token(tok: Seq<char>) -> Option<FieldVisibility> {
    if tok == "public"@ {
        Some(FieldVisibility::Public)
    } else if tok == "private"@ {
        Some(FieldVisibility::Private)
    } else {
        None
    }
}

/// The visibility a field gets: its declared visibility, unless an override
/// for its name — or, stronger still, for `_all` — replaces it. An override
/// token that is neither `public` nor `private` is the invalid token the
/// decision fails with: the per-name token is checked first, then `_all`.
pub open spec fn spec_visibility_for_field(
    overrides: Seq<(String, String)>,
    declared_public: bool,
    name: Seq<char>,
) -> Result<FieldVisibility, Seq<char>> {
    let base = if declared_public {
        FieldVisibility::Public
    } else {
        FieldVisibility::Private
    };
    let named = match spec_mapping_lookup(overrides, name) {
        Some(tok) => match spec_vis_of_token(tok) {
            Some(v) => Ok(v),
            None => Err(tok),
        },
        None => Ok(base),
    };
    match named {
        Err(tok) => Err(tok),
        Ok(v) => match spec_mapping_lookup(overrides, "_all"@) {
            Some(tok) => match spec_vis_of_token(tok) {
                Some(v2) => Ok(v2),
                None => Err(tok),
            },
            None => Ok(v),
        },
    }
}

/// Looks up the first override entry for a key.
fn override_get<'a>(overrides: &'a Vec<(String, String)>, key: &String) -> (r: Option<&'a String>)
    ensures
        match r {
            Some(tok) => spec_mapping_lookup(overrides@, key@) == Some(tok@),
            None => spec_mapping_lookup(overrides@, key@) is None,
        },
{
    let mut i: usize = 0;
    proof {
        assert(overrides@.skip(0) =~= overrides@);
    }
    while i < overrides.len()
        invariant
            0 <= i <= overrides@.len(),
            spec_mapping_lookup(overrides@.skip(i as int), key@) == spec_mapping_lookup(
                overrides@,
                key@,
            ),
        decreases overrides@.len() - i,
    {
        let ghost pre = overrides@.skip(i as int);
        proof {
            assert(pre[0] == overrides@[i as int]);
            assert(pre.drop_first() =~= overrides@.skip(i as int + 1));
        }
        if overrides[i].0 == *key {
            return Some(&overrides[i].1);
        }
        i += 1;
    }
    proof {
        assert(overrides@.skip(overrides@.len() as int) =~= Seq::<(String, String)>::empty());
    }
    None
}

/// Decides one override token; fails on a token that is neither `public`
/// nor `private`.
fn vis_of_token(tok: &String) -> (r: Result<FieldVisibility, GenError>)
    ensures
        match r {
            Ok(v) => spec_vis_of_token(tok@) == Some(v),
            Err(e) => {
                &&& spec_vis_of_token(tok@) is None
                &&& e matches GenError::InvalidVisibilityValue(v) && v@ == tok@
            },
        },
{
    let public_tok = "public".to_owned();
    let private_tok = "private".to_owned();
    if *tok == public_tok {
        Ok(FieldVisibility::Public)
    } else if *tok == private_tok {
        Ok(FieldVisibility::Private)
    } else {
        Err(GenError::InvalidVisibilityValue(tok.clone()))
    }
}

impl Attributes {
    /// The visibility a field gets under these attributes, given whether it
    /// was declared public and its name, as [`spec_visibility_for_field`]
    /// states it; an invalid override token is surfaced as the
    /// invalid-visibility failure instead of aborting.
    pub fn visibility_for_field(&self, declared_public: bool, name: &String) -> (r: Result<
        FieldVisibility,
        GenError,
    >)
        ensures
            match r {
                Ok(v) => spec_visibility_for_field(self.visibility@, declared_public, name@) == Ok::<
                    FieldVisibility,
                    Seq<char>,
                >(v),
                Err(e) => {
                    &&& e matches GenError::InvalidVisibilityValue(tok)
                        && spec_visibility_for_field(self.visibility@, declared_public, name@)
                        == Err::<FieldVisibility, Seq<char>>(tok@)
                },
            },
    {
        let mut rval = if declared_public {
            FieldVisibility::Public
        } else {
            FieldVisibility::Private
        };
        if let Some(tok) = override_get(&self.visibility, name) {
            match vis_of_token(tok) {
                Ok(v) => {
                    rval = v;
                },
                Err(e) => {
                    return Err(e);
                },
            }
        }
        let all_key = "_all".to_owned();
        if let Some(tok) = override_get(&self.visibility, &all_key) {
            match vis_of_token(tok) {
                Ok(v) => {
                    rval = v;
                },
                Err(e) => {
                    return Err(e);
                },
            }
        }
        Ok(rval)
    }
}

} // verus!
