//! The naming engine: deterministic transformation of raw exported
//! identifiers into host-language-idiomatic names under a selectable flavor.

use crate::config::FunctionNameFlavor;
use crate::text::{str_chars, string_from_chars};
use vstd::prelude::*;

verus! {

/// The upper-case equivalent of an ASCII letter; any other character is
/// unchanged.
pub open spec fn spec_to_upper(c: char) -> char {
    if 'a' <= c && c <= 'z' {
        ((c as u8) - 32) as char
    } else {
        c
    }
}

/// Upper-cases one ASCII letter.
pub fn to_upper(c: char) -> (r: char)
    ensures
        r == spec_to_upper(c),
{
    if 'a' <= c && c <= 'z' {
        ((c as u8) - 32) as char
    } else {
        c
    }
}

/// The idiomatic method casing of a raw identifier, starting from the given
/// capitalization state: underscores are dropped and each character that
/// follows one (or starts the name) is upper-cased.
pub open spec fn spec_pascal_from(s: Seq<char>, up: bool) -> Seq<char>
    decreases s.len(),
{
    if s.len() == 0 {
        Seq::<char>::empty()
    } else if s[0] == '_' {
        spec_pascal_from(s.drop_first(), true)
    } else if up {
        seq![spec_to_upper(s[0])] + spec_pascal_from(s.drop_first(), false)
    } else {
        seq![s[0]] + spec_pascal_from(s.drop_first(), false)
    }
}

/// The idiomatic method casing of a raw identifier: `pattern_ffi_name`
/// becomes `PatternFfiName`.
pub open spec fn spec_pascal(s: Seq<char>) -> Seq<char> {
    spec_pascal_from(s, true)
}

/// Whether two character sequences are equal up to ASCII case.
pub open spec fn spec_eq_ignore_case(a: Seq<char>, b: Seq<char>) -> bool {
    a.len() == b.len() && forall|i: int|
        0 <= i < a.len() ==> spec_to_upper(a[i]) == spec_to_upper(b[i])
}

/// The display name a raw exported function identifier gets under a naming
/// flavor: the raw name itself, its idiomatic method casing, or the method
/// casing with a type-name prefix stripped case-insensitively.
pub open spec fn spec_function_name(raw: Seq<char>, flavor: FunctionNameFlavor) -> Seq<char> {
    match flavor {
        FunctionNameFlavor::RawFFIName => raw,
        FunctionNameFlavor::CSharpMethodWithClass => spec_pascal(raw),
        FunctionNameFlavor::CSharpMethodWithoutClass(class) => {
            let converted = spec_pascal(raw);
            if class@.len() <= converted.len() && spec_eq_ignore_case(
                converted.take(class@.len() as int),
                class@,
            ) {
                converted.skip(class@.len() as int)
            } else {
                converted
            }
        },
    }
}

/// Converts a character vector to idiomatic method casing.
fn pascal_chars(s: &Vec<char>) -> (r: Vec<char>)
    ensures
        r@ == spec_pascal(s@),
{
    let mut v: Vec<char> = Vec::new();
    let mut up = true;
    let mut i: usize = 0;
    proof {
        assert(s@.skip(0) =~= s@);
    }
    while i < s.len()
        invariant
            0 <= i <= s@.len(),
            v@ + spec_pascal_from(s@.skip(i as int), up) == spec_pascal(s@),
        decreases s@.len() - i,
    {
        let ghost pre = s@.skip(i as int);
        proof {
            assert(pre[0] == s@[i as int]);
            assert(pre.drop_first() =~= s@.skip(i as int + 1));
        }
        let c = s[i];
        if c == '_' {
            up = true;
        } else if up {
            v.push(to_upper(c));
            up = false;
            proof {
                assert(v@ + spec_pascal_from(s@.skip(i as int + 1), false) =~= spec_pascal(s@));
            }
        } else {
            v.push(c);
            proof {
                assert(v@ + spec_pascal_from(s@.skip(i as int + 1), false) =~= spec_pascal(s@));
            }
        }
        i += 1;
    }
    proof {
        assert(s@.skip(s@.len() as int) =~= Seq::<char>::empty());
        assert(v@ + Seq::<char>::empty() =~= v@);
    }
    v
}

/// The idiomatic method casing of a raw identifier, as a string.
pub fn to_pascal_case(s: &str) -> (r: String)
    ensures
        r@ == spec_pascal(s@),
{
    let chars = str_chars(s);
    let converted = pascal_chars(&chars);
    string_from_chars(&converted)
}

/// Whether two character vectors are equal up to ASCII case.
fn eq_ignore_case(a: &Vec<char>, b: &Vec<char>) -> (r: bool)
    ensures
        r == spec_eq_ignore_case(a@, b@),
{
    if a.len() != b.len() {
        return false;
    }
    let mut i: usize = 0;
    while i < a.len()
        invariant
            0 <= i <= a@.len(),
            a@.len() == b@.len(),
            forall|j: int| 0 <= j < i ==> spec_to_upper(a@[j]) == spec_to_upper(b@[j]),
        decreases a@.len() - i,
    {
        if to_upper(a[i]) != to_upper(b[i]) {
            return false;
        }
        i += 1;
    }
    true
}

/// The display name of a raw exported function identifier under a naming
/// flavor, as [`spec_function_name`] states it. Deterministic; a pure
/// string transform.
pub fn function_name_to_csharp_name(raw: &str, flavor: FunctionNameFlavor) -> (r: String)
    ensures
        r@ == spec_function_name(raw@, flavor),
{
    match flavor {
        FunctionNameFlavor::RawFFIName => raw.to_owned(),
        FunctionNameFlavor::CSharpMethodWithClass => to_pascal_case(raw),
        FunctionNameFlavor::CSharpMethodWithoutClass(class) => {
            let raw_chars = str_chars(raw);
            let converted = pascal_chars(&raw_chars);
            let class_chars = str_chars(class);
            if class_chars.len() <= converted.len() {
                let mut prefix: Vec<char> = Vec::new();
                let mut i: usize = 0;
                while i < class_chars.len()
                    invariant
                        0 <= i <= class_chars@.len(),
                        class_chars@.len() <= converted@.len(),
                        converted@ == spec_pascal(raw@),
                        prefix@ == converted@.take(i as int),
                    decreases class_chars@.len() - i,
                {
                    prefix.push(converted[i]);
                    proof {
                        assert(prefix@ =~= converted@.take(i as int + 1));
                    }
                    i += 1;
                }
                if eq_ignore_case(&prefix, &class_chars) {
                    let mut rest: Vec<char> = Vec::new();
                    let mut j: usize = class_chars.len();
                    while j < converted.len()
                        invariant
                            class_chars@.len() <= j <= converted@.len(),
                            converted@ == spec_pascal(raw@),
                            rest@ == converted@.subrange(class_chars@.len() as int, j as int),
                        decreases converted@.len() - j,
                    {
                        rest.push(converted[j]);
                        proof {
                            assert(rest@ =~= converted@.subrange(
                                class_chars@.len() as int,
                                j as int + 1,
                            ));
                        }
                        j += 1;
                    }
                    proof {
                        assert(rest@ =~= converted@.skip(class_chars@.len() as int));
                    }
                    string_from_chars(&rest)
                } else {
                    string_from_chars(&converted)
                }
            } else {
                string_from_chars(&converted)
            }
        },
    }
}

} // verus!
